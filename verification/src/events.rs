//! Notifications emitted by the engine's operations.
//!
//! Each mutating operation reports what it did for off-system observers and
//! indexers. Notifications are a side channel: nothing in the engine depends
//! on them, but their fields are pinned down by each operation's contract.

use vstd::prelude::*;

verus! {

use crate::account::AccountId;

/// An auction was created and its asset vault funded.
#[derive(Clone, Copy, PartialEq, Eq, Structural, Debug)]
pub struct AuctionCreated {
    pub auction: AccountId,
    pub seller: AccountId,
    pub asset_mint: AccountId,
    pub asset_amount: u64,
    pub starting_price: u64,
    pub reserve_price: u64,
    pub start_time: i64,
    pub end_time: i64,
}

/// A bid was accepted and its payment escrowed.
#[derive(Clone, Copy, PartialEq, Eq, Structural, Debug)]
pub struct BidPlaced {
    pub auction: AccountId,
    pub bidder: AccountId,
    pub amount: u64,
    pub timestamp: i64,
}

/// An outbid leader's escrowed payment was returned.
#[derive(Clone, Copy, PartialEq, Eq, Structural, Debug)]
pub struct BidRefunded {
    pub auction: AccountId,
    pub bidder: AccountId,
    pub amount: u64,
}

/// A bid record was marked cancelled; no funds moved.
#[derive(Clone, Copy, PartialEq, Eq, Structural, Debug)]
pub struct BidCancelled {
    pub auction: AccountId,
    pub bidder: AccountId,
    pub amount: u64,
}

/// The reserve was met: asset to the winner, payment to the seller.
#[derive(Clone, Copy, PartialEq, Eq, Structural, Debug)]
pub struct AuctionSettled {
    pub auction: AccountId,
    pub winner: AccountId,
    pub winning_bid: u64,
    pub seller: AccountId,
}

/// The reserve was not met: asset back to the seller, payment refunded.
#[derive(Clone, Copy, PartialEq, Eq, Structural, Debug)]
pub struct AuctionFailed {
    pub auction: AccountId,
    pub highest_bid: u64,
    pub reserve_price: u64,
}

/// The seller cancelled the auction; the asset went back to the seller.
#[derive(Clone, Copy, PartialEq, Eq, Structural, Debug)]
pub struct AuctionCancelled {
    pub auction: AccountId,
    pub cancelled_by: AccountId,
}

/// The deadline moved, by the seller's hand or by the anti-snipe rule.
#[derive(Clone, Copy, PartialEq, Eq, Structural, Debug)]
pub struct AuctionExtended {
    pub auction: AccountId,
    pub new_end_time: i64,
}

} // verus!
