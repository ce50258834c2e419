//! Auction and bid records, vault balances, and their invariants.

use vstd::prelude::*;

verus! {

use crate::account::AccountId;

/// Minimum lot duration at creation, in time units.
pub const MIN_AUCTION_DURATION: i64 = 3600;

/// A bid placed within this margin of the end time extends the deadline.
pub const EXTENSION_THRESHOLD: i64 = 600;

/// Lifecycle of an auction record.
///
/// `Created` is transient: creation funds the asset vault and advances to
/// `Active` within the same operation. The three terminal states never
/// mutate custody balances again.
#[derive(Clone, Copy, PartialEq, Eq, Structural, Debug)]
pub enum AuctionStatus {
    Created,
    Active,
    Settled,
    Cancelled,
    Failed,
}

/// Lifecycle of a bid record.
///
/// Only `Active` and `Cancelled` are ever assigned; `Outbid`, `Won` and
/// `Refunded` are reserved terminal values that no operation currently sets.
#[derive(Clone, Copy, PartialEq, Eq, Structural, Debug)]
pub enum BidStatus {
    Active,
    Outbid,
    Won,
    Refunded,
    Cancelled,
}

/// One auction of a fixed asset quantity against a payment token.
#[derive(Clone, Copy, PartialEq, Eq, Structural, Debug)]
pub struct Auction {
    /// Seller who created the auction.
    pub seller: AccountId,
    /// Asset token type on sale.
    pub asset_mint: AccountId,
    /// Payment token type bids are made in.
    pub payment_mint: AccountId,
    /// Asset quantity for sale, fixed at creation.
    pub asset_amount: u64,
    /// Floor for the first bid.
    pub starting_price: u64,
    /// Minimum winning bid for a successful settlement.
    pub reserve_price: u64,
    /// Least amount each bid must exceed the previous one by.
    pub min_bid_increment: u64,
    /// Leading bid amount; zero when no bid has been accepted.
    pub current_bid: u64,
    /// Leading bidder; the zero identity when no bid has been accepted.
    pub current_bidder: AccountId,
    /// When bidding opens.
    pub start_time: i64,
    /// When bidding closes; never moves backwards.
    pub end_time: i64,
    /// Lifecycle status.
    pub status: AuctionStatus,
    /// Number of accepted bid placements.
    pub total_bids: u64,
    /// Creation timestamp, part of the record's derived identity.
    pub created_at: i64,
    /// Bump of the record's derived address.
    pub bump: u8,
}

impl Auction {
    /// Size of the record's fixed encoding, in bytes.
    pub const LEN: usize = 8 + 32 + 32 + 32 + 8 + 8 + 8 + 8 + 8 + 32 + 8 + 8 + 1 + 8 + 8 + 1;

    /// Well-formedness of the record alone.
    pub open spec fn wf(self) -> bool {
        &&& !self.seller.is_zero()
        &&& self.asset_amount > 0
        &&& self.starting_price > 0
        &&& self.reserve_price >= self.starting_price
        &&& self.min_bid_increment > 0
        &&& self.end_time > self.start_time
        &&& self.current_bid == 0 <==> self.current_bidder.is_zero()
        &&& self.current_bid > 0 ==> self.current_bid >= self.starting_price
        &&& self.current_bidder != self.seller
        &&& self.current_bid > 0 ==> self.total_bids > 0
    }
}

/// One bid record per (auction, bidder) pair, created on first placement.
#[derive(Clone, Copy, PartialEq, Eq, Structural, Debug)]
pub struct Bid {
    /// The auction this bid belongs to.
    pub auction: AccountId,
    /// Who committed the funds.
    pub bidder: AccountId,
    /// Committed amount.
    pub amount: u64,
    /// When the bid was placed.
    pub timestamp: i64,
    /// Lifecycle status.
    pub status: BidStatus,
    /// Bump of the record's derived address.
    pub bump: u8,
}

impl Bid {
    /// Size of the record's fixed encoding, in bytes.
    pub const LEN: usize = 8 + 32 + 32 + 8 + 8 + 1 + 1;
}

/// Balances of the two custody accounts owned by one auction: the vault
/// holding the asset on sale and the vault holding the leading bid's payment.
#[derive(Clone, Copy, PartialEq, Eq, Structural, Debug)]
pub struct Vaults {
    /// Asset tokens in custody.
    pub asset_balance: u64,
    /// Payment tokens in custody.
    pub payment_balance: u64,
}

/// Custody invariant tying an auction record to its vault balances: while the
/// auction can still trade, the asset vault holds exactly the lot and the
/// payment vault exactly the leading bid; a terminal auction holds nothing.
pub open spec fn custody_ok(a: Auction, v: Vaults) -> bool {
    match a.status {
        AuctionStatus::Created | AuctionStatus::Active => {
            &&& v.asset_balance == a.asset_amount
            &&& v.payment_balance == a.current_bid
        },
        AuctionStatus::Settled | AuctionStatus::Cancelled | AuctionStatus::Failed => {
            &&& v.asset_balance == 0
            &&& v.payment_balance == 0
        },
    }
}

/// Full invariant of one auction and its custody pair.
pub open spec fn auction_inv(a: Auction, v: Vaults) -> bool {
    a.wf() && custody_ok(a, v)
}

} // verus!
