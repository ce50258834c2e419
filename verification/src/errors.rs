//! The auction engine's error surface.
//!
//! Every rejected operation maps to exactly one of these values; no error is
//! retried or swallowed. Failures of the external value-transfer service are
//! not listed here: a transfer failure aborts the whole operation before any
//! of its state changes are kept, so it never reaches the record.

use vstd::prelude::*;

verus! {

/// Why an auction operation was rejected.
#[derive(Clone, Copy, PartialEq, Eq, Structural, Debug)]
pub enum AuctionError {
    /// The asset quantity is zero.
    InvalidAmount,
    /// The starting price is zero.
    InvalidPrice,
    /// The reserve price is below the starting price.
    InvalidReservePrice,
    /// The minimum bid increment is zero.
    InvalidIncrement,
    /// The start time lies in the past.
    InvalidStartTime,
    /// The end time is not after the start time, or an extension does not
    /// move the end time forward.
    InvalidEndTime,
    /// The lot runs for less than the minimum duration.
    AuctionTooShort,
    /// The operation needs an auction with status `Active`.
    AuctionNotActive,
    /// Bidding has not opened yet.
    AuctionNotStarted,
    /// Bidding has closed.
    AuctionEnded,
    /// Settlement was attempted before the end time.
    AuctionNotEnded,
    /// The bid is below the required floor.
    BidTooLow,
    /// The seller tried to bid on their own auction.
    SellerCannotBid,
    /// The bid record is no longer active.
    BidNotActive,
    /// The current leader tried to cancel their bid.
    CannotCancelWinningBid,
    /// The caller does not own the record it tried to change.
    Unauthorized,
    /// The auction is already in a terminal state.
    CannotCancelAuction,
    /// Cancellation was attempted while a bid's funds are escrowed.
    HasActiveBids,
}

impl AuctionError {
    /// A short description of the error.
    pub fn message(&self) -> (r: &'static str)
        ensures
            r@ == self.message_spec(),
    {
        match self {
            AuctionError::InvalidAmount => "Invalid amount",
            AuctionError::InvalidPrice => "Invalid price",
            AuctionError::InvalidReservePrice => "Invalid reserve price",
            AuctionError::InvalidIncrement => "Invalid bid increment",
            AuctionError::InvalidStartTime => "Invalid start time",
            AuctionError::InvalidEndTime => "Invalid end time",
            AuctionError::AuctionTooShort => "Auction duration too short",
            AuctionError::AuctionNotActive => "Auction not active",
            AuctionError::AuctionNotStarted => "Auction not started",
            AuctionError::AuctionEnded => "Auction has ended",
            AuctionError::AuctionNotEnded => "Auction has not ended",
            AuctionError::BidTooLow => "Bid too low",
            AuctionError::SellerCannotBid => "Seller cannot bid on own auction",
            AuctionError::BidNotActive => "Bid not active",
            AuctionError::CannotCancelWinningBid => "Cannot cancel winning bid",
            AuctionError::Unauthorized => "Unauthorized",
            AuctionError::CannotCancelAuction => "Cannot cancel auction",
            AuctionError::HasActiveBids => "Auction has active bids",
        }
    }

    /// The description as a sequence of characters.
    pub open spec fn message_spec(self) -> Seq<char> {
        match self {
            AuctionError::InvalidAmount => "Invalid amount"@,
            AuctionError::InvalidPrice => "Invalid price"@,
            AuctionError::InvalidReservePrice => "Invalid reserve price"@,
            AuctionError::InvalidIncrement => "Invalid bid increment"@,
            AuctionError::InvalidStartTime => "Invalid start time"@,
            AuctionError::InvalidEndTime => "Invalid end time"@,
            AuctionError::AuctionTooShort => "Auction duration too short"@,
            AuctionError::AuctionNotActive => "Auction not active"@,
            AuctionError::AuctionNotStarted => "Auction not started"@,
            AuctionError::AuctionEnded => "Auction has ended"@,
            AuctionError::AuctionNotEnded => "Auction has not ended"@,
            AuctionError::BidTooLow => "Bid too low"@,
            AuctionError::SellerCannotBid => "Seller cannot bid on own auction"@,
            AuctionError::BidNotActive => "Bid not active"@,
            AuctionError::CannotCancelWinningBid => "Cannot cancel winning bid"@,
            AuctionError::Unauthorized => "Unauthorized"@,
            AuctionError::CannotCancelAuction => "Cannot cancel auction"@,
            AuctionError::HasActiveBids => "Auction has active bids"@,
        }
    }
}

} // verus!
