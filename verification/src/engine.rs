//! The auction state machine.
//!
//! Each operation validates its inputs against the current record, applies
//! the state transition, and returns the transfer intents the external
//! value-transfer service must perform together with the notifications the
//! operation emits. An operation either fully applies or leaves the record
//! and the vault balances untouched; when the service later rejects one of
//! the returned transfers, the caller discards the updated state, so no
//! partial effect is ever observable.
//!
//! The `*_check` spec functions give, in validation order, exactly which
//! error each operation returns on which inputs; the `*_next` spec functions
//! give the updated record.

use vstd::prelude::*;

verus! {

use crate::account::AccountId;
use crate::errors::AuctionError;
use crate::events::{
    AuctionCancelled, AuctionCreated, AuctionExtended, AuctionFailed, AuctionSettled, BidCancelled,
    BidPlaced, BidRefunded,
};
use crate::state::{
    auction_inv, Auction, AuctionStatus, Bid, BidStatus, Vaults, EXTENSION_THRESHOLD,
    MIN_AUCTION_DURATION,
};
use crate::transfers::{TransferAccount, TransferIntent};

// ---------------------------------------------------------------------------
// Auction creation
// ---------------------------------------------------------------------------

/// Which error, if any, rejects a creation with these inputs, in the order
/// the checks are made.
pub open spec fn create_check(
    asset_amount: u64,
    starting_price: u64,
    reserve_price: u64,
    min_bid_increment: u64,
    start_time: i64,
    end_time: i64,
    now: i64,
) -> Result<(), AuctionError> {
    if asset_amount == 0 {
        Err(AuctionError::InvalidAmount)
    } else if starting_price == 0 {
        Err(AuctionError::InvalidPrice)
    } else if reserve_price < starting_price {
        Err(AuctionError::InvalidReservePrice)
    } else if min_bid_increment == 0 {
        Err(AuctionError::InvalidIncrement)
    } else if start_time < now {
        Err(AuctionError::InvalidStartTime)
    } else if end_time <= start_time {
        Err(AuctionError::InvalidEndTime)
    } else if end_time - start_time < MIN_AUCTION_DURATION {
        Err(AuctionError::AuctionTooShort)
    } else {
        Ok(())
    }
}

/// The record a successful creation produces. Creation funds the asset vault
/// in the same operation, so the record is already `Active`: no `Created`
/// auction is ever observable.
pub open spec fn created_auction(
    seller: AccountId,
    asset_mint: AccountId,
    payment_mint: AccountId,
    asset_amount: u64,
    starting_price: u64,
    reserve_price: u64,
    min_bid_increment: u64,
    start_time: i64,
    end_time: i64,
    now: i64,
    bump: u8,
) -> Auction {
    Auction {
        seller,
        asset_mint,
        payment_mint,
        asset_amount,
        starting_price,
        reserve_price,
        min_bid_increment,
        current_bid: 0,
        current_bidder: crate::account::zero_id(),
        start_time,
        end_time,
        status: AuctionStatus::Active,
        total_bids: 0,
        created_at: now,
        bump,
    }
}

/// What a successful creation hands back: the live record, its funded
/// custody pair, the transfer that funds it, and the notification.
pub struct CreateOutcome {
    /// The new auction, already `Active`.
    pub auction: Auction,
    /// Its vault balances once the funding transfer has landed.
    pub vaults: Vaults,
    /// Moves the lot from the seller into the asset vault; if the
    /// value-transfer service rejects it, the whole creation is abandoned.
    pub fund_asset: TransferIntent,
    /// The creation notification.
    pub created: AuctionCreated,
}

/// Create an auction: validate the inputs, lock the asset into vault custody
/// and open bidding.
///
/// `auction_key` is the record's derived identity and `bump` its derivation
/// bump (see `crate::address`); `now` is the externally supplied current
/// time, which becomes the record's creation timestamp.
pub fn create_auction(
    auction_key: AccountId,
    bump: u8,
    seller: AccountId,
    asset_mint: AccountId,
    payment_mint: AccountId,
    asset_amount: u64,
    starting_price: u64,
    reserve_price: u64,
    min_bid_increment: u64,
    start_time: i64,
    end_time: i64,
    now: i64,
) -> (r: Result<CreateOutcome, AuctionError>)
    requires
        !seller.is_zero(),
    ensures
        r is Ok <==> create_check(
            asset_amount,
            starting_price,
            reserve_price,
            min_bid_increment,
            start_time,
            end_time,
            now,
        ) is Ok,
        r matches Err(e) ==> Err::<(), _>(e) == create_check(
            asset_amount,
            starting_price,
            reserve_price,
            min_bid_increment,
            start_time,
            end_time,
            now,
        ),
        r matches Ok(o) ==> {
            &&& o.auction == created_auction(
                seller,
                asset_mint,
                payment_mint,
                asset_amount,
                starting_price,
                reserve_price,
                min_bid_increment,
                start_time,
                end_time,
                now,
                bump,
            )
            &&& o.vaults == (Vaults { asset_balance: asset_amount, payment_balance: 0 })
            &&& auction_inv(o.auction, o.vaults)
            &&& o.fund_asset == (TransferIntent {
                from: TransferAccount::Seller,
                to: TransferAccount::AssetVault,
                mint: asset_mint,
                amount: asset_amount,
            })
            &&& o.created == (AuctionCreated {
                auction: auction_key,
                seller,
                asset_mint,
                asset_amount,
                starting_price,
                reserve_price,
                start_time,
                end_time,
            })
        },
{
    if asset_amount == 0 {
        return Err(AuctionError::InvalidAmount);
    }
    if starting_price == 0 {
        return Err(AuctionError::InvalidPrice);
    }
    if reserve_price < starting_price {
        return Err(AuctionError::InvalidReservePrice);
    }
    if min_bid_increment == 0 {
        return Err(AuctionError::InvalidIncrement);
    }
    if start_time < now {
        return Err(AuctionError::InvalidStartTime);
    }
    if end_time <= start_time {
        return Err(AuctionError::InvalidEndTime);
    }
    if (end_time as i128) - (start_time as i128) < (MIN_AUCTION_DURATION as i128) {
        return Err(AuctionError::AuctionTooShort);
    }
    let auction = Auction {
        seller,
        asset_mint,
        payment_mint,
        asset_amount,
        starting_price,
        reserve_price,
        min_bid_increment,
        current_bid: 0,
        current_bidder: AccountId::zero(),
        start_time,
        end_time,
        status: AuctionStatus::Active,
        total_bids: 0,
        created_at: now,
        bump,
    };
    let vaults = Vaults { asset_balance: asset_amount, payment_balance: 0 };
    let fund_asset = TransferIntent {
        from: TransferAccount::Seller,
        to: TransferAccount::AssetVault,
        mint: asset_mint,
        amount: asset_amount,
    };
    let created = AuctionCreated {
        auction: auction_key,
        seller,
        asset_mint,
        asset_amount,
        starting_price,
        reserve_price,
        start_time,
        end_time,
    };
    Ok(CreateOutcome { auction, vaults, fund_asset, created })
}

// ---------------------------------------------------------------------------
// Bid placement
// ---------------------------------------------------------------------------

/// The least amount the next bid must reach: the starting price while no bid
/// stands, afterwards the leading bid plus the minimum increment.
pub open spec fn bid_floor(a: Auction) -> int {
    if a.current_bid == 0 {
        a.starting_price as int
    } else {
        a.current_bid + a.min_bid_increment
    }
}

/// Which error, if any, rejects this placement, in the order the checks are
/// made.
pub open spec fn place_bid_check(a: Auction, bidder: AccountId, amount: u64, now: i64) -> Result<
    (),
    AuctionError,
> {
    if a.status != AuctionStatus::Active {
        Err(AuctionError::AuctionNotActive)
    } else if now < a.start_time {
        Err(AuctionError::AuctionNotStarted)
    } else if now >= a.end_time {
        Err(AuctionError::AuctionEnded)
    } else if bidder == a.seller {
        Err(AuctionError::SellerCannotBid)
    } else if amount < bid_floor(a) {
        Err(AuctionError::BidTooLow)
    } else {
        Ok(())
    }
}

/// Whether an accepted placement must first refund an escrowed leader.
pub open spec fn refund_due(a: Auction) -> bool {
    !a.current_bidder.is_zero() && a.current_bid > 0
}

/// Returns the leader's escrowed payment from the payment vault.
pub open spec fn refund_intent(a: Auction) -> TransferIntent {
    TransferIntent {
        from: TransferAccount::PaymentVault,
        to: TransferAccount::Bidder(a.current_bidder),
        mint: a.payment_mint,
        amount: a.current_bid,
    }
}

/// Escrows the new bid into the payment vault.
pub open spec fn escrow_intent(a: Auction, bidder: AccountId, amount: u64) -> TransferIntent {
    TransferIntent {
        from: TransferAccount::Bidder(bidder),
        to: TransferAccount::PaymentVault,
        mint: a.payment_mint,
        amount,
    }
}

/// The transfers an accepted placement performs, in order: refund the
/// previous leader first, so the vault never holds two bids at once, then
/// escrow the new bid.
pub open spec fn place_bid_intents(a: Auction, bidder: AccountId, amount: u64) -> Seq<
    TransferIntent,
> {
    if refund_due(a) {
        seq![refund_intent(a), escrow_intent(a, bidder, amount)]
    } else {
        seq![escrow_intent(a, bidder, amount)]
    }
}

/// The end time after the anti-snipe rule: a bid landing within
/// `EXTENSION_THRESHOLD` of the deadline pushes it to that margin past now;
/// a bid with more margin leaves it alone.
pub open spec fn snipe_extended_end(end_time: i64, now: i64) -> int {
    if end_time - now < EXTENSION_THRESHOLD {
        now + EXTENSION_THRESHOLD
    } else {
        end_time as int
    }
}

/// The record after an accepted placement.
pub open spec fn place_bid_next(a: Auction, bidder: AccountId, amount: u64, now: i64) -> Auction {
    Auction {
        current_bid: amount,
        current_bidder: bidder,
        total_bids: (a.total_bids + 1) as u64,
        end_time: snipe_extended_end(a.end_time, now) as i64,
        ..a
    }
}

/// What an accepted placement hands back.
pub struct PlaceBidOutcome {
    /// The bidder's bid record, freshly written.
    pub bid: Bid,
    /// The transfers to perform, in order; if the value-transfer service
    /// rejects any of them, the whole placement is abandoned.
    pub transfers: Vec<TransferIntent>,
    /// The refund notification, when a previous leader was escrowed.
    pub refunded: Option<BidRefunded>,
    /// The placement notification.
    pub placed: BidPlaced,
    /// The extension notification, when the anti-snipe rule moved the
    /// deadline.
    pub extended: Option<AuctionExtended>,
}

/// Place a bid: refund the escrowed leader if there is one, escrow the new
/// bid, take the lead, and extend the deadline when the bid lands late.
///
/// `bid_bump` is the derivation bump of the bidder's bid record (see
/// `crate::address`). The zero identity stands for "no bidder" and cannot
/// place bids. The two arithmetic bounds keep the extended deadline and the
/// bid counter representable; both are far beyond any reachable state.
pub fn place_bid(
    auction: &mut Auction,
    vaults: &mut Vaults,
    auction_key: AccountId,
    bidder: AccountId,
    bid_bump: u8,
    bid_amount: u64,
    now: i64,
) -> (r: Result<PlaceBidOutcome, AuctionError>)
    requires
        auction_inv(*old(auction), *old(vaults)),
        !bidder.is_zero(),
        place_bid_check(*old(auction), bidder, bid_amount, now) is Ok ==> old(
            auction,
        ).total_bids < u64::MAX,
        place_bid_check(*old(auction), bidder, bid_amount, now) is Ok && old(
            auction,
        ).end_time - now < EXTENSION_THRESHOLD ==> now + EXTENSION_THRESHOLD <= i64::MAX,
    ensures
        r is Ok <==> place_bid_check(*old(auction), bidder, bid_amount, now) is Ok,
        r matches Err(e) ==> {
            &&& Err::<(), _>(e) == place_bid_check(*old(auction), bidder, bid_amount, now)
            &&& *final(auction) == *old(auction)
            &&& *final(vaults) == *old(vaults)
        },
        r matches Ok(o) ==> {
            &&& *final(auction) == place_bid_next(*old(auction), bidder, bid_amount, now)
            &&& final(vaults).asset_balance == old(vaults).asset_balance
            &&& final(vaults).payment_balance == bid_amount
            &&& auction_inv(*final(auction), *final(vaults))
            &&& o.transfers@ == place_bid_intents(*old(auction), bidder, bid_amount)
            &&& o.bid == (Bid {
                auction: auction_key,
                bidder,
                amount: bid_amount,
                timestamp: now,
                status: BidStatus::Active,
                bump: bid_bump,
            })
            &&& o.placed == (BidPlaced { auction: auction_key, bidder, amount: bid_amount, timestamp: now })
            &&& (o.refunded is Some <==> refund_due(*old(auction)))
            &&& (refund_due(*old(auction)) ==> o.refunded == Some(BidRefunded {
                auction: auction_key,
                bidder: old(auction).current_bidder,
                amount: old(auction).current_bid,
            }))
            &&& (o.extended is Some <==> old(auction).end_time - now < EXTENSION_THRESHOLD)
            &&& (o.extended matches Some(e) ==> e == (AuctionExtended {
                auction: auction_key,
                new_end_time: final(auction).end_time,
            }))
            &&& final(auction).end_time >= old(auction).end_time
            &&& final(auction).total_bids == old(auction).total_bids + 1
            &&& bid_amount >= bid_floor(*old(auction))
        },
{
    if auction.status != AuctionStatus::Active {
        return Err(AuctionError::AuctionNotActive);
    }
    if now < auction.start_time {
        return Err(AuctionError::AuctionNotStarted);
    }
    if now >= auction.end_time {
        return Err(AuctionError::AuctionEnded);
    }
    if bidder == auction.seller {
        return Err(AuctionError::SellerCannotBid);
    }
    if auction.current_bid == 0 {
        if bid_amount < auction.starting_price {
            return Err(AuctionError::BidTooLow);
        }
    } else {
        if bid_amount < auction.current_bid || bid_amount - auction.current_bid
            < auction.min_bid_increment {
            return Err(AuctionError::BidTooLow);
        }
    }

    // Refund the previous leader before accepting the new escrow, so the
    // payment vault never holds two bids.
    let mut transfers: Vec<TransferIntent> = Vec::new();
    let mut refunded: Option<BidRefunded> = None;
    if !auction.current_bidder.is_zero_account() && auction.current_bid > 0 {
        transfers.push(
            TransferIntent {
                from: TransferAccount::PaymentVault,
                to: TransferAccount::Bidder(auction.current_bidder),
                mint: auction.payment_mint,
                amount: auction.current_bid,
            },
        );
        refunded = Some(
            BidRefunded {
                auction: auction_key,
                bidder: auction.current_bidder,
                amount: auction.current_bid,
            },
        );
    }
    transfers.push(
        TransferIntent {
            from: TransferAccount::Bidder(bidder),
            to: TransferAccount::PaymentVault,
            mint: auction.payment_mint,
            amount: bid_amount,
        },
    );
    vaults.payment_balance = bid_amount;

    let bid = Bid {
        auction: auction_key,
        bidder,
        amount: bid_amount,
        timestamp: now,
        status: BidStatus::Active,
        bump: bid_bump,
    };
    auction.current_bid = bid_amount;
    auction.current_bidder = bidder;
    auction.total_bids = auction.total_bids + 1;

    let mut extended: Option<AuctionExtended> = None;
    if (auction.end_time as i128) - (now as i128) < (EXTENSION_THRESHOLD as i128) {
        auction.end_time = now + EXTENSION_THRESHOLD;
        extended = Some(AuctionExtended { auction: auction_key, new_end_time: auction.end_time });
    }
    let placed = BidPlaced { auction: auction_key, bidder, amount: bid_amount, timestamp: now };

    proof {
        assert(transfers@ =~= place_bid_intents(*old(auction), bidder, bid_amount));
    }
    Ok(PlaceBidOutcome { bid, transfers, refunded, placed, extended })
}

// ---------------------------------------------------------------------------
// Bid cancellation
// ---------------------------------------------------------------------------

/// Which error, if any, rejects this bid cancellation, in the order the
/// checks are made.
pub open spec fn cancel_bid_check(b: Bid, a: Auction, caller: AccountId) -> Result<
    (),
    AuctionError,
> {
    if b.bidder != caller {
        Err(AuctionError::Unauthorized)
    } else if b.status != BidStatus::Active {
        Err(AuctionError::BidNotActive)
    } else if a.current_bidder == b.bidder && a.status != AuctionStatus::Cancelled {
        Err(AuctionError::CannotCancelWinningBid)
    } else {
        Ok(())
    }
}

/// Cancel a bid record: only its own bidder may, only while it is active,
/// and never while it leads a live auction.
///
/// This moves no funds: an outbid bidder was already refunded when outbid,
/// and a bidder on a cancelled auction relies on the terminal paths having
/// emptied the payment vault.
pub fn cancel_bid(bid: &mut Bid, auction: &Auction, caller: AccountId) -> (r: Result<
    BidCancelled,
    AuctionError,
>)
    ensures
        r is Ok <==> cancel_bid_check(*old(bid), *auction, caller) is Ok,
        r matches Err(e) ==> {
            &&& Err::<(), _>(e) == cancel_bid_check(*old(bid), *auction, caller)
            &&& *final(bid) == *old(bid)
        },
        r matches Ok(ev) ==> {
            &&& *final(bid) == (Bid { status: BidStatus::Cancelled, ..*old(bid) })
            &&& ev == (BidCancelled {
                auction: old(bid).auction,
                bidder: old(bid).bidder,
                amount: old(bid).amount,
            })
        },
{
    if bid.bidder != caller {
        return Err(AuctionError::Unauthorized);
    }
    if bid.status != BidStatus::Active {
        return Err(AuctionError::BidNotActive);
    }
    if auction.current_bidder == bid.bidder && auction.status != AuctionStatus::Cancelled {
        return Err(AuctionError::CannotCancelWinningBid);
    }
    bid.status = BidStatus::Cancelled;
    Ok(BidCancelled { auction: bid.auction, bidder: bid.bidder, amount: bid.amount })
}

// ---------------------------------------------------------------------------
// Settlement
// ---------------------------------------------------------------------------

/// Which error, if any, rejects settlement, in the order the checks are
/// made. Settlement is permissionless: no caller identity is examined, so no
/// single party can strand the custodied funds.
pub open spec fn settle_check(a: Auction, now: i64) -> Result<(), AuctionError> {
    if a.status != AuctionStatus::Active {
        Err(AuctionError::AuctionNotActive)
    } else if now < a.end_time {
        Err(AuctionError::AuctionNotEnded)
    } else {
        Ok(())
    }
}

/// Whether settlement takes the success path: the reserve is met and a
/// leader exists.
pub open spec fn settle_success(a: Auction) -> bool {
    a.current_bid >= a.reserve_price && !a.current_bidder.is_zero()
}

/// Moves the lot from the asset vault to the winning bidder.
pub open spec fn asset_to_winner(a: Auction) -> TransferIntent {
    TransferIntent {
        from: TransferAccount::AssetVault,
        to: TransferAccount::Bidder(a.current_bidder),
        mint: a.asset_mint,
        amount: a.asset_amount,
    }
}

/// Moves the winning payment from the payment vault to the seller.
pub open spec fn payment_to_seller(a: Auction) -> TransferIntent {
    TransferIntent {
        from: TransferAccount::PaymentVault,
        to: TransferAccount::Seller,
        mint: a.payment_mint,
        amount: a.current_bid,
    }
}

/// Returns the lot from the asset vault to the seller.
pub open spec fn asset_to_seller(a: Auction) -> TransferIntent {
    TransferIntent {
        from: TransferAccount::AssetVault,
        to: TransferAccount::Seller,
        mint: a.asset_mint,
        amount: a.asset_amount,
    }
}

/// The transfers settlement performs: on success the asset goes to the
/// winner and the payment to the seller; otherwise the asset returns to the
/// seller and the leader, if any, is refunded. Both vaults are empty
/// afterwards either way.
pub open spec fn settle_intents(a: Auction) -> Seq<TransferIntent> {
    if settle_success(a) {
        seq![asset_to_winner(a), payment_to_seller(a)]
    } else if refund_due(a) {
        seq![asset_to_seller(a), refund_intent(a)]
    } else {
        seq![asset_to_seller(a)]
    }
}

/// The record after settlement: `Settled` on the success path, `Failed`
/// otherwise; every other field is kept.
pub open spec fn settle_next(a: Auction) -> Auction {
    Auction {
        status: if settle_success(a) {
            AuctionStatus::Settled
        } else {
            AuctionStatus::Failed
        },
        ..a
    }
}

/// How a settlement ended.
#[derive(Clone, Copy, PartialEq, Eq, Structural, Debug)]
pub enum SettleEvent {
    /// The reserve was met.
    Settled(AuctionSettled),
    /// The reserve was not met (or nobody bid).
    Failed(AuctionFailed),
}

/// What settlement hands back.
pub struct SettleOutcome {
    /// The transfers to perform, in order; if the value-transfer service
    /// rejects any of them, the whole settlement is abandoned.
    pub transfers: Vec<TransferIntent>,
    /// The settlement notification.
    pub event: SettleEvent,
}

/// Settle an ended auction into exactly one of its two terminal outcomes,
/// emptying both vaults.
pub fn settle_auction(
    auction: &mut Auction,
    vaults: &mut Vaults,
    auction_key: AccountId,
    now: i64,
) -> (r: Result<SettleOutcome, AuctionError>)
    requires
        auction_inv(*old(auction), *old(vaults)),
    ensures
        r is Ok <==> settle_check(*old(auction), now) is Ok,
        r matches Err(e) ==> {
            &&& Err::<(), _>(e) == settle_check(*old(auction), now)
            &&& *final(auction) == *old(auction)
            &&& *final(vaults) == *old(vaults)
        },
        r matches Ok(o) ==> {
            &&& *final(auction) == settle_next(*old(auction))
            &&& *final(vaults) == (Vaults { asset_balance: 0, payment_balance: 0 })
            &&& auction_inv(*final(auction), *final(vaults))
            &&& o.transfers@ == settle_intents(*old(auction))
            &&& (settle_success(*old(auction)) ==> o.event == SettleEvent::Settled(
                AuctionSettled {
                    auction: auction_key,
                    winner: old(auction).current_bidder,
                    winning_bid: old(auction).current_bid,
                    seller: old(auction).seller,
                },
            ))
            &&& (!settle_success(*old(auction)) ==> o.event == SettleEvent::Failed(
                AuctionFailed {
                    auction: auction_key,
                    highest_bid: old(auction).current_bid,
                    reserve_price: old(auction).reserve_price,
                },
            ))
        },
{
    if auction.status != AuctionStatus::Active {
        return Err(AuctionError::AuctionNotActive);
    }
    if now < auction.end_time {
        return Err(AuctionError::AuctionNotEnded);
    }

    let mut transfers: Vec<TransferIntent> = Vec::new();
    let event: SettleEvent;
    if auction.current_bid >= auction.reserve_price && !auction.current_bidder.is_zero_account() {
        transfers.push(
            TransferIntent {
                from: TransferAccount::AssetVault,
                to: TransferAccount::Bidder(auction.current_bidder),
                mint: auction.asset_mint,
                amount: auction.asset_amount,
            },
        );
        transfers.push(
            TransferIntent {
                from: TransferAccount::PaymentVault,
                to: TransferAccount::Seller,
                mint: auction.payment_mint,
                amount: auction.current_bid,
            },
        );
        auction.status = AuctionStatus::Settled;
        event = SettleEvent::Settled(
            AuctionSettled {
                auction: auction_key,
                winner: auction.current_bidder,
                winning_bid: auction.current_bid,
                seller: auction.seller,
            },
        );
    } else {
        transfers.push(
            TransferIntent {
                from: TransferAccount::AssetVault,
                to: TransferAccount::Seller,
                mint: auction.asset_mint,
                amount: auction.asset_amount,
            },
        );
        if !auction.current_bidder.is_zero_account() && auction.current_bid > 0 {
            transfers.push(
                TransferIntent {
                    from: TransferAccount::PaymentVault,
                    to: TransferAccount::Bidder(auction.current_bidder),
                    mint: auction.payment_mint,
                    amount: auction.current_bid,
                },
            );
        }
        auction.status = AuctionStatus::Failed;
        event = SettleEvent::Failed(
            AuctionFailed {
                auction: auction_key,
                highest_bid: auction.current_bid,
                reserve_price: auction.reserve_price,
            },
        );
    }
    vaults.asset_balance = 0;
    vaults.payment_balance = 0;

    proof {
        assert(transfers@ =~= settle_intents(*old(auction)));
    }
    Ok(SettleOutcome { transfers, event })
}

// ---------------------------------------------------------------------------
// Auction cancellation
// ---------------------------------------------------------------------------

/// Which error, if any, rejects a cancellation, in the order the checks are
/// made. While any bid's funds are escrowed the seller cannot cancel; once
/// bidding activity exists only in the counter (every escrow already
/// returned), cancellation is allowed again.
pub open spec fn cancel_auction_check(a: Auction, authority: AccountId) -> Result<
    (),
    AuctionError,
> {
    if a.status != AuctionStatus::Created && a.status != AuctionStatus::Active {
        Err(AuctionError::CannotCancelAuction)
    } else if a.seller != authority {
        Err(AuctionError::Unauthorized)
    } else if a.total_bids > 0 && a.current_bid != 0 {
        Err(AuctionError::HasActiveBids)
    } else {
        Ok(())
    }
}

/// The record after cancellation; every other field is kept.
pub open spec fn cancel_next(a: Auction) -> Auction {
    Auction { status: AuctionStatus::Cancelled, ..a }
}

/// What cancellation hands back.
pub struct CancelOutcome {
    /// Returns the lot to the seller; if the value-transfer service rejects
    /// it, the whole cancellation is abandoned.
    pub return_asset: TransferIntent,
    /// The cancellation notification.
    pub event: AuctionCancelled,
}

/// Cancel an auction: only the seller may, and only while no bid's funds are
/// escrowed. The asset returns to the seller; the payment vault is not
/// touched, because the precondition guarantees it is already empty.
pub fn cancel_auction(
    auction: &mut Auction,
    vaults: &mut Vaults,
    auction_key: AccountId,
    authority: AccountId,
) -> (r: Result<CancelOutcome, AuctionError>)
    requires
        auction_inv(*old(auction), *old(vaults)),
    ensures
        r is Ok <==> cancel_auction_check(*old(auction), authority) is Ok,
        r matches Err(e) ==> {
            &&& Err::<(), _>(e) == cancel_auction_check(*old(auction), authority)
            &&& *final(auction) == *old(auction)
            &&& *final(vaults) == *old(vaults)
        },
        r matches Ok(o) ==> {
            &&& *final(auction) == cancel_next(*old(auction))
            &&& *final(vaults) == (Vaults { asset_balance: 0, payment_balance: 0 })
            &&& auction_inv(*final(auction), *final(vaults))
            &&& o.return_asset == asset_to_seller(*old(auction))
            &&& o.event == (AuctionCancelled { auction: auction_key, cancelled_by: authority })
        },
{
    if auction.status != AuctionStatus::Created && auction.status != AuctionStatus::Active {
        return Err(AuctionError::CannotCancelAuction);
    }
    if auction.seller != authority {
        return Err(AuctionError::Unauthorized);
    }
    if auction.total_bids > 0 && auction.current_bid != 0 {
        return Err(AuctionError::HasActiveBids);
    }

    let return_asset = TransferIntent {
        from: TransferAccount::AssetVault,
        to: TransferAccount::Seller,
        mint: auction.asset_mint,
        amount: auction.asset_amount,
    };
    auction.status = AuctionStatus::Cancelled;
    vaults.asset_balance = 0;
    let event = AuctionCancelled { auction: auction_key, cancelled_by: authority };
    Ok(CancelOutcome { return_asset, event })
}

// ---------------------------------------------------------------------------
// Manual extension
// ---------------------------------------------------------------------------

/// Which error, if any, rejects a manual extension, in the order the checks
/// are made.
pub open spec fn extend_check(a: Auction, caller: AccountId, new_end_time: i64, now: i64) -> Result<
    (),
    AuctionError,
> {
    if a.status != AuctionStatus::Active {
        Err(AuctionError::AuctionNotActive)
    } else if a.seller != caller {
        Err(AuctionError::Unauthorized)
    } else if new_end_time <= a.end_time {
        Err(AuctionError::InvalidEndTime)
    } else if now >= a.end_time {
        Err(AuctionError::AuctionEnded)
    } else {
        Ok(())
    }
}

/// Manually extend a live auction's deadline: only the seller may, only
/// strictly forward, and only before the current deadline has passed. This
/// composes with the automatic anti-snipe extension in either order.
pub fn extend_auction(
    auction: &mut Auction,
    auction_key: AccountId,
    caller: AccountId,
    new_end_time: i64,
    now: i64,
) -> (r: Result<AuctionExtended, AuctionError>)
    requires
        old(auction).wf(),
    ensures
        r is Ok <==> extend_check(*old(auction), caller, new_end_time, now) is Ok,
        r matches Err(e) ==> {
            &&& Err::<(), _>(e) == extend_check(*old(auction), caller, new_end_time, now)
            &&& *final(auction) == *old(auction)
        },
        r matches Ok(ev) ==> {
            &&& *final(auction) == (Auction { end_time: new_end_time, ..*old(auction) })
            &&& final(auction).end_time > old(auction).end_time
            &&& final(auction).wf()
            &&& ev == (AuctionExtended { auction: auction_key, new_end_time })
        },
{
    if auction.status != AuctionStatus::Active {
        return Err(AuctionError::AuctionNotActive);
    }
    if auction.seller != caller {
        return Err(AuctionError::Unauthorized);
    }
    if new_end_time <= auction.end_time {
        return Err(AuctionError::InvalidEndTime);
    }
    if now >= auction.end_time {
        return Err(AuctionError::AuctionEnded);
    }
    auction.end_time = new_end_time;
    Ok(AuctionExtended { auction: auction_key, new_end_time })
}

} // verus!
