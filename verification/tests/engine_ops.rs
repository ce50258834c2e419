use auction::account::AccountId;
use auction::engine::{
    cancel_auction, cancel_bid, create_auction, extend_auction, place_bid, settle_auction,
    CreateOutcome, SettleEvent,
};
use auction::errors::AuctionError;
use auction::events::{AuctionExtended, AuctionFailed, AuctionSettled, BidRefunded};
use auction::state::{Auction, AuctionStatus, Bid, BidStatus, Vaults};
use auction::transfers::TransferAccount;

fn id(n: u64) -> AccountId {
    AccountId { w0: n, w1: 0, w2: 0, w3: 0 }
}

const KEY: u64 = 99;

fn fresh_auction() -> CreateOutcome {
    // seller 1, asset mint 10, payment mint 11, lot of 5 units,
    // starting 100, reserve 150, increment 10, open [1000, 10000)
    create_auction(id(KEY), 255, id(1), id(10), id(11), 5, 100, 150, 10, 1000, 10000, 1000)
        .expect("creation should succeed")
}

#[test]
fn create_rejects_zero_asset_amount() {
    let r = create_auction(id(KEY), 255, id(1), id(10), id(11), 0, 100, 150, 10, 1000, 10000, 1000);
    assert_eq!(r.err(), Some(AuctionError::InvalidAmount));
}

#[test]
fn create_rejects_zero_starting_price() {
    let r = create_auction(id(KEY), 255, id(1), id(10), id(11), 5, 0, 150, 10, 1000, 10000, 1000);
    assert_eq!(r.err(), Some(AuctionError::InvalidPrice));
}

#[test]
fn create_rejects_reserve_below_starting() {
    let r = create_auction(id(KEY), 255, id(1), id(10), id(11), 5, 100, 99, 10, 1000, 10000, 1000);
    assert_eq!(r.err(), Some(AuctionError::InvalidReservePrice));
}

#[test]
fn create_rejects_zero_increment() {
    let r = create_auction(id(KEY), 255, id(1), id(10), id(11), 5, 100, 150, 0, 1000, 10000, 1000);
    assert_eq!(r.err(), Some(AuctionError::InvalidIncrement));
}

#[test]
fn create_rejects_start_in_the_past() {
    let r = create_auction(id(KEY), 255, id(1), id(10), id(11), 5, 100, 150, 10, 999, 10000, 1000);
    assert_eq!(r.err(), Some(AuctionError::InvalidStartTime));
}

#[test]
fn create_rejects_end_not_after_start() {
    let r = create_auction(id(KEY), 255, id(1), id(10), id(11), 5, 100, 150, 10, 1000, 1000, 1000);
    assert_eq!(r.err(), Some(AuctionError::InvalidEndTime));
}

#[test]
fn create_rejects_short_duration() {
    let r = create_auction(id(KEY), 255, id(1), id(10), id(11), 5, 100, 150, 10, 1000, 4599, 1000);
    assert_eq!(r.err(), Some(AuctionError::AuctionTooShort));
}

#[test]
fn create_accepts_minimum_duration() {
    let r = create_auction(id(KEY), 255, id(1), id(10), id(11), 5, 100, 150, 10, 1000, 4600, 1000);
    assert!(r.is_ok());
}

#[test]
fn creation_funds_asset_vault_and_activates() {
    let o = fresh_auction();
    assert_eq!(o.auction.status, AuctionStatus::Active);
    assert_eq!(o.auction.seller, id(1));
    assert_eq!(o.auction.current_bid, 0);
    assert_eq!(o.auction.current_bidder, AccountId::zero());
    assert_eq!(o.auction.total_bids, 0);
    assert_eq!(o.auction.created_at, 1000);
    assert_eq!(o.auction.bump, 255);
    assert_eq!(o.vaults, Vaults { asset_balance: 5, payment_balance: 0 });
    assert_eq!(o.fund_asset.from, TransferAccount::Seller);
    assert_eq!(o.fund_asset.to, TransferAccount::AssetVault);
    assert_eq!(o.fund_asset.mint, id(10));
    assert_eq!(o.fund_asset.amount, 5);
    assert_eq!(o.created.auction, id(KEY));
    assert_eq!(o.created.asset_amount, 5);
}

#[test]
fn bid_rejected_before_start() {
    let o = fresh_auction();
    let (mut a, mut v) = (o.auction, o.vaults);
    let r = place_bid(&mut a, &mut v, id(KEY), id(2), 254, 100, 999);
    assert_eq!(r.err(), Some(AuctionError::AuctionNotStarted));
    assert_eq!(a, o.auction);
    assert_eq!(v, o.vaults);
}

#[test]
fn bid_rejected_at_end_time() {
    let o = fresh_auction();
    let (mut a, mut v) = (o.auction, o.vaults);
    let r = place_bid(&mut a, &mut v, id(KEY), id(2), 254, 100, 10000);
    assert_eq!(r.err(), Some(AuctionError::AuctionEnded));
}

#[test]
fn first_bid_below_starting_price_rejected() {
    let o = fresh_auction();
    let (mut a, mut v) = (o.auction, o.vaults);
    let r = place_bid(&mut a, &mut v, id(KEY), id(2), 254, 99, 2000);
    assert_eq!(r.err(), Some(AuctionError::BidTooLow));
}

#[test]
fn first_bid_at_starting_price_accepted() {
    let o = fresh_auction();
    let (mut a, mut v) = (o.auction, o.vaults);
    let r = place_bid(&mut a, &mut v, id(KEY), id(2), 254, 100, 2000).expect("accepted");
    assert_eq!(a.current_bid, 100);
    assert_eq!(a.current_bidder, id(2));
    assert_eq!(a.total_bids, 1);
    assert_eq!(v.payment_balance, 100);
    assert_eq!(v.asset_balance, 5);
    // no leader was escrowed: a single transfer, no refund
    assert_eq!(r.transfers.len(), 1);
    assert_eq!(r.transfers[0].from, TransferAccount::Bidder(id(2)));
    assert_eq!(r.transfers[0].to, TransferAccount::PaymentVault);
    assert_eq!(r.transfers[0].amount, 100);
    assert_eq!(r.refunded, None);
    assert_eq!(r.extended, None);
    assert_eq!(
        r.bid,
        Bid {
            auction: id(KEY),
            bidder: id(2),
            amount: 100,
            timestamp: 2000,
            status: BidStatus::Active,
            bump: 254,
        }
    );
    assert_eq!(r.placed.amount, 100);
    assert_eq!(r.placed.bidder, id(2));
}

#[test]
fn outbidding_refunds_previous_leader_first() {
    let o = fresh_auction();
    let (mut a, mut v) = (o.auction, o.vaults);
    place_bid(&mut a, &mut v, id(KEY), id(2), 254, 100, 2000).expect("accepted");
    let r = place_bid(&mut a, &mut v, id(KEY), id(3), 253, 110, 2100).expect("accepted");
    assert_eq!(a.current_bid, 110);
    assert_eq!(a.current_bidder, id(3));
    assert_eq!(a.total_bids, 2);
    assert_eq!(v.payment_balance, 110);
    assert_eq!(r.transfers.len(), 2);
    // refund before accept
    assert_eq!(r.transfers[0].from, TransferAccount::PaymentVault);
    assert_eq!(r.transfers[0].to, TransferAccount::Bidder(id(2)));
    assert_eq!(r.transfers[0].amount, 100);
    assert_eq!(r.transfers[1].from, TransferAccount::Bidder(id(3)));
    assert_eq!(r.transfers[1].to, TransferAccount::PaymentVault);
    assert_eq!(r.transfers[1].amount, 110);
    assert_eq!(
        r.refunded,
        Some(BidRefunded { auction: id(KEY), bidder: id(2), amount: 100 })
    );
}

#[test]
fn raise_below_increment_rejected() {
    let o = fresh_auction();
    let (mut a, mut v) = (o.auction, o.vaults);
    place_bid(&mut a, &mut v, id(KEY), id(2), 254, 100, 2000).expect("accepted");
    let r = place_bid(&mut a, &mut v, id(KEY), id(3), 253, 109, 2100);
    assert_eq!(r.err(), Some(AuctionError::BidTooLow));
    assert_eq!(a.current_bidder, id(2));
}

#[test]
fn leader_may_raise_their_own_bid() {
    let o = fresh_auction();
    let (mut a, mut v) = (o.auction, o.vaults);
    place_bid(&mut a, &mut v, id(KEY), id(2), 254, 100, 2000).expect("accepted");
    let r = place_bid(&mut a, &mut v, id(KEY), id(2), 254, 110, 2100).expect("accepted");
    // the leader refunds themselves, then escrows the larger amount
    assert_eq!(r.transfers.len(), 2);
    assert_eq!(r.transfers[0].to, TransferAccount::Bidder(id(2)));
    assert_eq!(r.transfers[0].amount, 100);
    assert_eq!(a.current_bidder, id(2));
    assert_eq!(a.current_bid, 110);
    assert_eq!(v.payment_balance, 110);
}

#[test]
fn late_bid_extends_deadline_to_margin_past_now() {
    let o = fresh_auction();
    let (mut a, mut v) = (o.auction, o.vaults);
    let r = place_bid(&mut a, &mut v, id(KEY), id(2), 254, 100, 9500).expect("accepted");
    // 10000 - 9500 = 500 < 600, so the deadline becomes 9500 + 600
    assert_eq!(a.end_time, 10100);
    assert_eq!(
        r.extended,
        Some(AuctionExtended { auction: id(KEY), new_end_time: 10100 })
    );
}

#[test]
fn early_bid_never_moves_deadline() {
    let o = fresh_auction();
    let (mut a, mut v) = (o.auction, o.vaults);
    // 10000 - 9400 = 600, exactly at the margin: no extension
    let r = place_bid(&mut a, &mut v, id(KEY), id(2), 254, 100, 9400).expect("accepted");
    assert_eq!(a.end_time, 10000);
    assert_eq!(r.extended, None);
}

#[test]
fn settle_before_end_rejected() {
    let o = fresh_auction();
    let (mut a, mut v) = (o.auction, o.vaults);
    let r = settle_auction(&mut a, &mut v, id(KEY), 9999);
    assert_eq!(r.err(), Some(AuctionError::AuctionNotEnded));
    assert_eq!(a.status, AuctionStatus::Active);
}

#[test]
fn settle_success_pays_seller_and_delivers_asset() {
    let o = fresh_auction();
    let (mut a, mut v) = (o.auction, o.vaults);
    place_bid(&mut a, &mut v, id(KEY), id(2), 254, 160, 2000).expect("accepted");
    let r = settle_auction(&mut a, &mut v, id(KEY), 10000).expect("settles");
    assert_eq!(a.status, AuctionStatus::Settled);
    assert_eq!(v, Vaults { asset_balance: 0, payment_balance: 0 });
    assert_eq!(r.transfers.len(), 2);
    assert_eq!(r.transfers[0].from, TransferAccount::AssetVault);
    assert_eq!(r.transfers[0].to, TransferAccount::Bidder(id(2)));
    assert_eq!(r.transfers[0].amount, 5);
    assert_eq!(r.transfers[1].from, TransferAccount::PaymentVault);
    assert_eq!(r.transfers[1].to, TransferAccount::Seller);
    assert_eq!(r.transfers[1].amount, 160);
    assert_eq!(
        r.event,
        SettleEvent::Settled(AuctionSettled {
            auction: id(KEY),
            winner: id(2),
            winning_bid: 160,
            seller: id(1),
        })
    );
}

#[test]
fn settle_below_reserve_returns_asset_and_refunds_leader() {
    let o = fresh_auction();
    let (mut a, mut v) = (o.auction, o.vaults);
    place_bid(&mut a, &mut v, id(KEY), id(2), 254, 110, 2000).expect("accepted");
    let r = settle_auction(&mut a, &mut v, id(KEY), 10000).expect("settles");
    assert_eq!(a.status, AuctionStatus::Failed);
    assert_eq!(v, Vaults { asset_balance: 0, payment_balance: 0 });
    assert_eq!(r.transfers.len(), 2);
    assert_eq!(r.transfers[0].from, TransferAccount::AssetVault);
    assert_eq!(r.transfers[0].to, TransferAccount::Seller);
    assert_eq!(r.transfers[1].from, TransferAccount::PaymentVault);
    assert_eq!(r.transfers[1].to, TransferAccount::Bidder(id(2)));
    assert_eq!(r.transfers[1].amount, 110);
    assert_eq!(
        r.event,
        SettleEvent::Failed(AuctionFailed {
            auction: id(KEY),
            highest_bid: 110,
            reserve_price: 150,
        })
    );
}

#[test]
fn settle_without_bids_returns_asset_only() {
    let o = fresh_auction();
    let (mut a, mut v) = (o.auction, o.vaults);
    let r = settle_auction(&mut a, &mut v, id(KEY), 10000).expect("settles");
    assert_eq!(a.status, AuctionStatus::Failed);
    assert_eq!(r.transfers.len(), 1);
    assert_eq!(r.transfers[0].from, TransferAccount::AssetVault);
    assert_eq!(r.transfers[0].to, TransferAccount::Seller);
    assert_eq!(r.transfers[0].amount, 5);
}

#[test]
fn settle_twice_rejected() {
    let o = fresh_auction();
    let (mut a, mut v) = (o.auction, o.vaults);
    settle_auction(&mut a, &mut v, id(KEY), 10000).expect("settles");
    let r = settle_auction(&mut a, &mut v, id(KEY), 10001);
    assert_eq!(r.err(), Some(AuctionError::AuctionNotActive));
}

#[test]
fn cancel_without_bids_returns_asset() {
    let o = fresh_auction();
    let (mut a, mut v) = (o.auction, o.vaults);
    let r = cancel_auction(&mut a, &mut v, id(KEY), id(1)).expect("cancels");
    assert_eq!(a.status, AuctionStatus::Cancelled);
    assert_eq!(v, Vaults { asset_balance: 0, payment_balance: 0 });
    assert_eq!(r.return_asset.from, TransferAccount::AssetVault);
    assert_eq!(r.return_asset.to, TransferAccount::Seller);
    assert_eq!(r.return_asset.amount, 5);
    assert_eq!(r.event.cancelled_by, id(1));
}

#[test]
fn cancel_with_counted_but_unescrowed_bids_allowed() {
    // bidding activity exists in the counter but no funds are escrowed:
    // cancellation is allowed again, and still never touches the payment vault
    let a0 = Auction {
        seller: id(1),
        asset_mint: id(10),
        payment_mint: id(11),
        asset_amount: 5,
        starting_price: 100,
        reserve_price: 150,
        min_bid_increment: 10,
        current_bid: 0,
        current_bidder: AccountId::zero(),
        start_time: 1000,
        end_time: 10000,
        status: AuctionStatus::Active,
        total_bids: 1,
        created_at: 1000,
        bump: 255,
    };
    let mut a = a0;
    let mut v = Vaults { asset_balance: 5, payment_balance: 0 };
    let r = cancel_auction(&mut a, &mut v, id(KEY), id(1)).expect("cancels");
    assert_eq!(a.status, AuctionStatus::Cancelled);
    assert_eq!(r.return_asset.amount, 5);
    assert_eq!(v, Vaults { asset_balance: 0, payment_balance: 0 });
}

#[test]
fn cancel_by_non_seller_rejected() {
    let o = fresh_auction();
    let (mut a, mut v) = (o.auction, o.vaults);
    let r = cancel_auction(&mut a, &mut v, id(KEY), id(2));
    assert_eq!(r.err(), Some(AuctionError::Unauthorized));
}

#[test]
fn cancel_terminal_auction_rejected() {
    let o = fresh_auction();
    let (mut a, mut v) = (o.auction, o.vaults);
    settle_auction(&mut a, &mut v, id(KEY), 10000).expect("settles");
    let r = cancel_auction(&mut a, &mut v, id(KEY), id(1));
    assert_eq!(r.err(), Some(AuctionError::CannotCancelAuction));
}

#[test]
fn extend_moves_deadline_forward() {
    let o = fresh_auction();
    let mut a = o.auction;
    let r = extend_auction(&mut a, id(KEY), id(1), 20000, 5000).expect("extends");
    assert_eq!(a.end_time, 20000);
    assert_eq!(r, AuctionExtended { auction: id(KEY), new_end_time: 20000 });
}

#[test]
fn extend_by_non_seller_rejected() {
    let o = fresh_auction();
    let mut a = o.auction;
    let r = extend_auction(&mut a, id(KEY), id(2), 20000, 5000);
    assert_eq!(r.err(), Some(AuctionError::Unauthorized));
}

#[test]
fn extend_backwards_rejected() {
    let o = fresh_auction();
    let mut a = o.auction;
    let r = extend_auction(&mut a, id(KEY), id(1), 10000, 5000);
    assert_eq!(r.err(), Some(AuctionError::InvalidEndTime));
    assert_eq!(a.end_time, 10000);
}

#[test]
fn extend_after_end_rejected() {
    let o = fresh_auction();
    let mut a = o.auction;
    let r = extend_auction(&mut a, id(KEY), id(1), 20000, 10000);
    assert_eq!(r.err(), Some(AuctionError::AuctionEnded));
}

#[test]
fn manual_then_automatic_extension_compose() {
    let o = fresh_auction();
    let (mut a, mut v) = (o.auction, o.vaults);
    extend_auction(&mut a, id(KEY), id(1), 20000, 5000).expect("extends");
    let r = place_bid(&mut a, &mut v, id(KEY), id(2), 254, 100, 19900).expect("accepted");
    assert_eq!(a.end_time, 20500);
    assert!(r.extended.is_some());
}

#[test]
fn outbid_bidder_may_cancel_their_bid() {
    let o = fresh_auction();
    let (mut a, mut v) = (o.auction, o.vaults);
    let first = place_bid(&mut a, &mut v, id(KEY), id(2), 254, 100, 2000).expect("accepted");
    place_bid(&mut a, &mut v, id(KEY), id(3), 253, 110, 2100).expect("accepted");
    let mut bid = first.bid;
    let ev = cancel_bid(&mut bid, &a, id(2)).expect("cancels");
    assert_eq!(bid.status, BidStatus::Cancelled);
    assert_eq!(ev.bidder, id(2));
    assert_eq!(ev.amount, 100);
}

#[test]
fn leader_cannot_cancel_their_bid() {
    let o = fresh_auction();
    let (mut a, mut v) = (o.auction, o.vaults);
    let r = place_bid(&mut a, &mut v, id(KEY), id(2), 254, 100, 2000).expect("accepted");
    let mut bid = r.bid;
    let e = cancel_bid(&mut bid, &a, id(2));
    assert_eq!(e.err(), Some(AuctionError::CannotCancelWinningBid));
    assert_eq!(bid.status, BidStatus::Active);
}

#[test]
fn only_the_bidder_may_cancel_their_bid() {
    let o = fresh_auction();
    let (mut a, mut v) = (o.auction, o.vaults);
    let r = place_bid(&mut a, &mut v, id(KEY), id(2), 254, 100, 2000).expect("accepted");
    let mut bid = r.bid;
    let e = cancel_bid(&mut bid, &a, id(3));
    assert_eq!(e.err(), Some(AuctionError::Unauthorized));
}

#[test]
fn cancelled_bid_cannot_be_cancelled_again() {
    let o = fresh_auction();
    let (mut a, mut v) = (o.auction, o.vaults);
    let first = place_bid(&mut a, &mut v, id(KEY), id(2), 254, 100, 2000).expect("accepted");
    place_bid(&mut a, &mut v, id(KEY), id(3), 253, 110, 2100).expect("accepted");
    let mut bid = first.bid;
    cancel_bid(&mut bid, &a, id(2)).expect("cancels");
    let e = cancel_bid(&mut bid, &a, id(2));
    assert_eq!(e.err(), Some(AuctionError::BidNotActive));
}

#[test]
fn leader_may_cancel_bid_on_cancelled_auction() {
    // a cancelled auction whose record still names a leader: only reachable
    // by direct construction, since cancellation requires an empty escrow,
    // but the rule itself is: leaders may cancel once the auction is cancelled
    let a = Auction {
        seller: id(1),
        asset_mint: id(10),
        payment_mint: id(11),
        asset_amount: 5,
        starting_price: 100,
        reserve_price: 150,
        min_bid_increment: 10,
        current_bid: 100,
        current_bidder: id(2),
        start_time: 1000,
        end_time: 10000,
        status: AuctionStatus::Cancelled,
        total_bids: 1,
        created_at: 1000,
        bump: 255,
    };
    let mut bid = Bid {
        auction: id(KEY),
        bidder: id(2),
        amount: 100,
        timestamp: 2000,
        status: BidStatus::Active,
        bump: 254,
    };
    cancel_bid(&mut bid, &a, id(2)).expect("cancels");
    assert_eq!(bid.status, BidStatus::Cancelled);
}

#[test]
fn error_messages_match() {
    assert_eq!(AuctionError::SellerCannotBid.message(), "Seller cannot bid on own auction");
    assert_eq!(AuctionError::HasActiveBids.message(), "Auction has active bids");
    assert_eq!(AuctionError::BidTooLow.message(), "Bid too low");
    assert_eq!(AuctionError::AuctionTooShort.message(), "Auction duration too short");
}
