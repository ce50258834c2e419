//! End-to-end auction runs: one full failed auction, one full successful
//! auction, a blocked cancellation, and a seller trying to bid.

use auction::account::AccountId;
use auction::engine::{cancel_auction, create_auction, place_bid, settle_auction, SettleEvent};
use auction::errors::AuctionError;
use auction::state::{AuctionStatus, Vaults};
use auction::transfers::TransferAccount;

fn id(n: u64) -> AccountId {
    AccountId { w0: n, w1: 0, w2: 0, w3: 0 }
}

const KEY: u64 = 99;
const SELLER: u64 = 1;
const BIDDER1: u64 = 2;
const BIDDER2: u64 = 3;

#[test]
fn reserve_not_met_fails_and_refunds() {
    let o = create_auction(
        id(KEY), 255, id(SELLER), id(10), id(11), 5, 100, 150, 10, 1000, 10000, 1000,
    )
    .expect("created");
    let (mut a, mut v) = (o.auction, o.vaults);

    // bid 100: accepted, bidder1 leads at 100
    place_bid(&mut a, &mut v, id(KEY), id(BIDDER1), 254, 100, 2000).expect("accepted");
    assert_eq!(a.current_bidder, id(BIDDER1));
    assert_eq!(a.current_bid, 100);

    // bid 105: rejected, below 100 + 10
    let r = place_bid(&mut a, &mut v, id(KEY), id(BIDDER2), 253, 105, 2100);
    assert_eq!(r.err(), Some(AuctionError::BidTooLow));
    assert_eq!(a.current_bidder, id(BIDDER1));

    // bid 110: accepted, bidder1 refunded 100, bidder2 leads at 110
    let r = place_bid(&mut a, &mut v, id(KEY), id(BIDDER2), 253, 110, 2200).expect("accepted");
    let refunded = r.refunded.expect("bidder1 refunded");
    assert_eq!(refunded.bidder, id(BIDDER1));
    assert_eq!(refunded.amount, 100);
    assert_eq!(a.current_bidder, id(BIDDER2));
    assert_eq!(a.current_bid, 110);

    // settle after end: 110 < reserve 150, so the auction fails,
    // the asset returns to the seller and 110 returns to bidder2
    let r = settle_auction(&mut a, &mut v, id(KEY), 10000).expect("settled");
    assert_eq!(a.status, AuctionStatus::Failed);
    assert_eq!(r.transfers.len(), 2);
    assert_eq!(r.transfers[0].from, TransferAccount::AssetVault);
    assert_eq!(r.transfers[0].to, TransferAccount::Seller);
    assert_eq!(r.transfers[0].amount, 5);
    assert_eq!(r.transfers[1].from, TransferAccount::PaymentVault);
    assert_eq!(r.transfers[1].to, TransferAccount::Bidder(id(BIDDER2)));
    assert_eq!(r.transfers[1].amount, 110);
    assert_eq!(v, Vaults { asset_balance: 0, payment_balance: 0 });
}

#[test]
fn reserve_met_settles_to_winner() {
    let o = create_auction(
        id(KEY), 255, id(SELLER), id(10), id(11), 5, 100, 150, 10, 1000, 10000, 1000,
    )
    .expect("created");
    let (mut a, mut v) = (o.auction, o.vaults);

    place_bid(&mut a, &mut v, id(KEY), id(BIDDER1), 254, 100, 2000).expect("accepted");
    let r = place_bid(&mut a, &mut v, id(KEY), id(BIDDER2), 253, 160, 2200).expect("accepted");
    assert_eq!(r.refunded.expect("bidder1 refunded").amount, 100);

    // 160 >= reserve 150: settled, asset to bidder2, 160 to the seller
    let r = settle_auction(&mut a, &mut v, id(KEY), 10000).expect("settled");
    assert_eq!(a.status, AuctionStatus::Settled);
    assert_eq!(r.transfers.len(), 2);
    assert_eq!(r.transfers[0].from, TransferAccount::AssetVault);
    assert_eq!(r.transfers[0].to, TransferAccount::Bidder(id(BIDDER2)));
    assert_eq!(r.transfers[0].amount, 5);
    assert_eq!(r.transfers[1].from, TransferAccount::PaymentVault);
    assert_eq!(r.transfers[1].to, TransferAccount::Seller);
    assert_eq!(r.transfers[1].amount, 160);
    match r.event {
        SettleEvent::Settled(e) => {
            assert_eq!(e.winner, id(BIDDER2));
            assert_eq!(e.winning_bid, 160);
            assert_eq!(e.seller, id(SELLER));
        }
        SettleEvent::Failed(_) => panic!("reserve was met"),
    }
    assert_eq!(v, Vaults { asset_balance: 0, payment_balance: 0 });
}

#[test]
fn cancellation_blocked_while_funds_escrowed() {
    let o = create_auction(
        id(KEY), 255, id(SELLER), id(10), id(11), 5, 100, 150, 10, 1000, 10000, 1000,
    )
    .expect("created");
    let (mut a, mut v) = (o.auction, o.vaults);

    place_bid(&mut a, &mut v, id(KEY), id(BIDDER2), 253, 110, 2000).expect("accepted");
    assert_eq!(a.total_bids, 1);
    assert_eq!(a.current_bid, 110);

    let r = cancel_auction(&mut a, &mut v, id(KEY), id(SELLER));
    assert_eq!(r.err(), Some(AuctionError::HasActiveBids));
    assert_eq!(a.status, AuctionStatus::Active);
    assert_eq!(v.payment_balance, 110);
}

#[test]
fn seller_bid_rejected_regardless_of_amount() {
    let o = create_auction(
        id(KEY), 255, id(SELLER), id(10), id(11), 5, 100, 150, 10, 1000, 10000, 1000,
    )
    .expect("created");
    let (mut a, mut v) = (o.auction, o.vaults);

    let r = place_bid(&mut a, &mut v, id(KEY), id(SELLER), 254, 1_000_000, 2000);
    assert_eq!(r.err(), Some(AuctionError::SellerCannotBid));
    assert_eq!(AuctionError::SellerCannotBid.message(), "Seller cannot bid on own auction");
    let r = place_bid(&mut a, &mut v, id(KEY), id(SELLER), 254, 100, 2000);
    assert_eq!(r.err(), Some(AuctionError::SellerCannotBid));
    assert_eq!(a.total_bids, 0);
}
