//! Proved laws of the auction engine.
//!
//! Each public proof function states one guarantee of the engine over the
//! spec-level transitions (`place_bid_next`, `settle_next`, ...) and intent
//! lists that the executable operations are proved to implement: value
//! conservation between the vaults and the transfer intents, strict growth
//! of the leading bid, the refund discipline that keeps at most one leader
//! escrowed, the anti-snipe deadline rule, and the exclusive terminal split
//! at settlement.

use vstd::prelude::*;

verus! {

use crate::account::AccountId;
use crate::engine::{
    asset_to_seller, asset_to_winner, bid_floor, cancel_auction_check, cancel_next, create_check,
    created_auction, escrow_intent, payment_to_seller, place_bid_check, place_bid_intents,
    place_bid_next, refund_due, refund_intent, settle_check, settle_intents, settle_next,
    settle_success,
};
use crate::state::{auction_inv, Auction, AuctionStatus, Vaults, EXTENSION_THRESHOLD};
use crate::transfers::{
    asset_vault_delta, debits_from, moved_to, net_moved, payment_vault_delta, TransferAccount,
    TransferIntent,
};

// ---------------------------------------------------------------------------
// Sums of short intent lists
// ---------------------------------------------------------------------------

proof fn lemma_net_moved_singleton(t: TransferIntent, acct: TransferAccount)
    ensures
        net_moved(seq![t], acct) == moved_to(t, acct),
        debits_from(seq![t], acct) == (if t.from == acct {
            1int
        } else {
            0int
        }),
{
    assert(seq![t].drop_first() =~= Seq::<TransferIntent>::empty());
    assert(net_moved(Seq::<TransferIntent>::empty(), acct) == 0);
    assert(debits_from(Seq::<TransferIntent>::empty(), acct) == 0);
}

proof fn lemma_net_moved_concat(s1: Seq<TransferIntent>, s2: Seq<TransferIntent>, acct: TransferAccount)
    ensures
        net_moved(s1 + s2, acct) == net_moved(s1, acct) + net_moved(s2, acct),
    decreases s1.len(),
{
    if s1.len() == 0 {
        assert(s1 + s2 =~= s2);
    } else {
        assert((s1 + s2).drop_first() =~= s1.drop_first() + s2);
        lemma_net_moved_concat(s1.drop_first(), s2, acct);
    }
}

proof fn lemma_net_moved_pair(t0: TransferIntent, t1: TransferIntent, acct: TransferAccount)
    ensures
        net_moved(seq![t0, t1], acct) == moved_to(t0, acct) + moved_to(t1, acct),
        debits_from(seq![t0, t1], acct) == (if t0.from == acct {
            1int
        } else {
            0int
        }) + (if t1.from == acct {
            1int
        } else {
            0int
        }),
{
    assert(seq![t0, t1].drop_first() =~= seq![t1]);
    lemma_net_moved_singleton(t1, acct);
}

// ---------------------------------------------------------------------------
// Value conservation
// ---------------------------------------------------------------------------

/// Law: creation puts exactly the lot into custody. The one transfer of a
/// successful creation credits the asset vault with the full asset quantity
/// and touches no payment, and the resulting record satisfies the custody
/// invariant against exactly those balances.
pub proof fn lemma_creation_conserves_value(
    seller: AccountId,
    asset_mint: AccountId,
    payment_mint: AccountId,
    asset_amount: u64,
    starting_price: u64,
    reserve_price: u64,
    min_bid_increment: u64,
    start_time: i64,
    end_time: i64,
    now: i64,
    bump: u8,
)
    requires
        !seller.is_zero(),
        create_check(
            asset_amount,
            starting_price,
            reserve_price,
            min_bid_increment,
            start_time,
            end_time,
            now,
        ) is Ok,
    ensures
        ({
            let a = created_auction(
                seller,
                asset_mint,
                payment_mint,
                asset_amount,
                starting_price,
                reserve_price,
                min_bid_increment,
                start_time,
                end_time,
                now,
                bump,
            );
            let ts = seq![
                TransferIntent {
                    from: TransferAccount::Seller,
                    to: TransferAccount::AssetVault,
                    mint: asset_mint,
                    amount: asset_amount,
                },
            ];
            &&& asset_vault_delta(ts) == asset_amount
            &&& payment_vault_delta(ts) == 0
            &&& auction_inv(
                a,
                Vaults { asset_balance: asset_amount, payment_balance: 0 },
            )
        }),
{
    let t = TransferIntent {
        from: TransferAccount::Seller,
        to: TransferAccount::AssetVault,
        mint: asset_mint,
        amount: asset_amount,
    };
    lemma_net_moved_singleton(t, TransferAccount::AssetVault);
    lemma_net_moved_singleton(t, TransferAccount::PaymentVault);
}

/// Law: an accepted placement conserves value. Its transfers leave the asset
/// vault untouched and change the payment vault by exactly the new bid minus
/// the refunded old one, so the vault again holds exactly the leading bid
/// and the custody invariant survives.
pub proof fn lemma_placement_conserves_value(
    a: Auction,
    v: Vaults,
    bidder: AccountId,
    amount: u64,
    now: i64,
)
    requires
        auction_inv(a, v),
        !bidder.is_zero(),
        place_bid_check(a, bidder, amount, now) is Ok,
        a.total_bids < u64::MAX,
        a.end_time - now < EXTENSION_THRESHOLD ==> now + EXTENSION_THRESHOLD <= i64::MAX,
    ensures
        ({
            let a2 = place_bid_next(a, bidder, amount, now);
            let ts = place_bid_intents(a, bidder, amount);
            &&& asset_vault_delta(ts) == 0
            &&& v.payment_balance + payment_vault_delta(ts) == amount
            &&& auction_inv(
                a2,
                Vaults { asset_balance: v.asset_balance, payment_balance: amount },
            )
        }),
{
    lemma_placement_preserves_wf(a, bidder, amount, now);
    let esc = escrow_intent(a, bidder, amount);
    if refund_due(a) {
        lemma_net_moved_pair(refund_intent(a), esc, TransferAccount::AssetVault);
        lemma_net_moved_pair(refund_intent(a), esc, TransferAccount::PaymentVault);
    } else {
        lemma_net_moved_singleton(esc, TransferAccount::AssetVault);
        lemma_net_moved_singleton(esc, TransferAccount::PaymentVault);
    }
}

/// Law: settlement empties both vaults exactly. Whatever path is taken, the
/// transfers remove precisely the custodied asset quantity and precisely the
/// escrowed payment, and the terminal record is consistent with two empty
/// vaults.
pub proof fn lemma_settlement_conserves_value(a: Auction, v: Vaults, now: i64)
    requires
        auction_inv(a, v),
        settle_check(a, now) is Ok,
    ensures
        ({
            let ts = settle_intents(a);
            &&& v.asset_balance + asset_vault_delta(ts) == 0
            &&& v.payment_balance + payment_vault_delta(ts) == 0
            &&& auction_inv(settle_next(a), Vaults { asset_balance: 0, payment_balance: 0 })
        }),
{
    if settle_success(a) {
        lemma_net_moved_pair(asset_to_winner(a), payment_to_seller(a), TransferAccount::AssetVault);
        lemma_net_moved_pair(
            asset_to_winner(a),
            payment_to_seller(a),
            TransferAccount::PaymentVault,
        );
    } else if refund_due(a) {
        lemma_net_moved_pair(asset_to_seller(a), refund_intent(a), TransferAccount::AssetVault);
        lemma_net_moved_pair(asset_to_seller(a), refund_intent(a), TransferAccount::PaymentVault);
    } else {
        lemma_net_moved_singleton(asset_to_seller(a), TransferAccount::AssetVault);
        lemma_net_moved_singleton(asset_to_seller(a), TransferAccount::PaymentVault);
    }
}

/// Law: cancellation returns exactly the lot and touches no payment. Its one
/// transfer removes the full custodied asset quantity; the payment vault is
/// already empty, because cancellation is only allowed while no bid's funds
/// are escrowed.
pub proof fn lemma_cancellation_conserves_value(a: Auction, v: Vaults, authority: AccountId)
    requires
        auction_inv(a, v),
        cancel_auction_check(a, authority) is Ok,
    ensures
        v.payment_balance == 0,
        v.asset_balance + asset_vault_delta(seq![asset_to_seller(a)]) == 0,
        payment_vault_delta(seq![asset_to_seller(a)]) == 0,
        auction_inv(cancel_next(a), Vaults { asset_balance: 0, payment_balance: 0 }),
{
    lemma_net_moved_singleton(asset_to_seller(a), TransferAccount::AssetVault);
    lemma_net_moved_singleton(asset_to_seller(a), TransferAccount::PaymentVault);
}

// ---------------------------------------------------------------------------
// Monotonic increment
// ---------------------------------------------------------------------------

/// Law: every accepted placement strictly raises the leading bid. A first
/// bid reaches at least the starting price; a later one exceeds the previous
/// leading bid by at least the minimum increment.
pub proof fn lemma_placement_raises_bid(a: Auction, bidder: AccountId, amount: u64, now: i64)
    requires
        a.wf(),
        place_bid_check(a, bidder, amount, now) is Ok,
    ensures
        place_bid_next(a, bidder, amount, now).current_bid == amount,
        a.current_bid == 0 ==> amount >= a.starting_price,
        a.current_bid > 0 ==> amount >= a.current_bid + a.min_bid_increment,
        amount > a.current_bid,
{
    assert(amount >= bid_floor(a));
}

// ---------------------------------------------------------------------------
// At most one leader
// ---------------------------------------------------------------------------

/// An accepted placement keeps the record well-formed. The two arithmetic
/// bounds keep the extended deadline and the bid counter representable.
pub proof fn lemma_placement_preserves_wf(a: Auction, bidder: AccountId, amount: u64, now: i64)
    requires
        a.wf(),
        !bidder.is_zero(),
        place_bid_check(a, bidder, amount, now) is Ok,
        a.total_bids < u64::MAX,
        a.end_time - now < EXTENSION_THRESHOLD ==> now + EXTENSION_THRESHOLD <= i64::MAX,
    ensures
        place_bid_next(a, bidder, amount, now).wf(),
{
    assert(amount >= bid_floor(a));
}

/// Law: an accepted placement refunds the escrowed leader exactly once, and
/// refunds nobody when no leader was escrowed. The refund, when due, is the
/// first transfer, returns exactly the escrowed amount to exactly the
/// previous leader, and is the only transfer drawing on the payment vault.
pub proof fn lemma_placement_refunds_leader_exactly_once(
    a: Auction,
    bidder: AccountId,
    amount: u64,
)
    requires
        a.wf(),
    ensures
        refund_due(a) <==> a.current_bid > 0,
        ({
            let ts = place_bid_intents(a, bidder, amount);
            &&& refund_due(a) ==> {
                &&& ts.len() == 2
                &&& ts[0] == refund_intent(a)
                &&& ts[0].from == TransferAccount::PaymentVault
                &&& ts[0].to == TransferAccount::Bidder(a.current_bidder)
                &&& ts[0].amount == a.current_bid
                &&& debits_from(ts, TransferAccount::PaymentVault) == 1
            }
            &&& !refund_due(a) ==> {
                &&& ts.len() == 1
                &&& debits_from(ts, TransferAccount::PaymentVault) == 0
            }
        }),
{
    let esc = escrow_intent(a, bidder, amount);
    if refund_due(a) {
        lemma_net_moved_pair(refund_intent(a), esc, TransferAccount::PaymentVault);
    } else {
        lemma_net_moved_singleton(esc, TransferAccount::PaymentVault);
    }
}

/// One accepted placement, as seen by the sequence laws below.
pub struct Placement {
    /// Who bid.
    pub bidder: AccountId,
    /// How much.
    pub amount: u64,
    /// The externally supplied time of the placement.
    pub now: i64,
}

/// Whether every placement in the list, applied in order, is accepted (and
/// stays within the machine bounds of the placement operation).
pub open spec fn placements_accepted(a: Auction, ps: Seq<Placement>) -> bool
    decreases ps.len(),
{
    ps.len() == 0 || {
        let p = ps.first();
        &&& !p.bidder.is_zero()
        &&& place_bid_check(a, p.bidder, p.amount, p.now) is Ok
        &&& a.total_bids < u64::MAX
        &&& (a.end_time - p.now < EXTENSION_THRESHOLD ==> p.now + EXTENSION_THRESHOLD
            <= i64::MAX)
        &&& placements_accepted(place_bid_next(a, p.bidder, p.amount, p.now), ps.drop_first())
    }
}

/// The record after the whole list of placements.
pub open spec fn after_placements(a: Auction, ps: Seq<Placement>) -> Auction
    decreases ps.len(),
{
    if ps.len() == 0 {
        a
    } else {
        let p = ps.first();
        after_placements(place_bid_next(a, p.bidder, p.amount, p.now), ps.drop_first())
    }
}

/// Law: after any sequence of accepted placements there is at most one
/// leader, and it is the most recent one: the record carries exactly the
/// last placement's bidder and amount, and stays well-formed — so, by the
/// custody invariant, only that one bid is escrowed; every earlier leader
/// was refunded by the placement that displaced it
/// (`lemma_placement_refunds_leader_exactly_once`).
pub proof fn lemma_leader_is_last_accepted(a: Auction, ps: Seq<Placement>)
    requires
        a.wf(),
        placements_accepted(a, ps),
    ensures
        after_placements(a, ps).wf(),
        ps.len() > 0 ==> after_placements(a, ps).current_bidder == ps.last().bidder,
        ps.len() > 0 ==> after_placements(a, ps).current_bid == ps.last().amount,
    decreases ps.len(),
{
    if ps.len() > 0 {
        let p = ps.first();
        let a1 = place_bid_next(a, p.bidder, p.amount, p.now);
        lemma_placement_preserves_wf(a, p.bidder, p.amount, p.now);
        lemma_leader_is_last_accepted(a1, ps.drop_first());
        if ps.len() == 1 {
            assert(after_placements(a1, ps.drop_first()) == a1);
        } else {
            assert(ps.drop_first().last() == ps.last());
        }
    }
}

/// All the transfers of a list of placements, in order.
pub open spec fn placement_intents(a: Auction, ps: Seq<Placement>) -> Seq<TransferIntent>
    decreases ps.len(),
{
    if ps.len() == 0 {
        Seq::empty()
    } else {
        let p = ps.first();
        place_bid_intents(a, p.bidder, p.amount) + placement_intents(
            place_bid_next(a, p.bidder, p.amount, p.now),
            ps.drop_first(),
        )
    }
}

/// Law: any sequence of accepted placements conserves value. Taken together,
/// their transfers never touch the asset vault, and they change the payment
/// vault by exactly the difference between the final and the initial leading
/// bid — every intermediate escrow is matched by its refund.
pub proof fn lemma_placements_conserve_value(a: Auction, ps: Seq<Placement>)
    requires
        a.wf(),
        placements_accepted(a, ps),
    ensures
        ({
            let ts = placement_intents(a, ps);
            &&& asset_vault_delta(ts) == 0
            &&& a.current_bid + payment_vault_delta(ts) == after_placements(a, ps).current_bid
        }),
    decreases ps.len(),
{
    if ps.len() == 0 {
        assert(placement_intents(a, ps) =~= Seq::<TransferIntent>::empty());
    } else {
        let p = ps.first();
        let a1 = place_bid_next(a, p.bidder, p.amount, p.now);
        let ts0 = place_bid_intents(a, p.bidder, p.amount);
        let rest = placement_intents(a1, ps.drop_first());
        lemma_placement_preserves_wf(a, p.bidder, p.amount, p.now);
        let esc = escrow_intent(a, p.bidder, p.amount);
        if refund_due(a) {
            lemma_net_moved_pair(refund_intent(a), esc, TransferAccount::AssetVault);
            lemma_net_moved_pair(refund_intent(a), esc, TransferAccount::PaymentVault);
        } else {
            lemma_net_moved_singleton(esc, TransferAccount::AssetVault);
            lemma_net_moved_singleton(esc, TransferAccount::PaymentVault);
        }
        lemma_placements_conserve_value(a1, ps.drop_first());
        lemma_net_moved_concat(ts0, rest, TransferAccount::AssetVault);
        lemma_net_moved_concat(ts0, rest, TransferAccount::PaymentVault);
    }
}

// ---------------------------------------------------------------------------
// Anti-snipe
// ---------------------------------------------------------------------------

/// Law: a bid accepted within the threshold of the deadline always moves the
/// deadline to exactly the threshold past now; a bid with more margin never
/// moves it. Either way the deadline never moves backwards.
pub proof fn lemma_anti_snipe(a: Auction, bidder: AccountId, amount: u64, now: i64)
    requires
        place_bid_check(a, bidder, amount, now) is Ok,
        a.end_time - now < EXTENSION_THRESHOLD ==> now + EXTENSION_THRESHOLD <= i64::MAX,
    ensures
        ({
            let a2 = place_bid_next(a, bidder, amount, now);
            &&& a.end_time - now < EXTENSION_THRESHOLD ==> a2.end_time == now
                + EXTENSION_THRESHOLD
            &&& a.end_time - now >= EXTENSION_THRESHOLD ==> a2.end_time == a.end_time
            &&& a2.end_time >= a.end_time
        }),
{
}

// ---------------------------------------------------------------------------
// Terminal exclusivity
// ---------------------------------------------------------------------------

/// Law: settlement resolves into exactly one of the two terminal outcomes.
/// When the reserve is met and a leader exists, the asset goes to that
/// leader and the payment to the seller, and the record is `Settled`;
/// otherwise the asset returns to the seller, the leader (if any) is
/// refunded, and the record is `Failed`. After either outcome both vaults
/// are empty.
pub proof fn lemma_terminal_exclusivity(a: Auction, v: Vaults, now: i64)
    requires
        auction_inv(a, v),
        settle_check(a, now) is Ok,
    ensures
        ({
            let a2 = settle_next(a);
            let ts = settle_intents(a);
            &&& settle_success(a) ==> a2.status == AuctionStatus::Settled && ts == seq![
                asset_to_winner(a),
                payment_to_seller(a),
            ]
            &&& !settle_success(a) && refund_due(a) ==> a2.status == AuctionStatus::Failed && ts
                == seq![asset_to_seller(a), refund_intent(a)]
            &&& !settle_success(a) && !refund_due(a) ==> a2.status == AuctionStatus::Failed && ts
                == seq![asset_to_seller(a)]
            &&& v.asset_balance + asset_vault_delta(ts) == 0
            &&& v.payment_balance + payment_vault_delta(ts) == 0
        }),
{
    lemma_settlement_conserves_value(a, v, now);
}

} // verus!
