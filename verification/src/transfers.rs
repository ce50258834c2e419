//! Transfer intents.
//!
//! The engine never moves tokens itself: each operation returns the ordered
//! list of transfers that the external value-transfer service must perform,
//! all of them before the operation's state changes are kept. If the service
//! rejects any transfer the whole operation is abandoned. The spec functions
//! here sum what a list of intents moves in and out of each vault, so that
//! contracts can tie the intents to the vault balances exactly.

use vstd::prelude::*;

verus! {

use crate::account::AccountId;

/// A token account that an auction's transfers can touch.
#[derive(Clone, Copy, PartialEq, Eq, Structural, Hash, Debug)]
pub enum TransferAccount {
    /// The seller's own account for the token being moved.
    Seller,
    /// A bidder's own payment or asset account.
    Bidder(AccountId),
    /// The vault custodying the asset on sale.
    AssetVault,
    /// The vault custodying the leading bid's payment.
    PaymentVault,
}

/// One token movement the external value-transfer service must perform.
#[derive(Clone, Copy, PartialEq, Eq, Structural, Hash, Debug)]
pub struct TransferIntent {
    /// Debited account.
    pub from: TransferAccount,
    /// Credited account.
    pub to: TransferAccount,
    /// Token type moved; the service rejects a mismatched account.
    pub mint: AccountId,
    /// Amount moved, all or nothing.
    pub amount: u64,
}

/// What one intent adds to the given account's balance (negative when it
/// debits it).
pub open spec fn moved_to(t: TransferIntent, acct: TransferAccount) -> int {
    (if t.to == acct {
        t.amount as int
    } else {
        0
    }) - (if t.from == acct {
        t.amount as int
    } else {
        0
    })
}

/// Net change of the given account's balance under a list of intents.
pub open spec fn net_moved(ts: Seq<TransferIntent>, acct: TransferAccount) -> int
    decreases ts.len(),
{
    if ts.len() == 0 {
        0
    } else {
        moved_to(ts.first(), acct) + net_moved(ts.drop_first(), acct)
    }
}

/// Net change of the asset vault's balance.
pub open spec fn asset_vault_delta(ts: Seq<TransferIntent>) -> int {
    net_moved(ts, TransferAccount::AssetVault)
}

/// Net change of the payment vault's balance.
pub open spec fn payment_vault_delta(ts: Seq<TransferIntent>) -> int {
    net_moved(ts, TransferAccount::PaymentVault)
}

/// How many of the intents debit the given account.
pub open spec fn debits_from(ts: Seq<TransferIntent>, acct: TransferAccount) -> int
    decreases ts.len(),
{
    if ts.len() == 0 {
        0int
    } else {
        (if ts.first().from == acct {
            1int
        } else {
            0int
        }) + debits_from(ts.drop_first(), acct)
    }
}

} // verus!
