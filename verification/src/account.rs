//! Account identities.
//!
//! Every participant and token type is named by a 32-byte account identity,
//! stored as four 64-bit words. The all-zero identity is reserved: an auction
//! whose leading bidder is the zero identity has no leader.

use vstd::prelude::*;

verus! {

use vstd::bytes::spec_u64_to_le_bytes;
use vstd::bytes::{u64_to_le_bytes, u64_from_le_bytes};
use vstd::bytes::lemma_auto_spec_u64_to_from_le_bytes;
use vstd::slice::slice_subrange;

/// A 32-byte account identity, as four little-endian 64-bit words.
#[derive(Clone, Copy, PartialEq, Eq, Structural, Hash, Debug)]
pub struct AccountId {
    pub w0: u64,
    pub w1: u64,
    pub w2: u64,
    pub w3: u64,
}

impl View for AccountId {
    type V = Seq<u8>;

    /// The 32 bytes of the identity, little-endian word by word.
    open spec fn view(&self) -> Seq<u8> {
        spec_u64_to_le_bytes(self.w0) + spec_u64_to_le_bytes(self.w1)
            + spec_u64_to_le_bytes(self.w2) + spec_u64_to_le_bytes(self.w3)
    }
}

/// The reserved all-zero identity, which stands for "no account".
pub open spec fn zero_id() -> AccountId {
    AccountId { w0: 0, w1: 0, w2: 0, w3: 0 }
}

impl AccountId {
    /// Whether this is the reserved all-zero identity.
    pub open spec fn is_zero(self) -> bool {
        self == zero_id()
    }

    /// The all-zero identity.
    pub fn zero() -> (r: AccountId)
        ensures
            r == zero_id(),
    {
        AccountId { w0: 0, w1: 0, w2: 0, w3: 0 }
    }

    /// Whether this is the reserved all-zero identity.
    pub fn is_zero_account(&self) -> (r: bool)
        ensures
            r == self.is_zero(),
    {
        self.w0 == 0 && self.w1 == 0 && self.w2 == 0 && self.w3 == 0
    }

    /// The 32 bytes of the identity.
    pub fn to_bytes(&self) -> (r: Vec<u8>)
        ensures
            r@ == self@,
    {
        proof {
            lemma_auto_spec_u64_to_from_le_bytes();
        }
        let mut r = u64_to_le_bytes(self.w0);
        let mut b1 = u64_to_le_bytes(self.w1);
        let mut b2 = u64_to_le_bytes(self.w2);
        let mut b3 = u64_to_le_bytes(self.w3);
        r.append(&mut b1);
        r.append(&mut b2);
        r.append(&mut b3);
        r
    }

    /// The identity whose 32 bytes are the given ones.
    pub fn from_bytes(b: &[u8]) -> (r: AccountId)
        requires
            b@.len() == 32,
        ensures
            r@ == b@,
    {
        proof {
            lemma_auto_spec_u64_to_from_le_bytes();
        }
        let r = AccountId {
            w0: u64_from_le_bytes(slice_subrange(b, 0, 8)),
            w1: u64_from_le_bytes(slice_subrange(b, 8, 16)),
            w2: u64_from_le_bytes(slice_subrange(b, 16, 24)),
            w3: u64_from_le_bytes(slice_subrange(b, 24, 32)),
        };
        proof {
            assert(r@ =~= b@);
        }
        r
    }
}

} // verus!
