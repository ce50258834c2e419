//! Derived record identities.
//!
//! Auction and bid records are addressed deterministically: a record's
//! identity is a program-derived address computed from stable inputs — the
//! seller, the asset token type and the creation time for an auction; the
//! auction and the bidder for a bid — so identities are reproducible without
//! a central counter. The derivation itself is the ledger runtime's
//! program-address function, reached through one trusted wrapper; everything
//! around it (seed layout, byte encodings) is verified.

use vstd::prelude::*;

verus! {

use crate::account::AccountId;
use vstd::bytes::{spec_u64_to_le_bytes, u64_to_le_bytes};

/// The address and bump that the ledger runtime's program-address derivation
/// yields for a seed list and a program id; `None` in the statistically
/// improbable case that no bump yields a valid address. The result depends
/// on the arguments alone.
pub uninterp spec fn derived_address(seeds: Seq<Seq<u8>>, program_id: Seq<u8>) -> Option<
    (Seq<u8>, u8),
>;

/// Relies on `Pubkey::try_find_program_address` (reached through
/// `anchor_lang`): the derived address and bump are a function of the seed
/// list and the program id alone, and the call returns `None` exactly when
/// the derivation finds no valid bump.
#[verifier::external_body]
fn try_derive_address(seeds: &Vec<Vec<u8>>, program_id: &AccountId) -> (r: Option<(AccountId, u8)>)
    ensures
        ({
            let d = derived_address(seeds@.map_values(|s: Vec<u8>| s@), program_id@);
            match r {
                Some((addr, bump)) => d == Some((addr@, bump)),
                None => d is None,
            }
        }),
{
    let slices: Vec<&[u8]> = seeds.iter().map(|s| s.as_slice()).collect();
    let mut pid_bytes = [0u8; 32];
    pid_bytes.copy_from_slice(&program_id.to_bytes());
    let pid = anchor_lang::solana_program::pubkey::Pubkey::new_from_array(pid_bytes);
    anchor_lang::solana_program::pubkey::Pubkey::try_find_program_address(&slices, &pid).map(
        |(pk, bump)| (AccountId::from_bytes(&pk.to_bytes()), bump),
    )
}

/// The fixed first seed of every auction record: the bytes of "auction".
pub open spec fn auction_seed_tag() -> Seq<u8> {
    seq![97u8, 117u8, 99u8, 116u8, 105u8, 111u8, 110u8]
}

/// The fixed first seed of every bid record: the bytes of "bid".
pub open spec fn bid_seed_tag() -> Seq<u8> {
    seq![98u8, 105u8, 100u8]
}

/// The little-endian two's-complement bytes of a timestamp.
pub open spec fn i64_le_bytes(x: i64) -> Seq<u8> {
    spec_u64_to_le_bytes(x as u64)
}

fn auction_seed_tag_bytes() -> (r: Vec<u8>)
    ensures
        r@ == auction_seed_tag(),
{
    let mut r: Vec<u8> = Vec::new();
    r.push(97);
    r.push(117);
    r.push(99);
    r.push(116);
    r.push(105);
    r.push(111);
    r.push(110);
    proof {
        assert(r@ =~= auction_seed_tag());
    }
    r
}

fn bid_seed_tag_bytes() -> (r: Vec<u8>)
    ensures
        r@ == bid_seed_tag(),
{
    let mut r: Vec<u8> = Vec::new();
    r.push(98);
    r.push(105);
    r.push(100);
    proof {
        assert(r@ =~= bid_seed_tag());
    }
    r
}

fn i64_to_le_bytes(x: i64) -> (r: Vec<u8>)
    ensures
        r@ == i64_le_bytes(x),
{
    let u: u64 = #[verifier::truncate] (x as u64);
    u64_to_le_bytes(u)
}

/// The seed list of an auction record: the fixed tag, the seller, the asset
/// token type, and the creation time.
pub open spec fn auction_seeds(seller: AccountId, asset_mint: AccountId, created_at: i64) -> Seq<
    Seq<u8>,
> {
    seq![auction_seed_tag(), seller@, asset_mint@, i64_le_bytes(created_at)]
}

/// The seed list of a bid record: the fixed tag, the auction, and the
/// bidder.
pub open spec fn bid_seeds(auction: AccountId, bidder: AccountId) -> Seq<Seq<u8>> {
    seq![bid_seed_tag(), auction@, bidder@]
}

/// The derived identity and bump of the auction record created by this
/// seller, for this asset token type, at this time.
pub fn auction_address(
    seller: &AccountId,
    asset_mint: &AccountId,
    created_at: i64,
    program_id: &AccountId,
) -> (r: Option<(AccountId, u8)>)
    ensures
        ({
            let d = derived_address(auction_seeds(*seller, *asset_mint, created_at), program_id@);
            match r {
                Some((addr, bump)) => d == Some((addr@, bump)),
                None => d is None,
            }
        }),
{
    let mut seeds: Vec<Vec<u8>> = Vec::new();
    seeds.push(auction_seed_tag_bytes());
    seeds.push(seller.to_bytes());
    seeds.push(asset_mint.to_bytes());
    seeds.push(i64_to_le_bytes(created_at));
    proof {
        assert(seeds@.map_values(|s: Vec<u8>| s@) =~= auction_seeds(
            *seller,
            *asset_mint,
            created_at,
        ));
    }
    try_derive_address(&seeds, program_id)
}

/// The derived identity and bump of this bidder's bid record on this
/// auction.
pub fn bid_address(auction: &AccountId, bidder: &AccountId, program_id: &AccountId) -> (r: Option<
    (AccountId, u8),
>)
    ensures
        ({
            let d = derived_address(bid_seeds(*auction, *bidder), program_id@);
            match r {
                Some((addr, bump)) => d == Some((addr@, bump)),
                None => d is None,
            }
        }),
{
    let mut seeds: Vec<Vec<u8>> = Vec::new();
    seeds.push(bid_seed_tag_bytes());
    seeds.push(auction.to_bytes());
    seeds.push(bidder.to_bytes());
    proof {
        assert(seeds@.map_values(|s: Vec<u8>| s@) =~= bid_seeds(*auction, *bidder));
    }
    try_derive_address(&seeds, program_id)
}

} // verus!
