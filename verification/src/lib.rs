//! An English-auction settlement engine for tokenized assets.
//!
//! One `Auction` record governs the competitive sale of a fixed asset
//! quantity. The record owns a pair of custody vaults: one holds the asset
//! being sold, the other the currently leading bid's payment. Bid placement,
//! settlement, cancellation and deadline extension are pure state
//! transitions: each operation validates its inputs, updates the record and
//! the vault balances, and returns the exact list of token transfers that an
//! external value-transfer service must perform, together with the
//! notifications the operation emits. Value conservation, the anti-snipe
//! rule and the terminal settlement split are stated as contracts and proved.

pub mod account;
pub mod errors;
pub mod state;
pub mod transfers;
pub mod events;
pub mod engine;
pub mod laws;
pub mod address;
