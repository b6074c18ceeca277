//! Building blocks for a Solana-style ledger: unsigned instructions for
//! native transfers and for the token program, ed25519 key pairs and
//! signatures, the address of an associated token account, and the base-58
//! and base-64 text that carries all of these. Every operation is a pure
//! function of its input, but for the random source behind a new key pair.

pub mod associated;
pub mod base58;
pub mod base64;
pub mod error;
pub mod failure;
pub mod handlers;
pub mod instruction;
pub mod keys;
pub mod models;
pub mod radix;
pub mod signing;
pub mod validate;
