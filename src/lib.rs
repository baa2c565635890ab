//! A proof-of-work ledger: hash-linked blocks, a pending-transaction buffer,
//! and a RandomX nonce search against a difficulty-derived target.

pub mod block;
pub mod ledger;
pub mod node;
pub mod pow;
