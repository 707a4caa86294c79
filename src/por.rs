//! Proof of replication: a CBC-style chain of iterated AES over a piece.

pub mod aes_ni;
pub mod chain;
