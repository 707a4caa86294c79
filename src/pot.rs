//! Proof of time: a sequential chain of iterated AES, checked in parallel lanes.

pub mod aes_ni;
