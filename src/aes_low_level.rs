//! The AES-128 block engine: key schedule, round functions and four-lane pipelines.

pub mod aes_ni;
pub mod sbox;
pub mod inverse;
