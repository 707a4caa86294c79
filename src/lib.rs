//! Proof of replication and proof of time built on iterated AES-128.

use vstd::prelude::*;

pub mod aes_low_level;
pub mod por;
pub mod pot;
pub mod utils;

verus! {

/// Width of an AES block in bytes.
pub const BLOCK_SIZE: usize = 16;

/// Size of a piece in bytes: a multiple of four blocks.
pub const PIECE_SIZE: usize = 4096;

/// Number of blocks in a piece.
pub const PIECE_BLOCKS: usize = 256;

/// One 128-bit AES block.
pub type Block = [u8; BLOCK_SIZE];

/// A piece of data that the replication codec transforms in place.
pub type Piece = [u8; PIECE_SIZE];

} // verus!
