//! The replication codec over the four-lane AES engine.

use vstd::prelude::*;

use crate::aes_low_level::aes_ni::{
    self, aes_decrypt_n, xor_block, expand_enc, inverse_schedule, keys_view, por_decode_pipelined_x4_low_level,
    por_encode_pipelined_x4_low_level, ExpandedKeys,
};
use crate::por::chain::{
    block_at, chain_block, chain_decode, chain_encode, flatten, lemma_div16, lemma_flatten_blocks,
    piece_blocks, por_decode, por_encode, unchain_block,
};
use crate::{Block, Piece, PIECE_BLOCKS};

verus! {

/// Forward and equivalent-inverse round keys derived from one identity.
pub struct AesNiKeys {
    keys_enc: ExpandedKeys,
    keys_dec: ExpandedKeys,
}

impl AesNiKeys {
    /// The forward schedule.
    pub closed spec fn enc_schedule(&self) -> Seq<Seq<u8>> {
        keys_view(self.keys_enc)
    }

    /// The decryption schedule.
    pub closed spec fn dec_schedule(&self) -> Seq<Seq<u8>> {
        keys_view(self.keys_dec)
    }

    /// Expands the identity into both schedules.
    pub fn new(id: &Block) -> (r: Self)
        ensures
            r.enc_schedule() == expand_enc(id@),
            r.dec_schedule() == inverse_schedule(expand_enc(id@)),
    {
        let (keys_enc, keys_dec) = aes_ni::expand(id);
        Self { keys_enc, keys_dec }
    }
}

/// The replication codec.
pub struct AesNi;

impl AesNi {
    /// Creates the codec; it holds no state.
    pub fn new() -> Self {
        AesNi
    }

    /// Pipelined proof of replication encoding: each of the four pieces is encoded
    /// with its own IV, `breadth_iterations` passes of `aes_iterations` each.
    pub fn encode(
        &self,
        pieces: &mut [Piece; 4],
        keys: &AesNiKeys,
        ivs: [Block; 4],
        aes_iterations: usize,
        breadth_iterations: usize,
    )
        ensures
            forall|l: int|
                0 <= l < 4 ==> #[trigger] final(pieces)[l]@ == flatten(
                    por_encode(
                        keys.enc_schedule(),
                        piece_blocks(old(pieces)[l]@),
                        ivs[l]@,
                        aes_iterations as nat,
                        breadth_iterations as nat,
                    ),
                ),
    {
        let ghost start = *pieces;
        let ghost kv = keys.enc_schedule();
        let mut feed = ivs;
        for k in 0..breadth_iterations
            invariant
                kv == keys.enc_schedule(),
                forall|l: int|
                    0 <= l < 4 ==> #[trigger] piece_blocks(pieces[l]@) == por_encode(
                        kv,
                        piece_blocks(start[l]@),
                        ivs[l]@,
                        aes_iterations as nat,
                        k as nat,
                    ),
                k == 0 ==> feed == ivs,
                k > 0 ==> forall|l: int|
                    0 <= l < 4 ==> #[trigger] feed[l]@ == piece_blocks(pieces[l]@).last(),
        {
            feed = encode_internal(pieces, &keys.keys_enc, feed, aes_iterations);
        }
        assert forall|l: int| 0 <= l < 4 implies #[trigger] pieces[l]@ == flatten(
            por_encode(
                kv,
                piece_blocks(start[l]@),
                ivs[l]@,
                aes_iterations as nat,
                breadth_iterations as nat,
            ),
        ) by {
            lemma_flatten_blocks(pieces[l]@);
        }
    }

    /// Pipelined proof of replication decoding of one piece.
    pub fn decode(
        &self,
        piece: &mut Piece,
        keys: &AesNiKeys,
        iv: &Block,
        aes_iterations: usize,
        breadth_iterations: usize,
    )
        ensures
            final(piece)@ == flatten(
                por_decode(
                    keys.dec_schedule(),
                    piece_blocks(old(piece)@),
                    iv@,
                    aes_iterations as nat,
                    breadth_iterations as nat,
                ),
            ),
    {
        let ghost kv = keys.dec_schedule();
        let ghost start = *piece;
        let mut k: usize = breadth_iterations;
        while k > 1
            invariant
                kv == keys.dec_schedule(),
                por_decode(kv, piece_blocks(start@), iv@, aes_iterations as nat, breadth_iterations as nat)
                    == por_decode(kv, piece_blocks(piece@), iv@, aes_iterations as nat, k as nat),
            decreases k,
        {
            decode_internal(piece, &keys.keys_dec, None, aes_iterations);
            k = k - 1;
        }
        decode_internal(piece, &keys.keys_dec, Some(iv), aes_iterations);
        proof {
            lemma_flatten_blocks(piece@);
        }
    }
}

/// The first `j` blocks of `p` hold the chain's first `j` ciphertext blocks; the
/// rest still hold `orig`.
pub open spec fn encoded_prefix(p: Seq<u8>, orig: Seq<u8>, keys: Seq<Seq<u8>>, iv: Seq<u8>, n: nat, j: int) -> bool {
    &&& p.len() == orig.len()
    &&& forall|i: int| 0 <= i < 16 * j ==> #[trigger] p[i] == chain_block(keys, piece_blocks(orig), iv, n, i / 16)[i % 16]
    &&& forall|i: int| 16 * j <= i < p.len() ==> #[trigger] p[i] == orig[i]
}

/// Blocks `j` and above of `p` hold the decoding pass's plaintext; the rest still
/// hold `orig`.
pub open spec fn decoded_suffix(p: Seq<u8>, orig: Seq<u8>, keys: Seq<Seq<u8>>, iv: Option<Seq<u8>>, n: nat, j: int) -> bool {
    &&& p.len() == orig.len()
    &&& forall|i: int| 16 * j <= i < p.len() ==> #[trigger] p[i] == unchain_block(keys, piece_blocks(orig), iv, n, i / 16)[i % 16]
    &&& forall|i: int| 0 <= i < 16 * j ==> #[trigger] p[i] == orig[i]
}

fn load_block(p: &Piece, j: usize) -> (r: Block)
    requires
        j < PIECE_BLOCKS,
    ensures
        r@ == block_at(p@, j as int),
{
    let mut r: Block = [0u8; 16];
    for b in 0..16
        invariant
            j < PIECE_BLOCKS,
            forall|c: int| 0 <= c < b ==> r[c] == p[16 * j + c],
    {
        r[b] = p[16 * j + b];
    }
    assert(r@ =~= block_at(p@, j as int));
    r
}

fn store_block(p: &mut Piece, j: usize, v: &Block)
    requires
        j < PIECE_BLOCKS,
    ensures
        forall|i: int|
            0 <= i < 4096 ==> #[trigger] final(p)[i] == if 16 * j <= i < 16 * j + 16 {
                v[i - 16 * j]
            } else {
                old(p)[i]
            },
{
    let ghost start = *p;
    for b in 0..16
        invariant
            j < PIECE_BLOCKS,
            forall|i: int|
                0 <= i < 4096 ==> #[trigger] p[i] == if 16 * j <= i < 16 * j + b {
                    v[i - 16 * j]
                } else {
                    start[i]
                },
    {
        p[16 * j + b] = v[b];
    }
}

/// One encoding pass over four pieces; returns each lane's last block, the IV of
/// the next pass.
fn encode_internal(
    pieces: &mut [Piece; 4],
    keys_reg: &ExpandedKeys,
    ivs: [Block; 4],
    aes_iterations: usize,
) -> (r: [Block; 4])
    ensures
        forall|l: int|
            0 <= l < 4 ==> #[trigger] piece_blocks(final(pieces)[l]@) == chain_encode(
                keys_view(*keys_reg),
                piece_blocks(old(pieces)[l]@),
                ivs[l]@,
                aes_iterations as nat,
            ),
        forall|l: int| 0 <= l < 4 ==> #[trigger] r[l]@ == piece_blocks(final(pieces)[l]@).last(),
{
    let ghost start = *pieces;
    let ghost kv = keys_view(*keys_reg);
    let ghost n = aes_iterations as nat;
    let mut feed = ivs;
    let mut j: usize = 0;
    while j < PIECE_BLOCKS
        invariant
            0 <= j <= PIECE_BLOCKS,
            kv == keys_view(*keys_reg),
            n == aes_iterations as nat,
            forall|l: int|
                0 <= l < 4 ==> #[trigger] encoded_prefix(pieces[l]@, start[l]@, kv, ivs[l]@, n, j as int),
            forall|l: int|
                0 <= l < 4 ==> #[trigger] feed[l]@ == if j == 0 {
                    ivs[l]@
                } else {
                    chain_block(kv, piece_blocks(start[l]@), ivs[l]@, n, j - 1)
                },
        decreases PIECE_BLOCKS - j,
    {
        let mut blocks: [Block; 4] = [[0u8; 16]; 4];
        assert(forall|l: int|
                0 <= l < 4 ==> #[trigger] encoded_prefix(pieces[l]@, start[l]@, kv, ivs[l]@, n, j as int));
        for l in 0..4
            invariant
                0 <= j < PIECE_BLOCKS,
                forall|l: int|
                    0 <= l < 4 ==> #[trigger] encoded_prefix(pieces[l]@, start[l]@, kv, ivs[l]@, n, j as int),
                forall|m: int| 0 <= m < l ==> #[trigger] blocks[m]@ == piece_blocks(start[m]@)[j as int],
        {
            blocks[l] = load_block(&pieces[l], j);
            proof {
                assert(encoded_prefix(pieces[l as int]@, start[l as int]@, kv, ivs[l as int]@, n, j as int));
                lemma_load_untouched(pieces[l as int]@, start[l as int]@, j as int, blocks[l as int]@);
            }
        }
        por_encode_pipelined_x4_low_level(keys_reg, &mut blocks, &feed, aes_iterations);
        for l in 0..4
            invariant
                0 <= j < PIECE_BLOCKS,
                kv == keys_view(*keys_reg),
                n == aes_iterations as nat,
                forall|m: int|
                    0 <= m < 4 ==> #[trigger] blocks[m]@ == chain_block(kv, piece_blocks(start[m]@), ivs[m]@, n, j as int),
                forall|m: int|
                    0 <= m < l ==> #[trigger] encoded_prefix(pieces[m]@, start[m]@, kv, ivs[m]@, n, j + 1),
                forall|m: int|
                    l <= m < 4 ==> #[trigger] encoded_prefix(pieces[m]@, start[m]@, kv, ivs[m]@, n, j as int),
        {
            let mut p = pieces[l];
            store_block(&mut p, j, &blocks[l]);
            proof {
                let li = l as int;
                assert(encoded_prefix(pieces[li]@, start[li]@, kv, ivs[li]@, n, j as int));
                assert(blocks[li]@ == chain_block(kv, piece_blocks(start[li]@), ivs[li]@, n, j as int));
                lemma_prefix_step(pieces[li]@, p@, start[li]@, kv, ivs[li]@, n, j as int, blocks[li]@);
            }
            pieces[l] = p;
        }
        feed = blocks;
        j = j + 1;
    }
    assert forall|l: int| 0 <= l < 4 implies #[trigger] piece_blocks(pieces[l]@) == chain_encode(
        kv,
        piece_blocks(start[l]@),
        ivs[l]@,
        n,
    ) by {
        lemma_prefix_complete(pieces[l]@, start[l]@, kv, ivs[l]@, n);
    }
    feed
}

/// What an optional IV stands for in the model.
pub open spec fn iv_view(iv: Option<&Block>) -> Option<Seq<u8>> {
    match iv {
        Some(b) => Some(b@),
        None => None,
    }
}

/// A decoding suffix that covers the whole piece is the decoding pass.
proof fn lemma_suffix_complete(p: Seq<u8>, orig: Seq<u8>, keys: Seq<Seq<u8>>, iv: Option<Seq<u8>>, n: nat)
    requires
        orig.len() == 4096,
        decoded_suffix(p, orig, keys, iv, n, 0),
    ensures
        piece_blocks(p) == chain_decode(keys, piece_blocks(orig), iv, n),
{
    assert forall|j: int| 0 <= j < 256 implies #[trigger] piece_blocks(p)[j]
        == unchain_block(keys, piece_blocks(orig), iv, n, j) by {
        assert forall|b: int| 0 <= b < 16 implies #[trigger] block_at(p, j)[b]
            == unchain_block(keys, piece_blocks(orig), iv, n, j)[b] by {
            lemma_div16(16 * j + b, j);
        }
        assert(block_at(p, j) =~= unchain_block(keys, piece_blocks(orig), iv, n, j));
    }
    assert(piece_blocks(p) =~= chain_decode(keys, piece_blocks(orig), iv, n));
}

/// One decoding pass over a piece, last group of four blocks first. Block 0
/// takes `iv` as its feedback where it is given, else the decoded last block.
fn decode_internal(piece: &mut Piece, keys_reg: &ExpandedKeys, iv: Option<&Block>, aes_iterations: usize)
    ensures
        piece_blocks(final(piece)@) == chain_decode(
            keys_view(*keys_reg),
            piece_blocks(old(piece)@),
            iv_view(iv),
            aes_iterations as nat,
        ),
{
    let ghost start = *piece;
    let ghost kv = keys_view(*keys_reg);
    let ghost n = aes_iterations as nat;
    let ghost ivv = iv_view(iv);
    let mut g: usize = PIECE_BLOCKS / 4;
    while g > 1
        invariant
            1 <= g <= 64,
            kv == keys_view(*keys_reg),
            n == aes_iterations as nat,
            decoded_suffix(piece@, start@, kv, ivv, n, 4 * g),
        decreases g,
    {
        g = g - 1;
        let feedback = load_block(piece, 4 * g - 1);
        proof {
            assert(feedback@ =~= piece_blocks(start@)[4 * g - 1]);
        }
        decode_4_blocks_internal(keys_reg, piece, 4 * g, &feedback, Ghost(start@), Ghost(ivv), aes_iterations);
    }
    let feedback = match iv {
        Some(v) => *v,
        None => load_block(piece, PIECE_BLOCKS - 1),
    };
    proof {
        if iv is None {
            assert forall|b: int| 0 <= b < 16 implies #[trigger] feedback@[b]
                == unchain_block(kv, piece_blocks(start@), ivv, n, 255)[b] by {
                lemma_div16(16 * 255 + b, 255);
            }
            assert(feedback@ =~= unchain_block(kv, piece_blocks(start@), ivv, n, 255));
        }
    }
    decode_4_blocks_internal(keys_reg, piece, 0, &feedback, Ghost(start@), Ghost(ivv), aes_iterations);
    proof {
        lemma_suffix_complete(piece@, start@, kv, ivv, n);
    }
}

/// Decodes the four blocks from block `first` on, whose feedbacks are `feedback`
/// and the first three of them.
fn decode_4_blocks_internal(
    keys_reg: &ExpandedKeys,
    piece: &mut Piece,
    first: usize,
    feedback: &Block,
    Ghost(orig): Ghost<Seq<u8>>,
    Ghost(iv): Ghost<Option<Seq<u8>>>,
    aes_iterations: usize,
)
    requires
        first % 4 == 0,
        first + 4 <= PIECE_BLOCKS,
        orig.len() == 4096,
        decoded_suffix(old(piece)@, orig, keys_view(*keys_reg), iv, aes_iterations as nat, first + 4),
        unchain_block(keys_view(*keys_reg), piece_blocks(orig), iv, aes_iterations as nat, first as int)
            == xor_block(
            aes_decrypt_n(keys_view(*keys_reg), piece_blocks(orig)[first as int], aes_iterations as nat),
            feedback@,
        ),
    ensures
        decoded_suffix(final(piece)@, orig, keys_view(*keys_reg), iv, aes_iterations as nat, first as int),
{
    let ghost kv = keys_view(*keys_reg);
    let ghost n = aes_iterations as nat;
    let ghost cs = piece_blocks(orig);
    let b0 = load_block(piece, first);
    let b1 = load_block(piece, first + 1);
    let b2 = load_block(piece, first + 2);
    let b3 = load_block(piece, first + 3);
    proof {
        lemma_load_decoded_untouched(piece@, orig, kv, iv, n, first + 4, first as int, b0@);
        lemma_load_decoded_untouched(piece@, orig, kv, iv, n, first + 4, first + 1, b1@);
        lemma_load_decoded_untouched(piece@, orig, kv, iv, n, first + 4, first + 2, b2@);
        lemma_load_decoded_untouched(piece@, orig, kv, iv, n, first + 4, first + 3, b3@);
    }
    let mut blocks: [Block; 4] = [b0, b1, b2, b3];
    let feedbacks: [Block; 4] = [*feedback, b0, b1, b2];
    por_decode_pipelined_x4_low_level(keys_reg, &mut blocks, &feedbacks, aes_iterations);
    proof {
        assert(blocks[0]@ == unchain_block(kv, cs, iv, n, first as int));
        assert(blocks[1]@ == unchain_block(kv, cs, iv, n, first + 1));
        assert(blocks[2]@ == unchain_block(kv, cs, iv, n, first + 2));
        assert(blocks[3]@ == unchain_block(kv, cs, iv, n, first + 3));
    }
    let ghost p4 = piece@;
    store_block(piece, first + 3, &blocks[3]);
    proof {
        lemma_suffix_step(p4, piece@, orig, kv, iv, n, first + 3, blocks[3]@);
    }
    let ghost p3 = piece@;
    store_block(piece, first + 2, &blocks[2]);
    proof {
        lemma_suffix_step(p3, piece@, orig, kv, iv, n, first + 2, blocks[2]@);
    }
    let ghost p2 = piece@;
    store_block(piece, first + 1, &blocks[1]);
    proof {
        lemma_suffix_step(p2, piece@, orig, kv, iv, n, first + 1, blocks[1]@);
    }
    let ghost p1 = piece@;
    store_block(piece, first, &blocks[0]);
    proof {
        lemma_suffix_step(p1, piece@, orig, kv, iv, n, first as int, blocks[0]@);
    }
}

/// A block loaded from the part of a piece that an encoding pass has not reached
/// yet is the original block.
proof fn lemma_load_untouched(p: Seq<u8>, orig: Seq<u8>, j: int, v: Seq<u8>)
    requires
        p.len() == 4096,
        0 <= j < 256,
        v == block_at(p, j),
        forall|i: int| 16 * j <= i < p.len() ==> #[trigger] p[i] == orig[i],
        p.len() == orig.len(),
    ensures
        v == piece_blocks(orig)[j],
{
    assert(v =~= piece_blocks(orig)[j]);
}

/// The same, for the part of a piece that a decoding pass has not reached yet.
proof fn lemma_load_decoded_untouched(
    p: Seq<u8>,
    orig: Seq<u8>,
    keys: Seq<Seq<u8>>,
    iv: Option<Seq<u8>>,
    n: nat,
    boundary: int,
    j: int,
    v: Seq<u8>,
)
    requires
        orig.len() == 4096,
        decoded_suffix(p, orig, keys, iv, n, boundary),
        0 <= j < boundary <= 256,
        v == block_at(p, j),
    ensures
        v == piece_blocks(orig)[j],
{
    assert(v =~= piece_blocks(orig)[j]);
}

/// Storing ciphertext block `j` over a prefix of `j` blocks extends it by one.
proof fn lemma_prefix_step(
    before: Seq<u8>,
    after: Seq<u8>,
    orig: Seq<u8>,
    keys: Seq<Seq<u8>>,
    iv: Seq<u8>,
    n: nat,
    j: int,
    v: Seq<u8>,
)
    requires
        0 <= j < 256,
        orig.len() == 4096,
        after.len() == 4096,
        encoded_prefix(before, orig, keys, iv, n, j),
        v == chain_block(keys, piece_blocks(orig), iv, n, j),
        forall|i: int|
            0 <= i < 4096 ==> #[trigger] after[i] == if 16 * j <= i < 16 * j + 16 {
                v[i - 16 * j]
            } else {
                before[i]
            },
    ensures
        encoded_prefix(after, orig, keys, iv, n, j + 1),
{
    assert forall|i: int| 0 <= i < 16 * (j + 1) implies #[trigger] after[i] == chain_block(
        keys,
        piece_blocks(orig),
        iv,
        n,
        i / 16,
    )[i % 16] by {
        if i >= 16 * j {
            lemma_div16(i, j);
        }
    }
}

/// Storing plaintext block `j` below a suffix that starts at block `j + 1`
/// extends it by one.
proof fn lemma_suffix_step(
    before: Seq<u8>,
    after: Seq<u8>,
    orig: Seq<u8>,
    keys: Seq<Seq<u8>>,
    iv: Option<Seq<u8>>,
    n: nat,
    j: int,
    v: Seq<u8>,
)
    requires
        0 <= j < 256,
        orig.len() == 4096,
        after.len() == 4096,
        decoded_suffix(before, orig, keys, iv, n, j + 1),
        v == unchain_block(keys, piece_blocks(orig), iv, n, j),
        forall|i: int|
            0 <= i < 4096 ==> #[trigger] after[i] == if 16 * j <= i < 16 * j + 16 {
                v[i - 16 * j]
            } else {
                before[i]
            },
    ensures
        decoded_suffix(after, orig, keys, iv, n, j),
{
    assert forall|i: int| 16 * j <= i < 4096 implies #[trigger] after[i] == unchain_block(
        keys,
        piece_blocks(orig),
        iv,
        n,
        i / 16,
    )[i % 16] by {
        if i < 16 * j + 16 {
            lemma_div16(i, j);
        }
    }
}

/// An encoding prefix that covers the whole piece is the encoding pass.
proof fn lemma_prefix_complete(p: Seq<u8>, orig: Seq<u8>, keys: Seq<Seq<u8>>, iv: Seq<u8>, n: nat)
    requires
        orig.len() == 4096,
        encoded_prefix(p, orig, keys, iv, n, 256),
    ensures
        piece_blocks(p) == chain_encode(keys, piece_blocks(orig), iv, n),
{
    assert forall|j: int| 0 <= j < 256 implies #[trigger] piece_blocks(p)[j]
        == chain_block(keys, piece_blocks(orig), iv, n, j) by {
        assert forall|b: int| 0 <= b < 16 implies #[trigger] block_at(p, j)[b]
            == chain_block(keys, piece_blocks(orig), iv, n, j)[b] by {
            lemma_div16(16 * j + b, j);
        }
        assert(block_at(p, j) =~= chain_block(keys, piece_blocks(orig), iv, n, j));
    }
    assert(piece_blocks(p) =~= chain_encode(keys, piece_blocks(orig), iv, n));
}

} // verus!
