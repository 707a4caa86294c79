//! The mathematical model of the replication codec: pieces as sequences of
//! 16-byte blocks, the encoding chain and the decoding pass.

use vstd::prelude::*;

use crate::aes_low_level::aes_ni::{aes_decrypt_n, aes_encrypt_n, expand_enc, inverse_schedule, xor_block};
use crate::aes_low_level::inverse::{
    lemma_decrypt_encrypt_n, lemma_encrypt_n_len, lemma_expand_wf, schedule_wf,
};

verus! {

/// Block `j` of a byte sequence.
pub open spec fn block_at(p: Seq<u8>, j: int) -> Seq<u8> {
    Seq::new(16, |b: int| p[16 * j + b])
}

/// A byte sequence cut into 16-byte blocks.
pub open spec fn piece_blocks(p: Seq<u8>) -> Seq<Seq<u8>> {
    Seq::new((p.len() / 16) as nat, |j: int| block_at(p, j))
}

/// Blocks laid end to end.
pub open spec fn flatten(bs: Seq<Seq<u8>>) -> Seq<u8> {
    Seq::new(16 * bs.len(), |i: int| bs[i / 16][i % 16])
}

/// Ciphertext block `j` of one chain pass: the plaintext block XORed with the
/// previous ciphertext block (with `iv` before block 0), then encrypted `n` times.
pub open spec fn chain_block(keys: Seq<Seq<u8>>, bs: Seq<Seq<u8>>, iv: Seq<u8>, n: nat, j: int) -> Seq<u8>
    decreases j,
{
    if j <= 0 {
        aes_encrypt_n(keys, xor_block(bs[0], iv), n)
    } else {
        aes_encrypt_n(keys, xor_block(bs[j], chain_block(keys, bs, iv, n, j - 1)), n)
    }
}

/// One encoding pass over all blocks.
pub open spec fn chain_encode(keys: Seq<Seq<u8>>, bs: Seq<Seq<u8>>, iv: Seq<u8>, n: nat) -> Seq<Seq<u8>> {
    Seq::new(bs.len(), |j: int| chain_block(keys, bs, iv, n, j))
}

/// `k` encoding passes: the first starts from `iv`, each later one from the last
/// block of the pass before it.
pub open spec fn por_encode(keys: Seq<Seq<u8>>, bs: Seq<Seq<u8>>, iv: Seq<u8>, n: nat, k: nat) -> Seq<Seq<u8>>
    decreases k,
{
    if k == 0 {
        bs
    } else if k == 1 {
        chain_encode(keys, bs, iv, n)
    } else {
        let prev = por_encode(keys, bs, iv, n, (k - 1) as nat);
        chain_encode(keys, prev, prev.last(), n)
    }
}

/// Plaintext block `j` of one decoding pass: block `j` decrypted `n` times, XORed
/// with ciphertext block `j - 1`. Block 0 takes `iv` where it is given, else the
/// decoded last block.
pub open spec fn unchain_block(keys: Seq<Seq<u8>>, cs: Seq<Seq<u8>>, iv: Option<Seq<u8>>, n: nat, j: int) -> Seq<u8> {
    if j > 0 {
        xor_block(aes_decrypt_n(keys, cs[j], n), cs[j - 1])
    } else {
        match iv {
            Some(v) => xor_block(aes_decrypt_n(keys, cs[0], n), v),
            None => xor_block(
                aes_decrypt_n(keys, cs[0], n),
                xor_block(aes_decrypt_n(keys, cs[cs.len() - 1], n), cs[cs.len() - 2]),
            ),
        }
    }
}

/// One decoding pass over all blocks.
pub open spec fn chain_decode(keys: Seq<Seq<u8>>, cs: Seq<Seq<u8>>, iv: Option<Seq<u8>>, n: nat) -> Seq<Seq<u8>> {
    Seq::new(cs.len(), |j: int| unchain_block(keys, cs, iv, n, j))
}

/// `k` decoding passes (at least one): all but the last without an IV, the last
/// with `iv`.
pub open spec fn por_decode(keys: Seq<Seq<u8>>, cs: Seq<Seq<u8>>, iv: Seq<u8>, n: nat, k: nat) -> Seq<Seq<u8>>
    decreases k,
{
    if k <= 1 {
        chain_decode(keys, cs, Some(iv), n)
    } else {
        por_decode(keys, chain_decode(keys, cs, None, n), iv, n, (k - 1) as nat)
    }
}

/// Every block is 16 bytes long.
pub open spec fn blocks_wf(bs: Seq<Seq<u8>>) -> bool {
    forall|j: int| 0 <= j < bs.len() ==> (#[trigger] bs[j]).len() == 16
}

proof fn lemma_xor_unchain(a: Seq<u8>, f: Seq<u8>)
    requires
        a.len() == 16,
    ensures
        xor_block(xor_block(a, f), f) == a,
{
    assert forall|i: int| 0 <= i < 16 implies #[trigger] xor_block(xor_block(a, f), f)[i] == a[i] by {
        let (x, y) = (a[i], f[i]);
        assert((x ^ y) ^ y == x) by (bit_vector);
    }
    assert(xor_block(xor_block(a, f), f) =~= a);
}

proof fn lemma_chain_block_len(keys: Seq<Seq<u8>>, bs: Seq<Seq<u8>>, iv: Seq<u8>, n: nat, j: int)
    ensures
        chain_block(keys, bs, iv, n, j).len() == 16,
    decreases j,
{
    if j <= 0 {
        lemma_encrypt_n_len(keys, xor_block(bs[0], iv), n);
    } else {
        lemma_encrypt_n_len(keys, xor_block(bs[j], chain_block(keys, bs, iv, n, j - 1)), n);
    }
}

/// Decoding block `j > 0` of an encoded pass gives back plaintext block `j`.
proof fn lemma_unchain_inner(keys: Seq<Seq<u8>>, bs: Seq<Seq<u8>>, iv: Seq<u8>, n: nat, o: Option<Seq<u8>>, j: int)
    requires
        schedule_wf(keys),
        blocks_wf(bs),
        0 < j < bs.len(),
    ensures
        unchain_block(inverse_schedule(keys), chain_encode(keys, bs, iv, n), o, n, j) == bs[j],
{
    let prev = chain_block(keys, bs, iv, n, j - 1);
    lemma_decrypt_encrypt_n(keys, xor_block(bs[j], prev), n);
    lemma_xor_unchain(bs[j], prev);
}

/// One decoding pass with the IV undoes one encoding pass with that IV.
pub proof fn lemma_chain_round_trip(keys: Seq<Seq<u8>>, bs: Seq<Seq<u8>>, iv: Seq<u8>, n: nat)
    requires
        schedule_wf(keys),
        blocks_wf(bs),
        bs.len() >= 1,
        iv.len() == 16,
    ensures
        chain_decode(inverse_schedule(keys), chain_encode(keys, bs, iv, n), Some(iv), n) == bs,
{
    let cs = chain_encode(keys, bs, iv, n);
    let d = chain_decode(inverse_schedule(keys), cs, Some(iv), n);
    assert forall|j: int| 0 <= j < bs.len() implies #[trigger] d[j] == bs[j] by {
        if j > 0 {
            lemma_unchain_inner(keys, bs, iv, n, Some(iv), j);
        } else {
            lemma_decrypt_encrypt_n(keys, xor_block(bs[0], iv), n);
            lemma_xor_unchain(bs[0], iv);
        }
    }
    assert(d =~= bs);
}

/// A decoding pass without an IV undoes an encoding pass that started from the
/// last plaintext block.
pub proof fn lemma_chain_round_trip_wrapped(keys: Seq<Seq<u8>>, bs: Seq<Seq<u8>>, n: nat)
    requires
        schedule_wf(keys),
        blocks_wf(bs),
        bs.len() >= 2,
    ensures
        chain_decode(inverse_schedule(keys), chain_encode(keys, bs, bs.last(), n), None, n) == bs,
{
    let iv = bs.last();
    let cs = chain_encode(keys, bs, iv, n);
    let d = chain_decode(inverse_schedule(keys), cs, None, n);
    lemma_unchain_inner(keys, bs, iv, n, None, bs.len() - 1);
    assert forall|j: int| 0 <= j < bs.len() implies #[trigger] d[j] == bs[j] by {
        if j > 0 {
            lemma_unchain_inner(keys, bs, iv, n, None, j);
        } else {
            lemma_decrypt_encrypt_n(keys, xor_block(bs[0], iv), n);
            lemma_xor_unchain(bs[0], iv);
        }
    }
    assert(d =~= bs);
}

proof fn lemma_por_encode_shape(keys: Seq<Seq<u8>>, bs: Seq<Seq<u8>>, iv: Seq<u8>, n: nat, k: nat)
    requires
        blocks_wf(bs),
    ensures
        por_encode(keys, bs, iv, n, k).len() == bs.len(),
        blocks_wf(por_encode(keys, bs, iv, n, k)),
    decreases k,
{
    if k == 1 {
        assert forall|j: int| 0 <= j < bs.len() implies (#[trigger] chain_encode(keys, bs, iv, n)[j]).len() == 16 by {
            lemma_chain_block_len(keys, bs, iv, n, j);
        }
    } else if k > 1 {
        lemma_por_encode_shape(keys, bs, iv, n, (k - 1) as nat);
        let prev = por_encode(keys, bs, iv, n, (k - 1) as nat);
        assert forall|j: int| 0 <= j < prev.len() implies (#[trigger] chain_encode(keys, prev, prev.last(), n)[j]).len() == 16 by {
            lemma_chain_block_len(keys, prev, prev.last(), n, j);
        }
    }
}

/// `k` decoding passes undo `k` encoding passes, over blocks.
pub proof fn lemma_por_round_trip(keys: Seq<Seq<u8>>, bs: Seq<Seq<u8>>, iv: Seq<u8>, n: nat, k: nat)
    requires
        schedule_wf(keys),
        blocks_wf(bs),
        bs.len() >= 2,
        iv.len() == 16,
        k >= 1,
    ensures
        por_decode(inverse_schedule(keys), por_encode(keys, bs, iv, n, k), iv, n, k) == bs,
    decreases k,
{
    if k == 1 {
        lemma_chain_round_trip(keys, bs, iv, n);
    } else {
        let prev = por_encode(keys, bs, iv, n, (k - 1) as nat);
        lemma_por_encode_shape(keys, bs, iv, n, (k - 1) as nat);
        lemma_chain_round_trip_wrapped(keys, prev, n);
        lemma_por_round_trip(keys, bs, iv, n, (k - 1) as nat);
    }
}

/// Byte `i` of a piece lies in block `j` at offset `i - 16 * j`.
pub proof fn lemma_div16(i: int, j: int)
    requires
        16 * j <= i < 16 * j + 16,
    ensures
        i / 16 == j,
        i % 16 == i - 16 * j,
{
}

/// Laying blocks end to end and cutting the result again gives the blocks back.
pub proof fn lemma_blocks_of_flatten(bs: Seq<Seq<u8>>)
    requires
        blocks_wf(bs),
    ensures
        piece_blocks(flatten(bs)) == bs,
{
    let p = flatten(bs);
    assert forall|j: int| 0 <= j < bs.len() implies #[trigger] piece_blocks(p)[j] == bs[j] by {
        assert forall|b: int| 0 <= b < 16 implies #[trigger] block_at(p, j)[b] == bs[j][b] by {
            lemma_div16(16 * j + b, j);
        }
        assert(block_at(p, j) =~= bs[j]);
    }
    assert(piece_blocks(p) =~= bs);
}

/// Cutting bytes into blocks and laying them end to end gives the bytes back.
pub proof fn lemma_flatten_blocks(p: Seq<u8>)
    requires
        p.len() % 16 == 0,
    ensures
        flatten(piece_blocks(p)) == p,
{
    assert forall|i: int| 0 <= i < p.len() implies #[trigger] flatten(piece_blocks(p))[i] == p[i] by {
        lemma_div16(i, i / 16);
    }
    assert(flatten(piece_blocks(p)) =~= p);
}

/// Replication round trip: decoding a piece with the identity's inverse
/// schedule, the same IV, iteration count and breadth as its encoding gives the
/// piece back.
pub proof fn lemma_piece_round_trip(id: Seq<u8>, iv: Seq<u8>, piece: Seq<u8>, n: nat, k: nat)
    requires
        id.len() == 16,
        iv.len() == 16,
        piece.len() % 16 == 0,
        piece.len() >= 32,
        k >= 1,
    ensures
        flatten(
            por_decode(
                inverse_schedule(expand_enc(id)),
                piece_blocks(flatten(por_encode(expand_enc(id), piece_blocks(piece), iv, n, k))),
                iv,
                n,
                k,
            ),
        ) == piece,
{
    let keys = expand_enc(id);
    let bs = piece_blocks(piece);
    lemma_expand_wf(id);
    lemma_por_encode_shape(keys, bs, iv, n, k);
    lemma_blocks_of_flatten(por_encode(keys, bs, iv, n, k));
    lemma_por_round_trip(keys, bs, iv, n, k);
    lemma_flatten_blocks(piece);
}

} // verus!
