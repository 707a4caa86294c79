//! Decryption under the equivalent-inverse schedule undoes encryption, and the
//! other way round.

use vstd::prelude::*;

use crate::aes_low_level::aes_ni::{
    aes_decrypt, aes_decrypt_n, aes_encrypt, aes_encrypt_n, dec_rounds, enc_rounds, expand_enc,
    inv_mix_byte, inv_mix_columns, inv_shift_rows,
    inv_sub_bytes, inverse_schedule, mix_byte, mix_columns, round_key,
    shift_rows, sub_bytes, xor_block,
};
use crate::aes_low_level::sbox::lemma_sbox_inverse;

verus! {

/// A schedule of eleven 16-byte round keys.
pub open spec fn schedule_wf(keys: Seq<Seq<u8>>) -> bool {
    &&& keys.len() == 11
    &&& forall|i: int| 0 <= i < 11 ==> (#[trigger] keys[i]).len() == 16
}

proof fn lemma_xor_cancel(a: Seq<u8>, k: Seq<u8>)
    requires
        a.len() == 16,
    ensures
        xor_block(xor_block(a, k), k) == a,
{
    assert forall|i: int| 0 <= i < 16 implies #[trigger] xor_block(xor_block(a, k), k)[i] == a[i] by {
        let (x, y) = (a[i], k[i]);
        assert((x ^ y) ^ y == x) by (bit_vector);
    }
    assert(xor_block(xor_block(a, k), k) =~= a);
}

proof fn lemma_sub_shift_inverse(s: Seq<u8>)
    requires
        s.len() == 16,
    ensures
        inv_shift_rows(inv_sub_bytes(shift_rows(sub_bytes(s)))) == s,
        shift_rows(sub_bytes(inv_shift_rows(inv_sub_bytes(s)))) == s,
{
    assert forall|i: int| 0 <= i < 16 implies #[trigger] inv_shift_rows(inv_sub_bytes(shift_rows(sub_bytes(s))))[i] == s[i] by {
        lemma_sbox_inverse(s[i]);
    }
    assert forall|i: int| 0 <= i < 16 implies #[trigger] shift_rows(sub_bytes(inv_shift_rows(inv_sub_bytes(s))))[i] == s[i] by {
        lemma_sbox_inverse(s[i]);
    }
    assert(inv_shift_rows(inv_sub_bytes(shift_rows(sub_bytes(s)))) =~= s);
    assert(shift_rows(sub_bytes(inv_shift_rows(inv_sub_bytes(s)))) =~= s);
}

/// The MixColumns and InvMixColumns matrices are inverse on one column.
#[verifier::rlimit(100)]
proof fn lemma_mix_column_inverse(a0: u8, a1: u8, a2: u8, a3: u8)
    ensures
        inv_mix_byte(
            mix_byte(a0, a1, a2, a3),
            mix_byte(a1, a2, a3, a0),
            mix_byte(a2, a3, a0, a1),
            mix_byte(a3, a0, a1, a2),
        ) == a0,
        mix_byte(
            inv_mix_byte(a0, a1, a2, a3),
            inv_mix_byte(a1, a2, a3, a0),
            inv_mix_byte(a2, a3, a0, a1),
            inv_mix_byte(a3, a0, a1, a2),
        ) == a0,
{
    reveal(mix_byte);
    reveal(inv_mix_byte);
    assert(inv_mix_byte(
        mix_byte(a0, a1, a2, a3),
        mix_byte(a1, a2, a3, a0),
        mix_byte(a2, a3, a0, a1),
        mix_byte(a3, a0, a1, a2),
    ) == a0) by (bit_vector);
    assert(mix_byte(
        inv_mix_byte(a0, a1, a2, a3),
        inv_mix_byte(a1, a2, a3, a0),
        inv_mix_byte(a2, a3, a0, a1),
        inv_mix_byte(a3, a0, a1, a2),
    ) == a0) by (bit_vector);
}

proof fn lemma_inv_mix_linear(a0: u8, a1: u8, a2: u8, a3: u8, b0: u8, b1: u8, b2: u8, b3: u8)
    ensures
        inv_mix_byte((a0 ^ b0) as u8, (a1 ^ b1) as u8, (a2 ^ b2) as u8, (a3 ^ b3) as u8)
            == inv_mix_byte(a0, a1, a2, a3) ^ inv_mix_byte(b0, b1, b2, b3),
{
    reveal(inv_mix_byte);
    assert(inv_mix_byte((a0 ^ b0) as u8, (a1 ^ b1) as u8, (a2 ^ b2) as u8, (a3 ^ b3) as u8)
        == inv_mix_byte(a0, a1, a2, a3) ^ inv_mix_byte(b0, b1, b2, b3)) by (bit_vector);
}

proof fn lemma_mix_columns_inverse(s: Seq<u8>)
    requires
        s.len() == 16,
    ensures
        inv_mix_columns(mix_columns(s)) == s,
        mix_columns(inv_mix_columns(s)) == s,
{
    assert forall|i: int| 0 <= i < 16 implies #[trigger] inv_mix_columns(mix_columns(s))[i] == s[i]
        && mix_columns(inv_mix_columns(s))[i] == s[i] by {
        let c = i - i % 4;
        if i % 4 == 0 {
            lemma_mix_column_inverse(s[c], s[c + 1], s[c + 2], s[c + 3]);
        } else if i % 4 == 1 {
            lemma_mix_column_inverse(s[c + 1], s[c + 2], s[c + 3], s[c]);
        } else if i % 4 == 2 {
            lemma_mix_column_inverse(s[c + 2], s[c + 3], s[c], s[c + 1]);
        } else {
            lemma_mix_column_inverse(s[c + 3], s[c], s[c + 1], s[c + 2]);
        }
    }
    assert(inv_mix_columns(mix_columns(s)) =~= s);
    assert(mix_columns(inv_mix_columns(s)) =~= s);
}

proof fn lemma_inv_mix_columns_xor(a: Seq<u8>, b: Seq<u8>)
    ensures
        inv_mix_columns(xor_block(a, b)) == xor_block(inv_mix_columns(a), inv_mix_columns(b)),
{
    let x = xor_block(a, b);
    assert forall|i: int| 0 <= i < 16 implies #[trigger] inv_mix_columns(x)[i]
        == xor_block(inv_mix_columns(a), inv_mix_columns(b))[i] by {
        let c = i - i % 4;
        if i % 4 == 0 {
            lemma_inv_mix_linear(a[c], a[c + 1], a[c + 2], a[c + 3], b[c], b[c + 1], b[c + 2], b[c + 3]);
        } else if i % 4 == 1 {
            lemma_inv_mix_linear(a[c + 1], a[c + 2], a[c + 3], a[c], b[c + 1], b[c + 2], b[c + 3], b[c]);
        } else if i % 4 == 2 {
            lemma_inv_mix_linear(a[c + 2], a[c + 3], a[c], a[c + 1], b[c + 2], b[c + 3], b[c], b[c + 1]);
        } else {
            lemma_inv_mix_linear(a[c + 3], a[c], a[c + 1], a[c + 2], b[c + 3], b[c], b[c + 1], b[c + 2]);
        }
    }
    assert(inv_mix_columns(x) =~= xor_block(inv_mix_columns(a), inv_mix_columns(b)));
}

/// After `r` middle decryption rounds, a ciphertext is back at the state that
/// SubBytes and ShiftRows made of encryption round `9 - r`.
proof fn lemma_dec_rounds_of_encrypt(keys: Seq<Seq<u8>>, x: Seq<u8>, r: nat)
    requires
        schedule_wf(keys),
        x.len() == 16,
        r <= 9,
    ensures
        dec_rounds(inverse_schedule(keys), aes_encrypt(keys, x), r)
            == shift_rows(sub_bytes(enc_rounds(keys, x, (9 - r) as nat))),
    decreases r,
{
    let inv = inverse_schedule(keys);
    let c = aes_encrypt(keys, x);
    if r == 0 {
        lemma_xor_cancel(shift_rows(sub_bytes(enc_rounds(keys, x, 9))), keys[10]);
    } else {
        lemma_dec_rounds_of_encrypt(keys, x, (r - 1) as nat);
        let q = (10 - r) as nat;
        let s = enc_rounds(keys, x, q);
        let p = enc_rounds(keys, x, (q - 1) as nat);
        lemma_sub_shift_inverse(s);
        lemma_inv_mix_columns_xor(s, keys[q as int]);
        lemma_xor_cancel(mix_columns(shift_rows(sub_bytes(p))), keys[q as int]);
        lemma_mix_columns_inverse(shift_rows(sub_bytes(p)));
    }
}

/// After `r` middle encryption rounds, the decryption of `y` is back at the
/// state that InvSubBytes and InvShiftRows made of decryption round `9 - r`.
proof fn lemma_enc_rounds_of_decrypt(keys: Seq<Seq<u8>>, y: Seq<u8>, r: nat)
    requires
        schedule_wf(keys),
        y.len() == 16,
        r <= 9,
    ensures
        enc_rounds(keys, aes_decrypt(inverse_schedule(keys), y), r)
            == inv_shift_rows(inv_sub_bytes(dec_rounds(inverse_schedule(keys), y, (9 - r) as nat))),
    decreases r,
{
    let inv = inverse_schedule(keys);
    if r == 0 {
        lemma_xor_cancel(inv_shift_rows(inv_sub_bytes(dec_rounds(inv, y, 9))), keys[0]);
    } else {
        lemma_enc_rounds_of_decrypt(keys, y, (r - 1) as nat);
        let q = (10 - r) as nat;
        let u = dec_rounds(inv, y, q);
        let w = inv_shift_rows(inv_sub_bytes(dec_rounds(inv, y, (q - 1) as nat)));
        lemma_sub_shift_inverse(u);
        lemma_inv_mix_columns_xor(w, keys[r as int]);
        lemma_mix_columns_inverse(xor_block(w, keys[r as int]));
        lemma_xor_cancel(w, keys[r as int]);
    }
}

/// Decryption under the equivalent-inverse schedule undoes encryption.
pub proof fn lemma_decrypt_encrypt(keys: Seq<Seq<u8>>, x: Seq<u8>)
    requires
        schedule_wf(keys),
        x.len() == 16,
    ensures
        aes_decrypt(inverse_schedule(keys), aes_encrypt(keys, x)) == x,
{
    lemma_dec_rounds_of_encrypt(keys, x, 9);
    let s0 = enc_rounds(keys, x, 0);
    lemma_sub_shift_inverse(s0);
    lemma_xor_cancel(x, keys[0]);
}

/// Encryption undoes decryption under the equivalent-inverse schedule.
pub proof fn lemma_encrypt_decrypt(keys: Seq<Seq<u8>>, y: Seq<u8>)
    requires
        schedule_wf(keys),
        y.len() == 16,
    ensures
        aes_encrypt(keys, aes_decrypt(inverse_schedule(keys), y)) == y,
{
    lemma_enc_rounds_of_decrypt(keys, y, 9);
    let u0 = dec_rounds(inverse_schedule(keys), y, 0);
    lemma_sub_shift_inverse(u0);
    lemma_xor_cancel(y, keys[10]);
}

pub proof fn lemma_encrypt_n_len(keys: Seq<Seq<u8>>, x: Seq<u8>, n: nat)
    requires
        x.len() == 16,
    ensures
        aes_encrypt_n(keys, x, n).len() == 16,
    decreases n,
{
    if n > 0 {
        lemma_encrypt_n_len(keys, x, (n - 1) as nat);
    }
}

pub proof fn lemma_decrypt_n_len(keys: Seq<Seq<u8>>, y: Seq<u8>, n: nat)
    requires
        y.len() == 16,
    ensures
        aes_decrypt_n(keys, y, n).len() == 16,
    decreases n,
{
    if n > 0 {
        lemma_decrypt_n_len(keys, y, (n - 1) as nat);
    }
}

proof fn lemma_encrypt_n_first(keys: Seq<Seq<u8>>, x: Seq<u8>, n: nat)
    ensures
        aes_encrypt_n(keys, x, n + 1) == aes_encrypt_n(keys, aes_encrypt(keys, x), n),
    decreases n,
{
    assert(aes_encrypt_n(keys, x, n + 1) == aes_encrypt(keys, aes_encrypt_n(keys, x, n)));
    if n > 0 {
        lemma_encrypt_n_first(keys, x, (n - 1) as nat);
        let z = aes_encrypt(keys, x);
        assert(aes_encrypt_n(keys, z, n) == aes_encrypt(keys, aes_encrypt_n(keys, z, (n - 1) as nat)));
    } else {
        assert(aes_encrypt_n(keys, x, 0) == x);
    }
}

proof fn lemma_decrypt_n_first(keys: Seq<Seq<u8>>, y: Seq<u8>, n: nat)
    ensures
        aes_decrypt_n(keys, y, n + 1) == aes_decrypt_n(keys, aes_decrypt(keys, y), n),
    decreases n,
{
    assert(aes_decrypt_n(keys, y, n + 1) == aes_decrypt(keys, aes_decrypt_n(keys, y, n)));
    if n > 0 {
        lemma_decrypt_n_first(keys, y, (n - 1) as nat);
        let z = aes_decrypt(keys, y);
        assert(aes_decrypt_n(keys, z, n) == aes_decrypt(keys, aes_decrypt_n(keys, z, (n - 1) as nat)));
    } else {
        assert(aes_decrypt_n(keys, y, 0) == y);
    }
}

/// `n` decryptions under the equivalent-inverse schedule undo `n` encryptions.
pub proof fn lemma_decrypt_encrypt_n(keys: Seq<Seq<u8>>, x: Seq<u8>, n: nat)
    requires
        schedule_wf(keys),
        x.len() == 16,
    ensures
        aes_decrypt_n(inverse_schedule(keys), aes_encrypt_n(keys, x, n), n) == x,
    decreases n,
{
    if n > 0 {
        let m = (n - 1) as nat;
        let z = aes_encrypt_n(keys, x, m);
        lemma_encrypt_n_len(keys, x, m);
        lemma_decrypt_n_first(inverse_schedule(keys), aes_encrypt(keys, z), m);
        lemma_decrypt_encrypt(keys, z);
        lemma_decrypt_encrypt_n(keys, x, m);
    }
}

/// `n` encryptions undo `n` decryptions under the equivalent-inverse schedule.
pub proof fn lemma_encrypt_decrypt_n(keys: Seq<Seq<u8>>, y: Seq<u8>, n: nat)
    requires
        schedule_wf(keys),
        y.len() == 16,
    ensures
        aes_encrypt_n(keys, aes_decrypt_n(inverse_schedule(keys), y, n), n) == y,
    decreases n,
{
    if n > 0 {
        let m = (n - 1) as nat;
        let inv = inverse_schedule(keys);
        let z = aes_decrypt_n(inv, y, m);
        lemma_decrypt_n_len(inv, y, m);
        lemma_encrypt_n_first(keys, aes_decrypt(inv, z), m);
        lemma_encrypt_decrypt(keys, z);
        lemma_encrypt_decrypt_n(keys, y, m);
    }
}

proof fn lemma_round_key_len(key: Seq<u8>, r: nat)
    requires
        key.len() == 16,
    ensures
        round_key(key, r).len() == 16,
{
}

/// The expansion of a 16-byte key is a schedule of eleven 16-byte round keys.
pub proof fn lemma_expand_wf(key: Seq<u8>)
    requires
        key.len() == 16,
    ensures
        schedule_wf(expand_enc(key)),
{
    assert forall|i: int| 0 <= i < 11 implies (#[trigger] expand_enc(key)[i]).len() == 16 by {
        lemma_round_key_len(key, i as nat);
    }
}

/// Proof-of-time soundness: checking a segment that the prover computed from
/// `x` with `n` iterations (decrypting it `n` times under the inverse schedule
/// of the same identity) gives back `x`.
pub proof fn lemma_pot_segment_sound(id: Seq<u8>, x: Seq<u8>, n: nat)
    requires
        id.len() == 16,
        x.len() == 16,
    ensures
        aes_decrypt_n(inverse_schedule(expand_enc(id)), aes_encrypt_n(expand_enc(id), x, n), n) == x,
{
    lemma_expand_wf(id);
    lemma_decrypt_encrypt_n(expand_enc(id), x, n);
}

/// Proof-of-time sensitivity: a checkpoint that differs in any way from what
/// the prover computed from `x` does not decrypt back to `x`.
pub proof fn lemma_pot_segment_sensitive(id: Seq<u8>, x: Seq<u8>, y: Seq<u8>, n: nat)
    requires
        id.len() == 16,
        x.len() == 16,
        y.len() == 16,
        y != aes_encrypt_n(expand_enc(id), x, n),
    ensures
        aes_decrypt_n(inverse_schedule(expand_enc(id)), y, n) != x,
{
    lemma_expand_wf(id);
    lemma_encrypt_decrypt_n(expand_enc(id), y, n);
}

} // verus!
