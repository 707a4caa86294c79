//! AES-128 rounds with the semantics of the AES-NI instructions (`aesenc`,
//! `aesenclast`, `aesdec`, `aesdeclast`), the key schedule, and the four-lane
//! pipelined operations that the codecs drive.
//!
//! A state is sixteen bytes in column-major order: byte `4 * c + r` is row `r`
//! of column `c`.

use vstd::prelude::*;

use crate::aes_low_level::sbox::{inv_sbox, inv_sub_byte, lemma_sbox_inverse, sbox, sub_byte};
use crate::Block;

verus! {

/// Eleven round keys, one per AES-128 round.
pub type ExpandedKeys = [Block; 11];

// ---------------------------------------------------------------------------
// Field arithmetic in GF(2^8)

/// Multiplication by `x` modulo the AES polynomial.
pub open spec fn xtime(b: u8) -> u8 {
    ((b << 1u8) ^ (((b >> 7u8) * 0x1bu8) as u8)) as u8
}

/// Multiplication by 3 in GF(2^8); `mul9` to `mul14` likewise.
pub open spec fn mul3(b: u8) -> u8 {
    (xtime(b) ^ b) as u8
}

pub open spec fn mul9(b: u8) -> u8 {
    (xtime(xtime(xtime(b))) ^ b) as u8
}

pub open spec fn mul11(b: u8) -> u8 {
    (xtime(xtime(xtime(b))) ^ xtime(b) ^ b) as u8
}

pub open spec fn mul13(b: u8) -> u8 {
    (xtime(xtime(xtime(b))) ^ xtime(xtime(b)) ^ b) as u8
}

pub open spec fn mul14(b: u8) -> u8 {
    (xtime(xtime(xtime(b))) ^ xtime(xtime(b)) ^ xtime(b)) as u8
}

/// First row of MixColumns on the column `(a0, a1, a2, a3)`; row `r` is this
/// function on the column rotated up by `r`.
#[verifier::opaque]
pub open spec fn mix_byte(a0: u8, a1: u8, a2: u8, a3: u8) -> u8 {
    (xtime(a0) ^ mul3(a1) ^ a2 ^ a3) as u8
}

/// First row of InvMixColumns, rotated for the other rows as in `mix_byte`.
#[verifier::opaque]
pub open spec fn inv_mix_byte(a0: u8, a1: u8, a2: u8, a3: u8) -> u8 {
    (mul14(a0) ^ mul11(a1) ^ mul13(a2) ^ mul9(a3)) as u8
}

// ---------------------------------------------------------------------------
// States and round functions

/// ShiftRows: byte `i` of the result is byte `shift_src(i)` of the input.
pub open spec fn shift_src(i: int) -> int {
    if i == 0 { 0 } else if i == 1 { 5 } else if i == 2 { 10 } else if i == 3 { 15 }
    else if i == 4 { 4 } else if i == 5 { 9 } else if i == 6 { 14 } else if i == 7 { 3 }
    else if i == 8 { 8 } else if i == 9 { 13 } else if i == 10 { 2 } else if i == 11 { 7 }
    else if i == 12 { 12 } else if i == 13 { 1 } else if i == 14 { 6 } else { 11 }
}

/// InvShiftRows: byte `i` of the result is byte `inv_shift_src(i)` of the input.
pub open spec fn inv_shift_src(i: int) -> int {
    if i == 0 { 0 } else if i == 1 { 13 } else if i == 2 { 10 } else if i == 3 { 7 }
    else if i == 4 { 4 } else if i == 5 { 1 } else if i == 6 { 14 } else if i == 7 { 11 }
    else if i == 8 { 8 } else if i == 9 { 5 } else if i == 10 { 2 } else if i == 11 { 15 }
    else if i == 12 { 12 } else if i == 13 { 9 } else if i == 14 { 6 } else { 3 }
}

pub open spec fn xor_block(a: Seq<u8>, b: Seq<u8>) -> Seq<u8> {
    Seq::new(16, |i: int| (a[i] ^ b[i]) as u8)
}

pub open spec fn sub_bytes(s: Seq<u8>) -> Seq<u8> {
    Seq::new(16, |i: int| sbox(s[i]))
}

pub open spec fn inv_sub_bytes(s: Seq<u8>) -> Seq<u8> {
    Seq::new(16, |i: int| inv_sbox(s[i]))
}

pub open spec fn shift_rows(s: Seq<u8>) -> Seq<u8> {
    Seq::new(16, |i: int| s[shift_src(i)])
}

pub open spec fn inv_shift_rows(s: Seq<u8>) -> Seq<u8> {
    Seq::new(16, |i: int| s[inv_shift_src(i)])
}

/// Byte `i` of MixColumns: its column, rotated so that row `i % 4` comes first.
pub open spec fn mix_at(s: Seq<u8>, i: int) -> u8 {
    let c = i - i % 4;
    if i % 4 == 0 {
        mix_byte(s[c], s[c + 1], s[c + 2], s[c + 3])
    } else if i % 4 == 1 {
        mix_byte(s[c + 1], s[c + 2], s[c + 3], s[c])
    } else if i % 4 == 2 {
        mix_byte(s[c + 2], s[c + 3], s[c], s[c + 1])
    } else {
        mix_byte(s[c + 3], s[c], s[c + 1], s[c + 2])
    }
}

pub open spec fn inv_mix_at(s: Seq<u8>, i: int) -> u8 {
    let c = i - i % 4;
    if i % 4 == 0 {
        inv_mix_byte(s[c], s[c + 1], s[c + 2], s[c + 3])
    } else if i % 4 == 1 {
        inv_mix_byte(s[c + 1], s[c + 2], s[c + 3], s[c])
    } else if i % 4 == 2 {
        inv_mix_byte(s[c + 2], s[c + 3], s[c], s[c + 1])
    } else {
        inv_mix_byte(s[c + 3], s[c], s[c + 1], s[c + 2])
    }
}

pub open spec fn mix_columns(s: Seq<u8>) -> Seq<u8> {
    Seq::new(16, |i: int| mix_at(s, i))
}

pub open spec fn inv_mix_columns(s: Seq<u8>) -> Seq<u8> {
    Seq::new(16, |i: int| inv_mix_at(s, i))
}

/// One middle encryption round, as `aesenc` computes it.
pub open spec fn enc_round(s: Seq<u8>, k: Seq<u8>) -> Seq<u8> {
    xor_block(mix_columns(shift_rows(sub_bytes(s))), k)
}

/// The last encryption round, as `aesenclast` computes it.
pub open spec fn enc_last_round(s: Seq<u8>, k: Seq<u8>) -> Seq<u8> {
    xor_block(shift_rows(sub_bytes(s)), k)
}

/// One middle decryption round, as `aesdec` computes it.
pub open spec fn dec_round(s: Seq<u8>, k: Seq<u8>) -> Seq<u8> {
    xor_block(inv_mix_columns(inv_shift_rows(inv_sub_bytes(s))), k)
}

/// The last decryption round, as `aesdeclast` computes it.
pub open spec fn dec_last_round(s: Seq<u8>, k: Seq<u8>) -> Seq<u8> {
    xor_block(inv_shift_rows(inv_sub_bytes(s)), k)
}

// ---------------------------------------------------------------------------
// Whole-block AES

/// The round keys as a sequence of byte sequences.
pub open spec fn keys_view(keys: ExpandedKeys) -> Seq<Seq<u8>> {
    Seq::new(11, |i: int| keys[i]@)
}

/// The state after the initial key addition and `r` middle encryption rounds.
pub open spec fn enc_rounds(keys: Seq<Seq<u8>>, s: Seq<u8>, r: nat) -> Seq<u8>
    decreases r,
{
    if r == 0 {
        xor_block(s, keys[0])
    } else {
        enc_round(enc_rounds(keys, s, (r - 1) as nat), keys[r as int])
    }
}

/// The state after the initial key addition and `r` middle decryption rounds.
pub open spec fn dec_rounds(keys: Seq<Seq<u8>>, s: Seq<u8>, r: nat) -> Seq<u8>
    decreases r,
{
    if r == 0 {
        xor_block(s, keys[10])
    } else {
        dec_round(dec_rounds(keys, s, (r - 1) as nat), keys[10 - r])
    }
}

/// One AES-128 encryption of a block: `AddRoundKey(k0)`, `aesenc` with `k1..k9`,
/// `aesenclast` with `k10`.
pub open spec fn aes_encrypt(keys: Seq<Seq<u8>>, s: Seq<u8>) -> Seq<u8> {
    enc_last_round(enc_rounds(keys, s, 9), keys[10])
}

/// One AES-128 decryption with an equivalent-inverse schedule: `AddRoundKey(k10)`,
/// `aesdec` with `k9..k1`, `aesdeclast` with `k0`.
pub open spec fn aes_decrypt(keys: Seq<Seq<u8>>, s: Seq<u8>) -> Seq<u8> {
    dec_last_round(dec_rounds(keys, s, 9), keys[0])
}

/// `n` chained encryptions of one block.
pub open spec fn aes_encrypt_n(keys: Seq<Seq<u8>>, s: Seq<u8>, n: nat) -> Seq<u8>
    decreases n,
{
    if n == 0 {
        s
    } else {
        aes_encrypt(keys, aes_encrypt_n(keys, s, (n - 1) as nat))
    }
}

/// `n` chained decryptions of one block.
pub open spec fn aes_decrypt_n(keys: Seq<Seq<u8>>, s: Seq<u8>, n: nat) -> Seq<u8>
    decreases n,
{
    if n == 0 {
        s
    } else {
        aes_decrypt(keys, aes_decrypt_n(keys, s, (n - 1) as nat))
    }
}

// ---------------------------------------------------------------------------
// Executable rounds

#[inline(always)]
fn xtime_exec(b: u8) -> (r: u8)
    ensures
        r == xtime(b),
{
    let hi: u8 = b >> 7u8;
    assert(hi <= 1) by (bit_vector)
        requires
            hi == b >> 7u8,
    ;
    (b << 1u8) ^ (hi * 0x1bu8)
}

#[inline(always)]
fn inv_mix_byte_exec(a0: u8, a1: u8, a2: u8, a3: u8) -> (r: u8)
    ensures
        r == inv_mix_byte(a0, a1, a2, a3),
{
    reveal(inv_mix_byte);
    let x0 = xtime_exec(a0);
    let y0 = xtime_exec(x0);
    let z0 = xtime_exec(y0);
    let x1 = xtime_exec(a1);
    let z1 = xtime_exec(xtime_exec(x1));
    let y2 = xtime_exec(xtime_exec(a2));
    let z2 = xtime_exec(y2);
    let z3 = xtime_exec(xtime_exec(xtime_exec(a3)));
    (z0 ^ y0 ^ x0) ^ (z1 ^ x1 ^ a1) ^ (z2 ^ y2 ^ a2) ^ (z3 ^ a3)
}

#[inline(always)]
fn xor_blocks(a: &Block, b: &Block) -> (r: Block)
    ensures
        r@ == xor_block(a@, b@),
{
    let r: Block = [
        a[0] ^ b[0], a[1] ^ b[1], a[2] ^ b[2], a[3] ^ b[3],
        a[4] ^ b[4], a[5] ^ b[5], a[6] ^ b[6], a[7] ^ b[7],
        a[8] ^ b[8], a[9] ^ b[9], a[10] ^ b[10], a[11] ^ b[11],
        a[12] ^ b[12], a[13] ^ b[13], a[14] ^ b[14], a[15] ^ b[15],
    ];
    assert(r@ =~= xor_block(a@, b@));
    r
}

/// SubBytes followed by ShiftRows.
#[inline(always)]
fn sub_shift(s: &Block) -> (r: Block)
    ensures
        r@ == shift_rows(sub_bytes(s@)),
{
    let r: Block = [
        sub_byte(s[0]), sub_byte(s[5]), sub_byte(s[10]), sub_byte(s[15]),
        sub_byte(s[4]), sub_byte(s[9]), sub_byte(s[14]), sub_byte(s[3]),
        sub_byte(s[8]), sub_byte(s[13]), sub_byte(s[2]), sub_byte(s[7]),
        sub_byte(s[12]), sub_byte(s[1]), sub_byte(s[6]), sub_byte(s[11]),
    ];
    assert(r@ =~= shift_rows(sub_bytes(s@)));
    r
}

/// InvSubBytes followed by InvShiftRows.
#[inline(always)]
fn inv_sub_shift(s: &Block) -> (r: Block)
    ensures
        r@ == inv_shift_rows(inv_sub_bytes(s@)),
{
    let r: Block = [
        inv_sub_byte(s[0]), inv_sub_byte(s[13]), inv_sub_byte(s[10]), inv_sub_byte(s[7]),
        inv_sub_byte(s[4]), inv_sub_byte(s[1]), inv_sub_byte(s[14]), inv_sub_byte(s[11]),
        inv_sub_byte(s[8]), inv_sub_byte(s[5]), inv_sub_byte(s[2]), inv_sub_byte(s[15]),
        inv_sub_byte(s[12]), inv_sub_byte(s[9]), inv_sub_byte(s[6]), inv_sub_byte(s[3]),
    ];
    assert(r@ =~= inv_shift_rows(inv_sub_bytes(s@)));
    r
}

#[inline(always)]
fn inv_mix_columns_exec(s: &Block) -> (r: Block)
    ensures
        r@ == inv_mix_columns(s@),
{
    let mut r: Block = [0u8; 16];
    for c in 0..4
        invariant
            forall|j: int| 0 <= j < 4 * c ==> r[j] == inv_mix_at(s@, j),
    {
        let o = 4 * c;
        let (a0, a1, a2, a3) = (s[o], s[o + 1], s[o + 2], s[o + 3]);
        r[o] = inv_mix_byte_exec(a0, a1, a2, a3);
        r[o + 1] = inv_mix_byte_exec(a1, a2, a3, a0);
        r[o + 2] = inv_mix_byte_exec(a2, a3, a0, a1);
        r[o + 3] = inv_mix_byte_exec(a3, a0, a1, a2);
    }
    assert(r@ =~= inv_mix_columns(s@));
    r
}

/// `aesenclast`: the last encryption round.
#[inline(always)]
fn aesenclast(s: &Block, k: &Block) -> (r: Block)
    ensures
        r@ == enc_last_round(s@, k@),
{
    let t = sub_shift(s);
    xor_blocks(&t, k)
}

/// `aesdeclast`: the last decryption round.
#[inline(always)]
fn aesdeclast(s: &Block, k: &Block) -> (r: Block)
    ensures
        r@ == dec_last_round(s@, k@),
{
    let t = inv_sub_shift(s);
    xor_blocks(&t, k)
}

/// Lookup tables for a table-driven encryption round: the S-box, and the S-box
/// multiplied by 2 and by 3.
pub struct EncTables {
    s1: [u8; 256],
    s2: [u8; 256],
    s3: [u8; 256],
}

impl EncTables {
    /// Each entry is the product that names its table.
    pub closed spec fn wf(&self) -> bool {
        &&& forall|i: int| 0 <= i < 256 ==> #[trigger] self.s1[i] == sbox(i as u8)
        &&& forall|i: int| 0 <= i < 256 ==> #[trigger] self.s2[i] == xtime(sbox(i as u8))
        &&& forall|i: int| 0 <= i < 256 ==> #[trigger] self.s3[i] == mul3(sbox(i as u8))
    }

    /// Fills the tables.
    pub fn new() -> (r: Self)
        ensures
            r.wf(),
    {
        let mut s1: [u8; 256] = [0u8; 256];
        let mut s2: [u8; 256] = [0u8; 256];
        let mut s3: [u8; 256] = [0u8; 256];
        let mut i: usize = 0;
        while i < 256
            invariant
                i <= 256,
                forall|j: int| 0 <= j < i ==> #[trigger] s1[j] == sbox(j as u8),
                forall|j: int| 0 <= j < i ==> #[trigger] s2[j] == xtime(sbox(j as u8)),
                forall|j: int| 0 <= j < i ==> #[trigger] s3[j] == mul3(sbox(j as u8)),
            decreases 256 - i,
        {
            let v = sub_byte(i as u8);
            let v2 = xtime_exec(v);
            s1[i] = v;
            s2[i] = v2;
            s3[i] = v2 ^ v;
            i = i + 1;
        }
        EncTables { s1, s2, s3 }
    }
}

/// One byte of a middle encryption round: MixColumns over the substituted
/// column `(x0, x1, x2, x3)`, then the key byte.
#[inline(always)]
fn enc_byte(t: &EncTables, x0: u8, x1: u8, x2: u8, x3: u8, k: u8) -> (r: u8)
    requires
        t.wf(),
    ensures
        r == (mix_byte(sbox(x0), sbox(x1), sbox(x2), sbox(x3)) ^ k) as u8,
{
    proof {
        reveal(mix_byte);
        assert(t.s2[x0 as int] == xtime(sbox(x0)));
        assert(t.s3[x1 as int] == mul3(sbox(x1)));
        assert(t.s1[x2 as int] == sbox(x2));
        assert(t.s1[x3 as int] == sbox(x3));
    }
    t.s2[x0 as usize] ^ t.s3[x1 as usize] ^ t.s1[x2 as usize] ^ t.s1[x3 as usize] ^ k
}

/// `aesenc` by table lookups.
fn aesenc_tables(t: &EncTables, s: &Block, k: &Block) -> (r: Block)
    requires
        t.wf(),
    ensures
        r@ == enc_round(s@, k@),
{
    let r: Block = [
        enc_byte(t, s[0], s[5], s[10], s[15], k[0]),
        enc_byte(t, s[5], s[10], s[15], s[0], k[1]),
        enc_byte(t, s[10], s[15], s[0], s[5], k[2]),
        enc_byte(t, s[15], s[0], s[5], s[10], k[3]),
        enc_byte(t, s[4], s[9], s[14], s[3], k[4]),
        enc_byte(t, s[9], s[14], s[3], s[4], k[5]),
        enc_byte(t, s[14], s[3], s[4], s[9], k[6]),
        enc_byte(t, s[3], s[4], s[9], s[14], k[7]),
        enc_byte(t, s[8], s[13], s[2], s[7], k[8]),
        enc_byte(t, s[13], s[2], s[7], s[8], k[9]),
        enc_byte(t, s[2], s[7], s[8], s[13], k[10]),
        enc_byte(t, s[7], s[8], s[13], s[2], k[11]),
        enc_byte(t, s[12], s[1], s[6], s[11], k[12]),
        enc_byte(t, s[1], s[6], s[11], s[12], k[13]),
        enc_byte(t, s[6], s[11], s[12], s[1], k[14]),
        enc_byte(t, s[11], s[12], s[1], s[6], k[15]),
    ];
    assert(r@ =~= enc_round(s@, k@));
    r
}

/// One AES-128 encryption of a block under the forward schedule `keys`.
pub fn encrypt_block(keys: &ExpandedKeys, s: &Block) -> (r: Block)
    ensures
        r@ == aes_encrypt(keys_view(*keys), s@),
{
    let t = EncTables::new();
    encrypt_block_with(&t, keys, s)
}

fn encrypt_block_with(t: &EncTables, keys: &ExpandedKeys, s: &Block) -> (r: Block)
    requires
        t.wf(),
    ensures
        r@ == aes_encrypt(keys_view(*keys), s@),
{
    let ghost kv = keys_view(*keys);
    let mut st = xor_blocks(s, &keys[0]);
    assert(st@ == enc_rounds(kv, s@, 0));
    let mut r: usize = 1;
    while r < 10
        invariant
            1 <= r <= 10,
            t.wf(),
            kv == keys_view(*keys),
            st@ == enc_rounds(kv, s@, (r - 1) as nat),
        decreases 10 - r,
    {
        st = aesenc_tables(t, &st, &keys[r]);
        r = r + 1;
    }
    aesenclast(&st, &keys[10])
}

/// Lookup tables for a table-driven decryption round: the inverse S-box
/// multiplied by 9, 11, 13 and 14.
pub struct DecTables {
    s9: [u8; 256],
    s11: [u8; 256],
    s13: [u8; 256],
    s14: [u8; 256],
}

impl DecTables {
    /// Each entry is the product that names its table.
    pub closed spec fn wf(&self) -> bool {
        &&& forall|i: int| 0 <= i < 256 ==> #[trigger] self.s9[i] == mul9(inv_sbox(i as u8))
        &&& forall|i: int| 0 <= i < 256 ==> #[trigger] self.s11[i] == mul11(inv_sbox(i as u8))
        &&& forall|i: int| 0 <= i < 256 ==> #[trigger] self.s13[i] == mul13(inv_sbox(i as u8))
        &&& forall|i: int| 0 <= i < 256 ==> #[trigger] self.s14[i] == mul14(inv_sbox(i as u8))
    }

    /// Fills the tables.
    pub fn new() -> (r: Self)
        ensures
            r.wf(),
    {
        let mut s9: [u8; 256] = [0u8; 256];
        let mut s11: [u8; 256] = [0u8; 256];
        let mut s13: [u8; 256] = [0u8; 256];
        let mut s14: [u8; 256] = [0u8; 256];
        let mut i: usize = 0;
        while i < 256
            invariant
                i <= 256,
                forall|j: int| 0 <= j < i ==> #[trigger] s9[j] == mul9(inv_sbox(j as u8)),
                forall|j: int| 0 <= j < i ==> #[trigger] s11[j] == mul11(inv_sbox(j as u8)),
                forall|j: int| 0 <= j < i ==> #[trigger] s13[j] == mul13(inv_sbox(j as u8)),
                forall|j: int| 0 <= j < i ==> #[trigger] s14[j] == mul14(inv_sbox(j as u8)),
            decreases 256 - i,
        {
            let v = inv_sub_byte(i as u8);
            let v2 = xtime_exec(v);
            let v4 = xtime_exec(v2);
            let v8 = xtime_exec(v4);
            s9[i] = v8 ^ v;
            s11[i] = v8 ^ v2 ^ v;
            s13[i] = v8 ^ v4 ^ v;
            s14[i] = v8 ^ v4 ^ v2;
            i = i + 1;
        }
        DecTables { s9, s11, s13, s14 }
    }
}

/// One byte of a middle decryption round: InvMixColumns over the
/// inverse-substituted column `(x0, x1, x2, x3)`, then the key byte.
#[inline(always)]
fn dec_byte(t: &DecTables, x0: u8, x1: u8, x2: u8, x3: u8, k: u8) -> (r: u8)
    requires
        t.wf(),
    ensures
        r == (inv_mix_byte(inv_sbox(x0), inv_sbox(x1), inv_sbox(x2), inv_sbox(x3)) ^ k) as u8,
{
    proof {
        reveal(inv_mix_byte);
        assert(t.s14[x0 as int] == mul14(inv_sbox(x0)));
        assert(t.s11[x1 as int] == mul11(inv_sbox(x1)));
        assert(t.s13[x2 as int] == mul13(inv_sbox(x2)));
        assert(t.s9[x3 as int] == mul9(inv_sbox(x3)));
    }
    t.s14[x0 as usize] ^ t.s11[x1 as usize] ^ t.s13[x2 as usize] ^ t.s9[x3 as usize] ^ k
}

/// `aesdec` by table lookups.
fn aesdec_tables(t: &DecTables, s: &Block, k: &Block) -> (r: Block)
    requires
        t.wf(),
    ensures
        r@ == dec_round(s@, k@),
{
    let r: Block = [
        dec_byte(t, s[0], s[13], s[10], s[7], k[0]),
        dec_byte(t, s[13], s[10], s[7], s[0], k[1]),
        dec_byte(t, s[10], s[7], s[0], s[13], k[2]),
        dec_byte(t, s[7], s[0], s[13], s[10], k[3]),
        dec_byte(t, s[4], s[1], s[14], s[11], k[4]),
        dec_byte(t, s[1], s[14], s[11], s[4], k[5]),
        dec_byte(t, s[14], s[11], s[4], s[1], k[6]),
        dec_byte(t, s[11], s[4], s[1], s[14], k[7]),
        dec_byte(t, s[8], s[5], s[2], s[15], k[8]),
        dec_byte(t, s[5], s[2], s[15], s[8], k[9]),
        dec_byte(t, s[2], s[15], s[8], s[5], k[10]),
        dec_byte(t, s[15], s[8], s[5], s[2], k[11]),
        dec_byte(t, s[12], s[9], s[6], s[3], k[12]),
        dec_byte(t, s[9], s[6], s[3], s[12], k[13]),
        dec_byte(t, s[6], s[3], s[12], s[9], k[14]),
        dec_byte(t, s[3], s[12], s[9], s[6], k[15]),
    ];
    assert(r@ =~= dec_round(s@, k@));
    r
}

/// One AES-128 decryption of a block under the equivalent-inverse schedule `keys`.
pub fn decrypt_block(keys: &ExpandedKeys, s: &Block) -> (r: Block)
    ensures
        r@ == aes_decrypt(keys_view(*keys), s@),
{
    let t = DecTables::new();
    decrypt_block_with(&t, keys, s)
}

fn decrypt_block_with(t: &DecTables, keys: &ExpandedKeys, s: &Block) -> (r: Block)
    requires
        t.wf(),
    ensures
        r@ == aes_decrypt(keys_view(*keys), s@),
{
    let ghost kv = keys_view(*keys);
    let mut st = xor_blocks(s, &keys[10]);
    assert(st@ == dec_rounds(kv, s@, 0));
    let mut r: usize = 1;
    while r < 10
        invariant
            1 <= r <= 10,
            t.wf(),
            kv == keys_view(*keys),
            st@ == dec_rounds(kv, s@, (r - 1) as nat),
        decreases 10 - r,
    {
        st = aesdec_tables(t, &st, &keys[10 - r]);
        r = r + 1;
    }
    aesdeclast(&st, &keys[0])
}

/// `n` chained encryptions of one block.
fn encrypt_block_n(keys: &ExpandedKeys, s: &Block, n: usize) -> (r: Block)
    ensures
        r@ == aes_encrypt_n(keys_view(*keys), s@, n as nat),
{
    let t = EncTables::new();
    let mut st: Block = *s;
    for i in 0..n
        invariant
            t.wf(),
            st@ == aes_encrypt_n(keys_view(*keys), s@, i as nat),
    {
        st = encrypt_block_with(&t, keys, &st);
    }
    st
}

/// `n` chained decryptions of one block.
fn decrypt_block_n(keys: &ExpandedKeys, s: &Block, n: usize) -> (r: Block)
    ensures
        r@ == aes_decrypt_n(keys_view(*keys), s@, n as nat),
{
    let t = DecTables::new();
    let mut st: Block = *s;
    for i in 0..n
        invariant
            t.wf(),
            st@ == aes_decrypt_n(keys_view(*keys), s@, i as nat),
    {
        st = decrypt_block_with(&t, keys, &st);
    }
    st
}

// ---------------------------------------------------------------------------
// Pipelined operations

/// Encodes four lanes: each block is XORed with its feedback once, then
/// encrypted `aes_iterations` times.
pub fn por_encode_pipelined_x4_low_level(
    keys_reg: &ExpandedKeys,
    blocks_reg: &mut [Block; 4],
    feedbacks_reg: &[Block; 4],
    aes_iterations: usize,
)
    ensures
        forall|l: int|
            0 <= l < 4 ==> #[trigger] final(blocks_reg)[l]@ == aes_encrypt_n(
                keys_view(*keys_reg),
                xor_block(old(blocks_reg)[l]@, feedbacks_reg[l]@),
                aes_iterations as nat,
            ),
{
    let ghost start = *blocks_reg;
    for l in 0..4
        invariant
            forall|m: int|
                0 <= m < l ==> #[trigger] blocks_reg[m]@ == aes_encrypt_n(
                    keys_view(*keys_reg),
                    xor_block(start[m]@, feedbacks_reg[m]@),
                    aes_iterations as nat,
                ),
            forall|m: int| l <= m < 4 ==> #[trigger] blocks_reg[m] == start[m],
    {
        let x = xor_blocks(&blocks_reg[l], &feedbacks_reg[l]);
        blocks_reg[l] = encrypt_block_n(keys_reg, &x, aes_iterations);
    }
}

/// Decodes four lanes: each block is decrypted `aes_iterations` times, then
/// XORed with its feedback.
pub fn por_decode_pipelined_x4_low_level(
    keys_reg: &ExpandedKeys,
    blocks_reg: &mut [Block; 4],
    feedbacks_reg: &[Block; 4],
    aes_iterations: usize,
)
    ensures
        forall|l: int|
            0 <= l < 4 ==> #[trigger] final(blocks_reg)[l]@ == xor_block(
                aes_decrypt_n(keys_view(*keys_reg), old(blocks_reg)[l]@, aes_iterations as nat),
                feedbacks_reg[l]@,
            ),
{
    let ghost start = *blocks_reg;
    for l in 0..4
        invariant
            forall|m: int|
                0 <= m < l ==> #[trigger] blocks_reg[m]@ == xor_block(
                    aes_decrypt_n(keys_view(*keys_reg), start[m]@, aes_iterations as nat),
                    feedbacks_reg[m]@,
                ),
            forall|m: int| l <= m < 4 ==> #[trigger] blocks_reg[m] == start[m],
    {
        let d = decrypt_block_n(keys_reg, &blocks_reg[l], aes_iterations);
        blocks_reg[l] = xor_blocks(&d, &feedbacks_reg[l]);
    }
}

/// One proof-of-time segment: `inner_iterations` chained encryptions of one block.
pub fn pot_prove_low_level(keys_reg: &ExpandedKeys, block_reg: &Block, inner_iterations: usize) -> (r:
    Block)
    ensures
        r@ == aes_encrypt_n(keys_view(*keys_reg), block_reg@, inner_iterations as nat),
{
    encrypt_block_n(keys_reg, block_reg, inner_iterations)
}

/// Checks four proof-of-time segments at once: true exactly when every block,
/// decrypted `aes_iterations` times, equals its expected block.
pub fn pot_verify_pipelined_x4_low_level(
    keys_reg: &ExpandedKeys,
    expected_reg: &[Block; 4],
    blocks_reg: &[Block; 4],
    aes_iterations: usize,
) -> (r: bool)
    ensures
        r == (forall|l: int|
            0 <= l < 4 ==> #[trigger] aes_decrypt_n(
                keys_view(*keys_reg),
                blocks_reg[l]@,
                aes_iterations as nat,
            ) == expected_reg[l]@),
{
    let mut all_equal = true;
    for l in 0..4
        invariant
            all_equal == (forall|m: int|
                0 <= m < l ==> #[trigger] aes_decrypt_n(
                    keys_view(*keys_reg),
                    blocks_reg[m]@,
                    aes_iterations as nat,
                ) == expected_reg[m]@),
    {
        let d = decrypt_block_n(keys_reg, &blocks_reg[l], aes_iterations);
        let same = blocks_equal(&d, &expected_reg[l]);
        all_equal = all_equal && same;
    }
    all_equal
}

fn blocks_equal(a: &Block, b: &Block) -> (r: bool)
    ensures
        r == (a@ == b@),
{
    for i in 0..16
        invariant
            forall|j: int| 0 <= j < i ==> a[j] == b[j],
    {
        if a[i] != b[i] {
            return false;
        }
    }
    assert(a@ =~= b@);
    true
}

// ---------------------------------------------------------------------------
// Key schedule

/// Round constant of round `r` (1 to 10).
pub open spec fn rcon(r: int) -> u8 {
    if r == 1 { 0x01u8 } else if r == 2 { 0x02u8 } else if r == 3 { 0x04u8 }
    else if r == 4 { 0x08u8 } else if r == 5 { 0x10u8 } else if r == 6 { 0x20u8 }
    else if r == 7 { 0x40u8 } else if r == 8 { 0x80u8 } else if r == 9 { 0x1bu8 }
    else { 0x36u8 }
}

/// `SubWord(RotWord(w3)) ^ rcon`, where `w3` is the last word of `p`.
pub open spec fn schedule_temp(p: Seq<u8>, rc: u8, i: int) -> u8 {
    if i == 0 {
        (sbox(p[13]) ^ rc) as u8
    } else if i == 1 {
        sbox(p[14])
    } else if i == 2 {
        sbox(p[15])
    } else {
        sbox(p[12])
    }
}

/// Byte `i` of the round key that follows `p`: each word is the word above it
/// XORed with the word before it, the first word with the transformed last word.
pub open spec fn next_key_byte(p: Seq<u8>, rc: u8, i: int) -> u8
    decreases i,
{
    if i < 4 {
        (p[i] ^ schedule_temp(p, rc, i)) as u8
    } else {
        (p[i] ^ next_key_byte(p, rc, i - 4)) as u8
    }
}

pub open spec fn next_round_key(p: Seq<u8>, rc: u8) -> Seq<u8> {
    Seq::new(16, |i: int| next_key_byte(p, rc, i))
}

/// Round key `r` of the standard AES-128 key expansion of `key`.
pub open spec fn round_key(key: Seq<u8>, r: nat) -> Seq<u8>
    decreases r,
{
    if r == 0 {
        key
    } else {
        next_round_key(round_key(key, (r - 1) as nat), rcon(r as int))
    }
}

/// The forward schedule: round keys 0 to 10.
pub open spec fn expand_enc(key: Seq<u8>) -> Seq<Seq<u8>> {
    Seq::new(11, |r: int| round_key(key, r as nat))
}

/// The equivalent-inverse form of a forward schedule, laid out for a decryption
/// that starts from key 10: keys 0 and 10 as they are, keys 1 to 9 with
/// InvMixColumns applied.
pub open spec fn inverse_schedule(enc: Seq<Seq<u8>>) -> Seq<Seq<u8>> {
    Seq::new(11, |r: int| if r == 0 || r == 10 { enc[r] } else { inv_mix_columns(enc[r]) })
}

fn next_round_key_exec(p: &Block, rc: u8) -> (r: Block)
    ensures
        r@ == next_round_key(p@, rc),
{
    let t: [u8; 4] = [sub_byte(p[13]) ^ rc, sub_byte(p[14]), sub_byte(p[15]), sub_byte(p[12])];
    let mut r: Block = [0u8; 16];
    for i in 0..16
        invariant
            forall|j: int| 0 <= j < i ==> r[j] == next_key_byte(p@, rc, j),
            t@ == seq![schedule_temp(p@, rc, 0), schedule_temp(p@, rc, 1), schedule_temp(p@, rc, 2), schedule_temp(p@, rc, 3)],
    {
        if i < 4 {
            r[i] = p[i] ^ t[i];
        } else {
            r[i] = p[i] ^ r[i - 4];
        }
    }
    assert(r@ =~= next_round_key(p@, rc));
    r
}

/// Derives the forward and the equivalent-inverse round keys from a key.
pub fn expand(key: &Block) -> (r: (ExpandedKeys, ExpandedKeys))
    ensures
        keys_view(r.0) == expand_enc(key@),
        keys_view(r.1) == inverse_schedule(expand_enc(key@)),
{
    let rcons: [u8; 10] = [0x01, 0x02, 0x04, 0x08, 0x10, 0x20, 0x40, 0x80, 0x1b, 0x36];
    let mut enc: ExpandedKeys = [*key; 11];
    for r in 1..11
        invariant
            forall|j: int| 0 <= j < r ==> #[trigger] enc[j]@ == round_key(key@, j as nat),
            forall|j: int| 1 <= j <= 10 ==> #[trigger] rcons[j - 1] == rcon(j),
    {
        enc[r] = next_round_key_exec(&enc[r - 1], rcons[r - 1]);
    }
    assert(keys_view(enc) =~= expand_enc(key@));
    let mut dec: ExpandedKeys = enc;
    for r in 1..10
        invariant
            keys_view(enc) == expand_enc(key@),
            dec[0] == enc[0],
            dec[10] == enc[10],
            forall|j: int| 1 <= j < r ==> #[trigger] dec[j]@ == inv_mix_columns(enc[j]@),
    {
        dec[r] = inv_mix_columns_exec(&enc[r]);
    }
    assert(keys_view(dec) =~= inverse_schedule(expand_enc(key@)));
    (enc, dec)
}

} // verus!
