//! The proof-of-time prover and the pipelined verifier.

use vstd::prelude::*;

use crate::aes_low_level::aes_ni::{
    aes_decrypt_n, aes_encrypt_n, expand_enc, inverse_schedule, keys_view, pot_prove_low_level,
    pot_verify_pipelined_x4_low_level, ExpandedKeys,
};
use crate::aes_low_level::inverse::{
    lemma_decrypt_encrypt_n, lemma_encrypt_decrypt_n, lemma_encrypt_n_len, lemma_expand_wf,
    schedule_wf,
};
use crate::Block;

verus! {

/// Checkpoint `i` of an honest proof: the seed for `i == 0`, else checkpoint
/// `i - 1` encrypted `seg` times.
pub open spec fn checkpoint(keys: Seq<Seq<u8>>, seed: Seq<u8>, seg: nat, i: nat) -> Seq<u8>
    decreases i,
{
    if i == 0 {
        seed
    } else {
        aes_encrypt_n(keys, checkpoint(keys, seed, seg, (i - 1) as nat), seg)
    }
}

/// The honest proof of `p` checkpoints.
pub open spec fn honest_proof(keys: Seq<Seq<u8>>, seed: Seq<u8>, seg: nat, p: nat) -> Seq<Seq<u8>> {
    Seq::new(p, |i: int| checkpoint(keys, seed, seg, (i + 1) as nat))
}

/// The checkpoint before checkpoint `i` of `proof`: the seed before the first.
pub open spec fn predecessor(proof: Seq<Seq<u8>>, seed: Seq<u8>, i: int) -> Seq<u8> {
    if i == 0 {
        seed
    } else {
        proof[i - 1]
    }
}

/// Every checkpoint, decrypted `seg` times under `dec_keys`, is its predecessor.
pub open spec fn proof_valid(dec_keys: Seq<Seq<u8>>, proof: Seq<Seq<u8>>, seed: Seq<u8>, seg: nat) -> bool {
    forall|i: int|
        0 <= i < proof.len() ==> #[trigger] aes_decrypt_n(dec_keys, proof[i], seg) == predecessor(
            proof,
            seed,
            i,
        )
}

/// The blocks of a proof as byte sequences.
pub open spec fn proof_view(proof: Seq<Block>) -> Seq<Seq<u8>> {
    Seq::new(proof.len(), |i: int| proof[i]@)
}

/// Proves `aes_iterations` sequential encryptions of `seed`, split into
/// `verifier_parallelism` equal segments; the proof is the end of each segment.
pub fn prove(seed: &Block, keys: &ExpandedKeys, aes_iterations: usize, verifier_parallelism: usize) -> (r: Vec<Block>)
    requires
        verifier_parallelism >= 1,
        aes_iterations % verifier_parallelism == 0,
    ensures
        proof_view(r@) == honest_proof(
            keys_view(*keys),
            seed@,
            (aes_iterations / verifier_parallelism) as nat,
            verifier_parallelism as nat,
        ),
{
    let ghost kv = keys_view(*keys);
    let seg = aes_iterations / verifier_parallelism;
    let mut proof: Vec<Block> = Vec::new();
    let mut current: Block = *seed;
    let mut i: usize = 0;
    while i < verifier_parallelism
        invariant
            i <= verifier_parallelism,
            kv == keys_view(*keys),
            proof.len() == i,
            current@ == checkpoint(kv, seed@, seg as nat, i as nat),
            forall|j: int| 0 <= j < i ==> #[trigger] proof[j]@ == checkpoint(kv, seed@, seg as nat, (j + 1) as nat),
        decreases verifier_parallelism - i,
    {
        current = pot_prove_low_level(keys, &current, seg);
        proof.push(current);
        i = i + 1;
    }
    assert(proof_view(proof@) =~= honest_proof(kv, seed@, seg as nat, verifier_parallelism as nat));
    proof
}

/// Checkpoints `lo` up to `hi` (exclusive) decrypt to their predecessors.
pub open spec fn range_valid(dec_keys: Seq<Seq<u8>>, proof: Seq<Seq<u8>>, seed: Seq<u8>, seg: nat, lo: int, hi: int) -> bool {
    forall|j: int|
        lo <= j < hi ==> #[trigger] aes_decrypt_n(dec_keys, proof[j], seg) == predecessor(proof, seed, j)
}

/// Verifies a proof with the inverse schedule.
pub fn verify(proof: &Vec<Block>, seed: &Block, keys: &ExpandedKeys, aes_iterations: usize) -> (r: bool)
    requires
        proof.len() >= 1,
        aes_iterations % proof.len() == 0,
    ensures
        r == proof_valid(keys_view(*keys), proof_view(proof@), seed@, (aes_iterations / proof.len()) as nat),
{
    verify_range(proof, seed, keys, aes_iterations, 0, proof.len())
}

/// Verifies checkpoints `start` up to `end` (exclusive) of a proof, four at a
/// time through the pipelined check; those left over are checked one by one.
pub fn verify_range(
    proof: &Vec<Block>,
    seed: &Block,
    keys: &ExpandedKeys,
    aes_iterations: usize,
    start: usize,
    end: usize,
) -> (r: bool)
    requires
        proof.len() >= 1,
        start <= end <= proof.len(),
    ensures
        r == range_valid(
            keys_view(*keys),
            proof_view(proof@),
            seed@,
            (aes_iterations / proof.len()) as nat,
            start as int,
            end as int,
        ),
{
    let ghost kv = keys_view(*keys);
    let ghost pv = proof_view(proof@);
    let p = proof.len();
    let seg = aes_iterations / p;
    let mut ok = true;
    let mut i: usize = start;
    while end - i >= 4
        invariant
            start <= i <= end,
            end <= p,
            p == proof.len(),
            kv == keys_view(*keys),
            pv == proof_view(proof@),
            ok == (forall|j: int|
                start <= j < i ==> #[trigger] aes_decrypt_n(kv, pv[j], seg as nat) == predecessor(pv, seed@, j)),
        decreases end - i,
    {
        let first = if i == 0 { *seed } else { proof[i - 1] };
        let expected: [Block; 4] = [first, proof[i], proof[i + 1], proof[i + 2]];
        let blocks: [Block; 4] = [proof[i], proof[i + 1], proof[i + 2], proof[i + 3]];
        let group = pot_verify_pipelined_x4_low_level(keys, &expected, &blocks, seg);
        proof {
            assert(blocks[0]@ == pv[i as int] && blocks[1]@ == pv[i + 1] && blocks[2]@ == pv[i + 2]
                && blocks[3]@ == pv[i + 3]);
            assert(expected[0]@ == predecessor(pv, seed@, i as int));
            assert(expected[1]@ == predecessor(pv, seed@, i + 1));
            assert(expected[2]@ == predecessor(pv, seed@, i + 2));
            assert(expected[3]@ == predecessor(pv, seed@, i + 3));
            if group {
                assert forall|j: int| i <= j < i + 4 implies #[trigger] aes_decrypt_n(kv, pv[j], seg as nat)
                    == predecessor(pv, seed@, j) by {
                    assert(aes_decrypt_n(kv, blocks[j - i]@, seg as nat) == expected[j - i]@);
                }
            } else {
                let l = choose|l: int| 0 <= l < 4 && aes_decrypt_n(kv, blocks[l]@, seg as nat) != expected[l]@;
                assert(aes_decrypt_n(kv, pv[i + l], seg as nat) != predecessor(pv, seed@, i + l));
            }
        }
        ok = ok && group;
        i = i + 4;
    }
    while i < end
        invariant
            start <= i <= end,
            end <= p,
            p == proof.len(),
            kv == keys_view(*keys),
            pv == proof_view(proof@),
            ok == (forall|j: int|
                start <= j < i ==> #[trigger] aes_decrypt_n(kv, pv[j], seg as nat) == predecessor(pv, seed@, j)),
        decreases end - i,
    {
        let first = if i == 0 { *seed } else { proof[i - 1] };
        let same = verify_one(keys, &first, &proof[i], seg);
        proof {
            assert(proof[i as int]@ == pv[i as int]);
        }
        ok = ok && same;
        i = i + 1;
    }
    ok
}

/// Checks one checkpoint against its predecessor.
fn verify_one(keys: &ExpandedKeys, expected: &Block, block: &Block, seg: usize) -> (r: bool)
    ensures
        r == (aes_decrypt_n(keys_view(*keys), block@, seg as nat) == expected@),
{
    let expected4: [Block; 4] = [*expected, *expected, *expected, *expected];
    let blocks4: [Block; 4] = [*block, *block, *block, *block];
    let r = pot_verify_pipelined_x4_low_level(keys, &expected4, &blocks4, seg);
    assert(blocks4[0] == *block && expected4[0] == *expected);
    r
}

proof fn lemma_checkpoint_len(keys: Seq<Seq<u8>>, seed: Seq<u8>, seg: nat, i: nat)
    requires
        seed.len() == 16,
    ensures
        checkpoint(keys, seed, seg, i).len() == 16,
    decreases i,
{
    if i > 0 {
        lemma_checkpoint_len(keys, seed, seg, (i - 1) as nat);
        lemma_encrypt_n_len(keys, checkpoint(keys, seed, seg, (i - 1) as nat), seg);
    }
}

/// Soundness: the honest proof for an identity passes the check under that
/// identity's inverse schedule.
pub proof fn lemma_pot_sound(id: Seq<u8>, seed: Seq<u8>, seg: nat, p: nat)
    requires
        id.len() == 16,
        seed.len() == 16,
    ensures
        proof_valid(
            inverse_schedule(expand_enc(id)),
            honest_proof(expand_enc(id), seed, seg, p),
            seed,
            seg,
        ),
{
    let keys = expand_enc(id);
    let proof = honest_proof(keys, seed, seg, p);
    lemma_expand_wf(id);
    assert forall|i: int| 0 <= i < proof.len() implies #[trigger] aes_decrypt_n(
        inverse_schedule(keys),
        proof[i],
        seg,
    ) == predecessor(proof, seed, i) by {
        lemma_checkpoint_len(keys, seed, seg, i as nat);
        lemma_decrypt_encrypt_n(keys, checkpoint(keys, seed, seg, i as nat), seg);
    }
}

/// Sensitivity: a proof of `p` checkpoints passes the check only if it is the
/// honest proof, so changing any bit of any checkpoint makes it fail.
pub proof fn lemma_pot_sensitive(id: Seq<u8>, seed: Seq<u8>, seg: nat, proof: Seq<Seq<u8>>)
    requires
        id.len() == 16,
        seed.len() == 16,
        forall|i: int| 0 <= i < proof.len() ==> (#[trigger] proof[i]).len() == 16,
        proof != honest_proof(expand_enc(id), seed, seg, proof.len()),
    ensures
        !proof_valid(inverse_schedule(expand_enc(id)), proof, seed, seg),
{
    let keys = expand_enc(id);
    let honest = honest_proof(keys, seed, seg, proof.len());
    lemma_expand_wf(id);
    if proof_valid(inverse_schedule(keys), proof, seed, seg) {
        assert forall|i: int| 0 <= i < proof.len() implies #[trigger] proof[i] == honest[i] by {
            lemma_valid_prefix_honest(keys, seed, seg, proof, i);
        }
        assert(proof =~= honest);
    }
}

proof fn lemma_valid_prefix_honest(keys: Seq<Seq<u8>>, seed: Seq<u8>, seg: nat, proof: Seq<Seq<u8>>, i: int)
    requires
        schedule_wf(keys),
        seed.len() == 16,
        forall|j: int| 0 <= j < proof.len() ==> (#[trigger] proof[j]).len() == 16,
        proof_valid(inverse_schedule(keys), proof, seed, seg),
        0 <= i < proof.len(),
    ensures
        proof[i] == checkpoint(keys, seed, seg, (i + 1) as nat),
    decreases i,
{
    if i > 0 {
        lemma_valid_prefix_honest(keys, seed, seg, proof, i - 1);
    }
    assert(aes_decrypt_n(inverse_schedule(keys), proof[i], seg) == predecessor(proof, seed, i));
    assert(predecessor(proof, seed, i) == checkpoint(keys, seed, seg, i as nat));
    assert(checkpoint(keys, seed, seg, (i + 1) as nat) == aes_encrypt_n(
        keys,
        checkpoint(keys, seed, seg, i as nat),
        seg,
    ));
    lemma_encrypt_decrypt_n(keys, proof[i], seg);
}

/// Checking a proof in two parts, split anywhere, and combining the answers
/// gives the answer of checking it whole: the verifiers that hand parts of a
/// proof to different workers agree with the one that checks it in one go.
pub proof fn lemma_split_verification(
    dec_keys: Seq<Seq<u8>>,
    proof: Seq<Seq<u8>>,
    seed: Seq<u8>,
    seg: nat,
    lo: int,
    mid: int,
    hi: int,
)
    requires
        lo <= mid <= hi,
    ensures
        (range_valid(dec_keys, proof, seed, seg, lo, mid) && range_valid(dec_keys, proof, seed, seg, mid, hi))
            == range_valid(dec_keys, proof, seed, seg, lo, hi),
        range_valid(dec_keys, proof, seed, seg, 0, proof.len() as int) == proof_valid(dec_keys, proof, seed, seg),
{
}

} // verus!
