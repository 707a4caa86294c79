use rust_aes_proofs::aes_low_level::aes_ni::{
    expand, por_decode_pipelined_x4_low_level, por_encode_pipelined_x4_low_level,
    pot_prove_low_level, pot_verify_pipelined_x4_low_level,
};
use rust_aes_proofs::pot::aes_ni::{prove, verify, verify_range};
use rust_aes_proofs::utils::{aes_implementations_available, AesImplementation};
use rust_aes_proofs::Block;

const SEED: Block = [
    0xd6, 0x66, 0xcc, 0xd8, 0xd5, 0x93, 0xc2, 0x3d, 0xa8, 0xdb, 0x6b, 0x5b, 0x14, 0x13, 0xb1, 0x3a,
];
const ID: Block = [
    0x9a, 0x84, 0x94, 0x0f, 0xfe, 0xf5, 0xb0, 0xd7, 0x01, 0x99, 0xfc, 0x67, 0xf4, 0x6e, 0xa2, 0x7a,
];

fn hex(bytes: &[u8]) -> String {
    bytes.iter().map(|b| format!("{:02x}", b)).collect()
}

#[test]
fn prove_segments_match_reference() {
    let (enc, _) = expand(&ID);
    assert_eq!(hex(&pot_prove_low_level(&enc, &SEED, 1)), "31cc0dc495a7bebd472382100ccd7acb");
    assert_eq!(hex(&pot_prove_low_level(&enc, &SEED, 100)), "b8f02cfa7c48cb919065ac78489b1260");
    assert_eq!(pot_prove_low_level(&enc, &SEED, 0), SEED);
}

#[test]
fn verify_accepts_proof_and_rejects_flips() {
    let (enc, dec) = expand(&ID);
    let segment = 50;
    let mut checkpoints = [SEED; 5];
    for i in 1..5 {
        checkpoints[i] = pot_prove_low_level(&enc, &checkpoints[i - 1], segment);
    }
    let expected = [checkpoints[0], checkpoints[1], checkpoints[2], checkpoints[3]];
    let blocks = [checkpoints[1], checkpoints[2], checkpoints[3], checkpoints[4]];
    assert!(pot_verify_pipelined_x4_low_level(&dec, &expected, &blocks, segment));
    for lane in 0..4 {
        for byte in [0usize, 15] {
            let mut corrupted = blocks;
            corrupted[lane][byte] ^= 1;
            assert!(!pot_verify_pipelined_x4_low_level(&dec, &expected, &corrupted, segment));
        }
    }
}

#[test]
fn pipelined_encode_then_decode() {
    let (enc, dec) = expand(&ID);
    let original: [Block; 4] = [SEED, ID, [0u8; 16], [0xffu8; 16]];
    let feedbacks: [Block; 4] = [ID, SEED, [7u8; 16], [0u8; 16]];
    let mut blocks = original;
    por_encode_pipelined_x4_low_level(&enc, &mut blocks, &feedbacks, 5);
    assert_ne!(blocks, original);
    por_decode_pipelined_x4_low_level(&dec, &mut blocks, &feedbacks, 5);
    assert_eq!(blocks, original);
}

#[test]
fn implementations_follow_detection() {
    assert_eq!(aes_implementations_available(true), vec![AesImplementation::VAes]);
    assert!(aes_implementations_available(false).is_empty());
}

#[test]
fn prove_then_verify_over_parallelisms() {
    let (enc, dec) = expand(&ID);
    let aes_iterations = 1200;
    for verifier_parallelism in [4usize, 8, 12, 16] {
        let proof = prove(&SEED, &enc, aes_iterations, verifier_parallelism);
        assert_eq!(proof.len(), verifier_parallelism);
        assert_eq!(proof[0], pot_prove_low_level(&enc, &SEED, aes_iterations / verifier_parallelism));
        assert!(verify(&proof, &SEED, &dec, aes_iterations));
        for i in 0..verifier_parallelism {
            let mut corrupted = proof.clone();
            corrupted[i][15] ^= 0xff;
            assert!(!verify(&corrupted, &SEED, &dec, aes_iterations));
        }
    }
}

#[test]
fn verify_rejects_wrong_seed_and_odd_lengths() {
    let (enc, dec) = expand(&ID);
    let proof = prove(&SEED, &enc, 30, 3);
    assert!(verify(&proof, &SEED, &dec, 30));
    assert!(!verify(&proof, &ID, &dec, 30));
    let proof = prove(&SEED, &enc, 35, 5);
    assert!(verify(&proof, &SEED, &dec, 35));
    let mut corrupted = proof.clone();
    corrupted[4][0] ^= 0x80;
    assert!(!verify(&corrupted, &SEED, &dec, 35));
}

#[test]
fn split_checks_agree_with_whole_check() {
    let (enc, dec) = expand(&ID);
    let aes_iterations = 160;
    let proof = prove(&SEED, &enc, aes_iterations, 16);
    let mut state: u64 = 7;
    for _ in 0..40 {
        let mut candidate = proof.clone();
        state = state.wrapping_mul(6364136223846793005).wrapping_add(1442695040888963407);
        if state % 3 != 0 {
            let i = ((state >> 8) % 16) as usize;
            let byte = ((state >> 16) % 16) as usize;
            candidate[i][byte] ^= 1 << ((state >> 24) % 8);
        }
        let whole = verify(&candidate, &SEED, &dec, aes_iterations);
        let mut parts = true;
        for g in 0..4 {
            parts = parts && verify_range(&candidate, &SEED, &dec, aes_iterations, 4 * g, 4 * g + 4);
        }
        assert_eq!(whole, parts);
        assert_eq!(whole, state % 3 == 0);
    }
}
