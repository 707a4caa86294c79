use rust_aes_proofs::aes_low_level::aes_ni::{decrypt_block, encrypt_block, expand};
use rust_aes_proofs::por::aes_ni::{AesNi, AesNiKeys};
use rust_aes_proofs::{Block, Piece, PIECE_SIZE};

const ID: Block = [
    0x9a, 0x84, 0x94, 0x0f, 0xfe, 0xf5, 0xb0, 0xd7, 0x01, 0x99, 0xfc, 0x67, 0xf4, 0x6e, 0xa2, 0x7a,
];
const IV: Block = [
    0xd6, 0x66, 0xcc, 0xd8, 0xd5, 0x93, 0xc2, 0x3d, 0xa8, 0xdb, 0x6b, 0x5b, 0x14, 0x13, 0xb1, 0x3a,
];
const INPUT: Piece = [0u8; PIECE_SIZE];

fn hex(bytes: &[u8]) -> String {
    bytes.iter().map(|b| format!("{:02x}", b)).collect()
}

fn pseudo_random_bytes(seed: u64, out: &mut [u8]) {
    let mut state = seed;
    for b in out.iter_mut() {
        state = state.wrapping_mul(6364136223846793005).wrapping_add(1442695040888963407);
        *b = (state >> 56) as u8;
    }
}

#[test]
fn test() {
    let aes_iterations = 256;

    let keys = AesNiKeys::new(&ID);
    let por = AesNi::new();

    let mut encodings = [INPUT; 4];
    por.encode(&mut encodings, &keys, [IV; 4], aes_iterations, 1);

    for encoding in encodings.iter() {
        assert_eq!(hex(&encoding[..16]), "3dc6d819af61eb34aa52b45e882f6a20");
        assert_eq!(hex(&encoding[PIECE_SIZE - 16..]), "c5dac76530670411685d97fac06b43e8");
        assert_eq!(encoding.to_vec(), encodings[0].to_vec());
    }

    let mut decoding = encodings[0];
    por.decode(&mut decoding, &keys, &IV, aes_iterations, 1);

    assert_eq!(decoding.to_vec(), INPUT.to_vec());
}

#[test]
fn test_breadth_10() {
    let aes_iterations = 256;

    let keys = AesNiKeys::new(&ID);
    let por = AesNi::new();

    let mut encodings = [INPUT; 4];
    por.encode(&mut encodings, &keys, [IV; 4], aes_iterations, 10);

    for encoding in encodings.iter() {
        assert_eq!(hex(&encoding[..16]), "2c7b93458894669ab13954ca11a27125");
        assert_eq!(hex(&encoding[PIECE_SIZE - 16..]), "77aff9fd54a1e28c211c28a9ae040af8");
        assert_eq!(encoding.to_vec(), encodings[0].to_vec());
    }

    let mut decoding = encodings[0];
    por.decode(&mut decoding, &keys, &IV, aes_iterations, 10);

    assert_eq!(decoding.to_vec(), INPUT.to_vec());
}

#[test]
fn aes_128_known_answer() {
    let key: Block = [0, 1, 2, 3, 4, 5, 6, 7, 8, 9, 10, 11, 12, 13, 14, 15];
    let plaintext: Block = [
        0x00, 0x11, 0x22, 0x33, 0x44, 0x55, 0x66, 0x77, 0x88, 0x99, 0xaa, 0xbb, 0xcc, 0xdd, 0xee, 0xff,
    ];
    let (enc, dec) = expand(&key);
    assert_eq!(hex(&enc[10]), "13111d7fe3944a17f307a78b4d2b30c5");
    let ciphertext = encrypt_block(&enc, &plaintext);
    assert_eq!(hex(&ciphertext), "69c4e0d86a7b0430d8cdb78070b4c55a");
    assert_eq!(decrypt_block(&dec, &ciphertext), plaintext);
}

#[test]
fn key_schedule_of_identity() {
    let (enc, dec) = expand(&ID);
    assert_eq!(enc[0], ID);
    assert_eq!(hex(&enc[10]), "2e190786f0db3b6d4ee30c0f7a0596e0");
    assert_eq!(dec[0], enc[0]);
    assert_eq!(dec[10], enc[10]);
}

#[test]
fn random_round_trip() {
    let aes_iterations = 16;
    let por = AesNi::new();
    for trial in 0..4u64 {
        let mut id = [0u8; 16];
        let mut iv = [0u8; 16];
        let mut input = [0u8; PIECE_SIZE];
        pseudo_random_bytes(3 * trial + 1, &mut id);
        pseudo_random_bytes(3 * trial + 2, &mut iv);
        pseudo_random_bytes(3 * trial + 3, &mut input);
        let keys = AesNiKeys::new(&id);
        for breadth in [1usize, 3] {
            let mut encodings = [input; 4];
            por.encode(&mut encodings, &keys, [iv; 4], aes_iterations, breadth);
            assert_ne!(encodings[0].to_vec(), input.to_vec());
            for encoding in encodings.iter() {
                let mut decoding = *encoding;
                por.decode(&mut decoding, &keys, &iv, aes_iterations, breadth);
                assert_eq!(decoding.to_vec(), input.to_vec());
            }
        }
    }
}

#[test]
fn lanes_are_independent() {
    let aes_iterations = 4;
    let keys = AesNiKeys::new(&ID);
    let por = AesNi::new();
    let mut pieces = [[0u8; PIECE_SIZE]; 4];
    let mut ivs = [[0u8; 16]; 4];
    for l in 0..4 {
        pseudo_random_bytes(100 + l as u64, &mut pieces[l]);
        pseudo_random_bytes(200 + l as u64, &mut ivs[l]);
    }
    let mut together = pieces;
    por.encode(&mut together, &keys, ivs, aes_iterations, 2);
    for l in 0..4 {
        let mut alone = [pieces[l]; 4];
        por.encode(&mut alone, &keys, [ivs[l]; 4], aes_iterations, 2);
        assert_eq!(alone[0].to_vec(), together[l].to_vec());
    }
    assert_ne!(together[0].to_vec(), together[1].to_vec());
}

#[test]
fn encode_is_deterministic() {
    let keys = AesNiKeys::new(&ID);
    let por = AesNi::new();
    let mut first = [INPUT; 4];
    let mut second = [INPUT; 4];
    por.encode(&mut first, &keys, [IV; 4], 3, 2);
    por.encode(&mut second, &AesNiKeys::new(&ID), [IV; 4], 3, 2);
    assert_eq!(first[2].to_vec(), second[2].to_vec());
}

#[test]
fn zero_breadth_leaves_pieces() {
    let keys = AesNiKeys::new(&ID);
    let por = AesNi::new();
    let mut pieces = [INPUT; 4];
    por.encode(&mut pieces, &keys, [IV; 4], 8, 0);
    assert_eq!(pieces[3].to_vec(), INPUT.to_vec());
}

#[test]
fn zero_iterations_is_plain_chaining() {
    let keys = AesNiKeys::new(&ID);
    let por = AesNi::new();
    let mut pieces = [INPUT; 4];
    por.encode(&mut pieces, &keys, [IV; 4], 0, 1);
    for j in 0..PIECE_SIZE / 16 {
        assert_eq!(pieces[0][16 * j..16 * j + 16], IV);
    }
}
