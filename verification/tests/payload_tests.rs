use fleetbench::payload::{payload_seed, ContentDigest, PayloadGenerator, PAYLOAD_CHUNK};
use sha2::{Digest, Sha256};

/// The payload of a seed, written out directly: xorshift64 words, little-endian.
fn reference_payload(seed: u64, size: usize) -> Vec<u8> {
    let mut out = Vec::with_capacity(size);
    let mut state = seed;
    while out.len() < size {
        let mut x = state;
        x ^= x << 13;
        x ^= x >> 7;
        x ^= x << 17;
        state = x;
        for b in x.to_le_bytes() {
            if out.len() < size {
                out.push(b);
            }
        }
    }
    out
}

fn generate(seed: u64, size: u64) -> (Vec<u8>, Vec<u8>) {
    let mut g = PayloadGenerator::new(seed, size);
    let mut buf = vec![0u8; PAYLOAD_CHUNK];
    let mut all = Vec::new();
    loop {
        let n = g.next_chunk(&mut buf);
        if n == 0 {
            break;
        }
        all.extend_from_slice(&buf[..n]);
    }
    (all, g.finish())
}

#[test]
fn generator_matches_xorshift_reference_and_sha256() {
    for &size in &[0u64, 1, 7, 8, 25, 1024, 65_536, 65_541, 200_003] {
        let (bytes, digest) = generate(0x1234_5678_9abc_def1, size);
        assert_eq!(bytes, reference_payload(0x1234_5678_9abc_def1, size as usize));
        assert_eq!(digest, Sha256::digest(&bytes).to_vec());
        assert_eq!(digest.len(), 32);
    }
}

#[test]
fn generator_is_deterministic_per_seed() {
    let (a, da) = generate(42, 1024);
    let (b, db) = generate(42, 1024);
    let (c, dc) = generate(43, 1024);
    assert_eq!(a, b);
    assert_eq!(da, db);
    assert_ne!(a, c);
    assert_ne!(da, dc);
}

#[test]
fn shorter_payload_is_a_prefix_of_longer_one() {
    let (short, _) = generate(7, 100);
    let (long, _) = generate(7, 70_000);
    assert_eq!(&long[..100], &short[..]);
}

#[test]
fn first_word_of_a_payload() {
    // xorshift64(1) = 0x40822041
    let (bytes, _) = generate(1, 8);
    assert_eq!(bytes, 0x4082_2041u64.to_le_bytes().to_vec());
}

#[test]
fn payload_seed_mixes_clock_path_and_size() {
    let seed_b = 12u64 ^ 1024 ^ 0x9E37_79B9_7F4A_7C15;
    let expected = 5_000u64 ^ seed_b.wrapping_mul(0x100000001B3);
    assert_eq!(payload_seed(5_000, 12, 1024), expected);
    assert_ne!(payload_seed(5_000, 12, 1024), payload_seed(5_000, 13, 1024));
}

#[test]
fn payload_seed_is_never_zero() {
    let seed_b = 3u64 ^ 25 ^ 0x9E37_79B9_7F4A_7C15;
    let nanos = seed_b.wrapping_mul(0x100000001B3);
    assert_eq!(payload_seed(nanos, 3, 25), 1);
}

#[test]
fn content_digest_matches_sha256_of_pieces() {
    let mut d = ContentDigest::new();
    d.update(b"hello ");
    d.update(b"");
    d.update(b"world");
    assert_eq!(d.finish(), Sha256::digest(b"hello world").to_vec());
    let empty = ContentDigest::new().finish();
    assert_eq!(
        empty,
        Sha256::digest(b"").to_vec()
    );
    assert_ne!(empty, vec![0u8; 32]);
}
