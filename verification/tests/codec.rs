//! Tests of the witness layout, the fingerprint, the verification request
//! builder, and the failure-code mappings.

use ckb_passport_lock::error::Error;
use ckb_passport_lock::fingerprint::compute_pub_key_hash;
use ckb_passport_lock::rsa::{generate_rsa_info, get_common_header, interpret_validation_code};
use ckb_passport_lock::witness::decode_witness;

/// A 652-byte witness: 512 signature bytes, 8 header bytes, 4 exponent
/// bytes (little-endian), 128 modulus bytes.
fn make_witness(sig: &[u8], header: &[u8], e: u32, n: &[u8]) -> Vec<u8> {
    assert_eq!(sig.len(), 512);
    assert_eq!(header.len(), 8);
    assert_eq!(n.len(), 128);
    let mut w = Vec::new();
    w.extend_from_slice(sig);
    w.extend_from_slice(header);
    w.extend_from_slice(&e.to_le_bytes());
    w.extend_from_slice(n);
    w
}

#[test]
fn decode_witness_extracts_fixed_offsets() {
    let sig: Vec<u8> = (0..512).map(|i| (i % 251) as u8).collect();
    let header = [9u8, 9, 9, 9, 7, 7, 7, 7];
    let n: Vec<u8> = (0..128).map(|i| (255 - i) as u8).collect();
    let e: u32 = 65537;
    let w = make_witness(&sig, &header, e, &n);
    assert_eq!(w.len(), 652);
    let parsed = decode_witness(&w).ok().unwrap();
    assert_eq!(parsed.signature, sig);
    assert_eq!(parsed.pub_key_e, e);
    assert_eq!(parsed.pub_key_n, n);
}

#[test]
fn decode_witness_rejects_wrong_lengths() {
    for len in [0usize, 20, 651, 653, 1024] {
        let w = vec![0u8; len];
        match decode_witness(&w) {
            Err(Error::Encoding) => {}
            _ => panic!("length {} must be rejected as Encoding", len),
        }
    }
}

#[test]
fn fingerprint_is_deterministic_and_twenty_bytes() {
    let n: Vec<u8> = (0..128).map(|i| (i * 3 % 256) as u8).collect();
    let h1 = compute_pub_key_hash(&n, 65537).ok().unwrap();
    let h2 = compute_pub_key_hash(&n, 65537).ok().unwrap();
    assert_eq!(h1, h2);
    assert_eq!(h1.len(), 20);
}

#[test]
fn fingerprint_distinguishes_keys() {
    let n1: Vec<u8> = vec![1u8; 128];
    let n2: Vec<u8> = vec![2u8; 128];
    let h1 = compute_pub_key_hash(&n1, 65537).ok().unwrap();
    let h2 = compute_pub_key_hash(&n2, 65537).ok().unwrap();
    let h3 = compute_pub_key_hash(&n1, 3).ok().unwrap();
    assert_ne!(h1, h2);
    assert_ne!(h1, h3);
}

#[test]
fn fingerprint_ignores_witness_header() {
    let sig = vec![5u8; 512];
    let n: Vec<u8> = (0..128).map(|i| (i * 7 % 256) as u8).collect();
    let e: u32 = 65537;
    let w1 = make_witness(&sig, &[0u8; 8], e, &n);
    let w2 = make_witness(&sig, &[255u8; 8], e, &n);
    let p1 = decode_witness(&w1).ok().unwrap();
    let p2 = decode_witness(&w2).ok().unwrap();
    let h1 = compute_pub_key_hash(&p1.pub_key_n, p1.pub_key_e).ok().unwrap();
    let h2 = compute_pub_key_hash(&p2.pub_key_n, p2.pub_key_e).ok().unwrap();
    assert_eq!(h1, h2);
}

#[test]
fn generate_rsa_info_packs_exact_bytes() {
    let n = [0xaau8, 0xbb];
    let sig = [0x11u8, 0x22];
    let info = generate_rsa_info(&n, 0x01020304, &sig).ok().unwrap();
    let expected = [
        3u8, 0, 0, 0, // algorithm id, little-endian
        0, 4, 0, 0, // key size 1024, little-endian
        4, 3, 2, 1, // exponent, little-endian
        0xaa, 0xbb, // modulus
        0x11, 0x22, // signature chunk
    ];
    assert_eq!(info, expected.to_vec());
}

#[test]
fn generate_rsa_info_rejects_length_mismatch() {
    let n = [0u8; 128];
    let sig = [0u8; 127];
    match generate_rsa_info(&n, 65537, &sig) {
        Err(Error::RSAPubKeySigLengthError) => {}
        _ => panic!("modulus/signature length mismatch must be rejected"),
    }
}

#[test]
fn common_header_bytes() {
    assert_eq!(get_common_header(), [2u8, 1, 0, 4]);
}

#[test]
fn validation_codes_map_each_to_its_kind() {
    assert!(interpret_validation_code(0).is_ok());
    let cases = [
        (52, Error::ISO97962MismatchHash),
        (53, Error::ISO97962InvalidArg1),
        (54, Error::ISO97962InvalidArg2),
        (55, Error::ISO97962InvalidArg3),
        (56, Error::ISO97962InvalidArg4),
        (57, Error::ISO97962InvalidArg5),
        (58, Error::ISO97962InvalidArg6),
        (59, Error::ISO97962InvalidArg7),
        (60, Error::ISO97962InvalidArg8),
        (61, Error::ISO97962InvalidArg9),
        (1, Error::ISO97962RSAVerifyError),
        (-42, Error::ISO97962RSAVerifyError),
        (62, Error::ISO97962RSAVerifyError),
    ];
    for (code, kind) in cases {
        assert_eq!(interpret_validation_code(code).err().unwrap(), kind);
    }
}

#[test]
fn error_status_codes() {
    let cases = [
        (Error::IndexOutOfBound, 1i8),
        (Error::ItemMissing, 2),
        (Error::LengthNotEnough, 3),
        (Error::Encoding, 4),
        (Error::InvalidArgument, 5),
        (Error::WrongPubKey, 6),
        (Error::RSAPubKeySigLengthError, 7),
        (Error::ISO97962RSAVerifyError, 8),
        (Error::ISO97962InvalidArg1, 9),
        (Error::ISO97962InvalidArg2, 10),
        (Error::ISO97962InvalidArg3, 11),
        (Error::ISO97962InvalidArg4, 12),
        (Error::ISO97962InvalidArg5, 13),
        (Error::ISO97962InvalidArg6, 14),
        (Error::ISO97962InvalidArg7, 15),
        (Error::ISO97962InvalidArg8, 16),
        (Error::ISO97962InvalidArg9, 17),
        (Error::ISO97962MismatchHash, 18),
    ];
    for (err, code) in cases {
        assert_eq!(err.code(), code);
    }
}
