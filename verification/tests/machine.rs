//! Scenario tests driving the orchestrator state machine through whole
//! checks, with the driver's answers scripted.

use ckb_passport_lock::commitment::generate_message;
use ckb_passport_lock::entry::{Event, Machine, Step};
use ckb_passport_lock::error::{Error, HostError};
use ckb_passport_lock::fingerprint::compute_pub_key_hash;
use ckb_passport_lock::rsa::generate_rsa_info;

struct Fixture {
    args: Vec<u8>,
    witness: Vec<u8>,
    digest_witness: Vec<u8>,
    tx_hash: Vec<u8>,
    e: u32,
    n: Vec<u8>,
    sig: Vec<u8>,
}

fn fixture() -> Fixture {
    let sig: Vec<u8> = (0..512).map(|i| (i % 253) as u8).collect();
    let n: Vec<u8> = (0..128).map(|i| (i * 11 % 256) as u8).collect();
    let e: u32 = 65537;
    let mut witness = Vec::new();
    witness.extend_from_slice(&sig);
    witness.extend_from_slice(&[3, 0, 0, 0, 0, 4, 0, 0]); // header bytes
    witness.extend_from_slice(&e.to_le_bytes());
    witness.extend_from_slice(&n);
    let args = compute_pub_key_hash(&n, e).ok().unwrap();
    let mut digest_witness = vec![0u8; 652];
    digest_witness[0] = 1;
    let tx_hash: Vec<u8> = (0..32).map(|i| (i * 5) as u8).collect();
    Fixture { args, witness, digest_witness, tx_hash, e, n, sig }
}

/// Drives the machine up to the first chunk-verification request, with one
/// same-group witness and no trailing witness, and returns the machine
/// together with that first request.
fn drive_to_first_chunk(f: &Fixture, group_witness: &[u8]) -> (Machine, Step) {
    let (mut m, s) = Machine::start();
    assert!(matches!(s, Step::GetArgs));
    let s = m.step(Event::Bytes(f.args.clone()));
    assert!(matches!(s, Step::GetWitness));
    let s = m.step(Event::Bytes(f.witness.clone()));
    assert!(matches!(s, Step::GetDigestWitness));
    let s = m.step(Event::Bytes(f.digest_witness.clone()));
    assert!(matches!(s, Step::GetTxHash));
    let s = m.step(Event::Bytes(f.tx_hash.clone()));
    match s {
        Step::GetGroupWitness(i) => assert_eq!(i, 1),
        _ => panic!("expected a group witness query"),
    }
    let s = m.step(Event::Bytes(group_witness.to_vec()));
    match s {
        Step::GetGroupWitness(i) => assert_eq!(i, 2),
        _ => panic!("expected the next group witness query"),
    }
    let s = m.step(Event::Failed(HostError::IndexOutOfBound));
    assert!(matches!(s, Step::GetInputCount));
    let s = m.step(Event::Count(1));
    match s {
        Step::GetTrailingWitness(i) => assert_eq!(i, 1),
        _ => panic!("expected a trailing witness query"),
    }
    let s = m.step(Event::Failed(HostError::IndexOutOfBound));
    (m, s)
}

#[test]
fn accepts_when_fingerprint_matches_and_all_chunks_verify() {
    let f = fixture();
    let group_witness = vec![9u8; 16];
    let (mut m, mut s) = drive_to_first_chunk(&f, &group_witness);
    let message =
        generate_message(&f.tx_hash, &f.digest_witness, &vec![group_witness.clone()], &vec![]);
    for k in 0..4usize {
        match &s {
            Step::VerifyChunk(info, msg) => {
                let expected_info =
                    generate_rsa_info(&f.n, f.e, &f.sig[128 * k..128 * (k + 1)]).ok().unwrap();
                assert_eq!(info, &expected_info);
                assert_eq!(msg, &message[8 * k..8 * (k + 1)].to_vec());
            }
            _ => panic!("expected a chunk verification request"),
        }
        s = m.step(Event::Status(0));
    }
    assert!(matches!(s, Step::Accept));
}

#[test]
fn test_wrong_signature() {
    // The capability reports a hash mismatch on the third chunk: the check
    // rejects at once with that chunk's failure kind and never accepts.
    let f = fixture();
    let group_witness = vec![9u8; 16];
    let (mut m, mut s) = drive_to_first_chunk(&f, &group_witness);
    for _ in 0..2 {
        assert!(matches!(s, Step::VerifyChunk(_, _)));
        s = m.step(Event::Status(0));
    }
    assert!(matches!(s, Step::VerifyChunk(_, _)));
    let s = m.step(Event::Status(52));
    match s {
        Step::Reject(err) => {
            assert_eq!(err, Error::ISO97962MismatchHash);
            assert_eq!(err.code(), 18);
        }
        _ => panic!("a failed chunk verification must reject"),
    }
}

#[test]
fn rejects_each_nonzero_status_with_its_kind() {
    for (code, kind) in
        [(53, Error::ISO97962InvalidArg1), (61, Error::ISO97962InvalidArg9), (77, Error::ISO97962RSAVerifyError)]
    {
        let f = fixture();
        let group_witness = vec![9u8; 16];
        let (mut m, s) = drive_to_first_chunk(&f, &group_witness);
        assert!(matches!(s, Step::VerifyChunk(_, _)));
        match m.step(Event::Status(code)) {
            Step::Reject(err) => assert_eq!(err, kind),
            _ => panic!("a failed chunk verification must reject"),
        }
    }
}

#[test]
fn test_wrong_pub_key() {
    // The authorization condition carries the fingerprint of a different
    // key: the check rejects as WrongPubKey at the witness step, before any
    // digest is built or chunk verification requested.
    let f = fixture();
    let other_n: Vec<u8> = vec![77u8; 128];
    let other_args = compute_pub_key_hash(&other_n, f.e).ok().unwrap();
    let (mut m, s) = Machine::start();
    assert!(matches!(s, Step::GetArgs));
    let s = m.step(Event::Bytes(other_args));
    assert!(matches!(s, Step::GetWitness));
    match m.step(Event::Bytes(f.witness.clone())) {
        Step::Reject(err) => {
            assert_eq!(err, Error::WrongPubKey);
            assert_eq!(err.code(), 6);
        }
        _ => panic!("a non-matching fingerprint must reject as WrongPubKey"),
    }
}

#[test]
fn rejects_argument_of_wrong_length() {
    let (mut m, _) = Machine::start();
    match m.step(Event::Bytes(vec![0u8; 19])) {
        Step::Reject(err) => assert_eq!(err, Error::InvalidArgument),
        _ => panic!("a 19-byte argument must reject as InvalidArgument"),
    }
}

#[test]
fn rejects_witness_of_wrong_length() {
    let f = fixture();
    let (mut m, _) = Machine::start();
    let s = m.step(Event::Bytes(f.args.clone()));
    assert!(matches!(s, Step::GetWitness));
    match m.step(Event::Bytes(vec![0u8; 651])) {
        Step::Reject(err) => assert_eq!(err, Error::Encoding),
        _ => panic!("a short witness must reject as Encoding"),
    }
}

#[test]
fn rejects_missing_lock_field() {
    let f = fixture();
    let (mut m, _) = Machine::start();
    let s = m.step(Event::Bytes(f.args.clone()));
    assert!(matches!(s, Step::GetWitness));
    match m.step(Event::MissingField) {
        Step::Reject(err) => assert_eq!(err, Error::Encoding),
        _ => panic!("an absent lock field must reject as Encoding"),
    }
}

#[test]
fn surfaces_host_failures_verbatim() {
    let (mut m, _) = Machine::start();
    match m.step(Event::Failed(HostError::ItemMissing)) {
        Step::Reject(err) => assert_eq!(err, Error::ItemMissing),
        _ => panic!("a host failure must reject with its own kind"),
    }
}

#[test]
fn out_of_bound_is_fatal_outside_enumeration() {
    // While fetching the input count, an out-of-bound failure is no loop
    // terminator: it is surfaced verbatim.
    let f = fixture();
    let (mut m, s) = Machine::start();
    assert!(matches!(s, Step::GetArgs));
    let s = m.step(Event::Bytes(f.args.clone()));
    assert!(matches!(s, Step::GetWitness));
    let s = m.step(Event::Bytes(f.witness.clone()));
    assert!(matches!(s, Step::GetDigestWitness));
    let s = m.step(Event::Bytes(f.digest_witness.clone()));
    assert!(matches!(s, Step::GetTxHash));
    let s = m.step(Event::Bytes(f.tx_hash.clone()));
    assert!(matches!(s, Step::GetGroupWitness(_)));
    let s = m.step(Event::Failed(HostError::IndexOutOfBound));
    assert!(matches!(s, Step::GetInputCount));
    match m.step(Event::Failed(HostError::IndexOutOfBound)) {
        Step::Reject(err) => assert_eq!(err, Error::IndexOutOfBound),
        _ => panic!("an out-of-bound input count must reject"),
    }
}

#[test]
fn enumerates_ascending_indices_from_input_count() {
    let f = fixture();
    let (mut m, s) = Machine::start();
    assert!(matches!(s, Step::GetArgs));
    let s = m.step(Event::Bytes(f.args.clone()));
    assert!(matches!(s, Step::GetWitness));
    let s = m.step(Event::Bytes(f.witness.clone()));
    assert!(matches!(s, Step::GetDigestWitness));
    let s = m.step(Event::Bytes(f.digest_witness.clone()));
    assert!(matches!(s, Step::GetTxHash));
    let s = m.step(Event::Bytes(f.tx_hash.clone()));
    assert!(matches!(s, Step::GetGroupWitness(_)));
    let s = m.step(Event::Failed(HostError::IndexOutOfBound));
    assert!(matches!(s, Step::GetInputCount));
    let s = m.step(Event::Count(3));
    match s {
        Step::GetTrailingWitness(i) => assert_eq!(i, 3),
        _ => panic!("expected a trailing witness query"),
    }
    let s = m.step(Event::Bytes(vec![1u8, 2, 3]));
    match s {
        Step::GetTrailingWitness(i) => assert_eq!(i, 4),
        _ => panic!("expected the next trailing witness query"),
    }
    let s = m.step(Event::Failed(HostError::IndexOutOfBound));
    assert!(matches!(s, Step::VerifyChunk(_, _)));
    // The digest covers the one trailing witness that was received.
    let message =
        generate_message(&f.tx_hash, &f.digest_witness, &vec![], &vec![vec![1u8, 2, 3]]);
    match s {
        Step::VerifyChunk(_, msg) => assert_eq!(msg, message[0..8].to_vec()),
        _ => unreachable!(),
    }
}
