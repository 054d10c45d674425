//! The public-key fingerprint: the first 20 bytes of a 32-byte blake2b hash
//! of the canonical blob `algorithm id ‖ key size ‖ e ‖ n`. The algorithm id
//! and key size in the blob are the scheme's fixed constants, never the
//! attacker-controlled header bytes of the witness.

use vstd::prelude::*;
use vstd::bytes::{spec_u32_from_le_bytes, spec_u32_to_le_bytes, u32_to_le_bytes};
use vstd::slice::slice_to_vec;
use crate::error::Error;
use blake2b_ref::Blake2bBuilder;

verus! {

/// The scheme's fixed algorithm identifier, selecting four-chunk ISO 9796-2
/// RSA verification.
pub const CKB_VERIFY_ISO9796_2: u32 = 3;

/// The scheme's fixed RSA key size in bits.
pub const ISO9796_2_KEY_SIZE: u32 = 1024;

/// Length in bytes of a public-key fingerprint.
pub const FINGERPRINT_LEN: usize = 20;

/// The 32-byte blake2b digest, personalized with "ckb-default-hash", of a
/// byte sequence. The digest is a function of the input bytes alone; nothing
/// further is assumed of it.
pub uninterp spec fn ckb_blake2b_256(data: Seq<u8>) -> Seq<u8>;

/// Relies on blake2b_ref::Blake2bBuilder and blake2b_ref::Blake2b: hashing
/// `data` with a 32-byte output length under the personalization
/// "ckb-default-hash" yields a 32-byte digest that depends on the input
/// bytes alone.
#[verifier::external_body]
pub(crate) fn blake2b_256(data: &[u8]) -> (r: Vec<u8>)
    ensures
        r@ == ckb_blake2b_256(data@),
        r@.len() == 32,
{
    let mut out = [0u8; 32];
    let mut hasher = Blake2bBuilder::new(32).personal(b"ckb-default-hash").build();
    hasher.update(data);
    hasher.finalize(&mut out);
    out.to_vec()
}

/// The canonical blob hashed into the fingerprint: the fixed algorithm id and
/// key size, then the exponent, all little-endian, then the modulus bytes.
pub open spec fn public_key_blob(e: u32, n: Seq<u8>) -> Seq<u8> {
    spec_u32_to_le_bytes(CKB_VERIFY_ISO9796_2) + spec_u32_to_le_bytes(ISO9796_2_KEY_SIZE)
        + spec_u32_to_le_bytes(e) + n
}

/// The fingerprint of a public key: the first 20 bytes of the hash of its
/// canonical blob.
pub open spec fn fingerprint(e: u32, n: Seq<u8>) -> Seq<u8> {
    ckb_blake2b_256(public_key_blob(e, n)).take(FINGERPRINT_LEN as int)
}

/// Computes the fingerprint of a public key. Total: succeeds on every input.
pub fn compute_pub_key_hash(pub_key_n: &[u8], pub_key_e: u32) -> (r: Result<Vec<u8>, Error>)
    ensures
        r matches Ok(h) ==> h@ == fingerprint(pub_key_e, pub_key_n@) && h@.len()
            == FINGERPRINT_LEN,
        r is Ok,
{
    let mut blob = u32_to_le_bytes(CKB_VERIFY_ISO9796_2);
    let mut key_size = u32_to_le_bytes(ISO9796_2_KEY_SIZE);
    blob.append(&mut key_size);
    let mut e_bytes = u32_to_le_bytes(pub_key_e);
    blob.append(&mut e_bytes);
    let mut n_bytes = slice_to_vec(pub_key_n);
    blob.append(&mut n_bytes);
    assert(blob@ =~= public_key_blob(pub_key_e, pub_key_n@));
    let mut hash = blake2b_256(blob.as_slice());
    hash.truncate(FINGERPRINT_LEN);
    assert(hash@ =~= fingerprint(pub_key_e, pub_key_n@));
    Ok(hash)
}

/// Law: the fingerprint is a pure, deterministic function of the public key;
/// two computations over the same exponent and modulus yield identical bytes.
pub proof fn lemma_fingerprint_deterministic(e: u32, n: Seq<u8>, h1: Seq<u8>, h2: Seq<u8>)
    requires
        h1 == fingerprint(e, n),
        h2 == fingerprint(e, n),
    ensures
        h1 == h2,
{
}

/// Law: the fingerprint reads only the exponent and modulus fields of the
/// witness; two witnesses that agree from the exponent offset on have keys
/// with the same fingerprint, whatever their header bytes say.
pub proof fn lemma_fingerprint_ignores_header(w1: Seq<u8>, w2: Seq<u8>)
    requires
        w1.len() == crate::witness::SIGNATURE_TOTAL_LEN,
        w2.len() == crate::witness::SIGNATURE_TOTAL_LEN,
        w1.subrange(
            crate::witness::PUB_KEY_E_OFFSET as int,
            crate::witness::SIGNATURE_TOTAL_LEN as int,
        ) == w2.subrange(
            crate::witness::PUB_KEY_E_OFFSET as int,
            crate::witness::SIGNATURE_TOTAL_LEN as int,
        ),
    ensures
        fingerprint(
            spec_u32_from_le_bytes(
                w1.subrange(
                    crate::witness::PUB_KEY_E_OFFSET as int,
                    crate::witness::PUB_KEY_N_OFFSET as int,
                ),
            ),
            w1.subrange(
                crate::witness::PUB_KEY_N_OFFSET as int,
                crate::witness::SIGNATURE_TOTAL_LEN as int,
            ),
        ) == fingerprint(
            spec_u32_from_le_bytes(
                w2.subrange(
                    crate::witness::PUB_KEY_E_OFFSET as int,
                    crate::witness::PUB_KEY_N_OFFSET as int,
                ),
            ),
            w2.subrange(
                crate::witness::PUB_KEY_N_OFFSET as int,
                crate::witness::SIGNATURE_TOTAL_LEN as int,
            ),
        ),
{
    let tail1 = w1.subrange(
        crate::witness::PUB_KEY_E_OFFSET as int,
        crate::witness::SIGNATURE_TOTAL_LEN as int,
    );
    let tail2 = w2.subrange(
        crate::witness::PUB_KEY_E_OFFSET as int,
        crate::witness::SIGNATURE_TOTAL_LEN as int,
    );
    assert(w1.subrange(
        crate::witness::PUB_KEY_E_OFFSET as int,
        crate::witness::PUB_KEY_N_OFFSET as int,
    ) =~= tail1.subrange(0, crate::witness::PUBLIC_KEY_E_LEN as int));
    assert(w2.subrange(
        crate::witness::PUB_KEY_E_OFFSET as int,
        crate::witness::PUB_KEY_N_OFFSET as int,
    ) =~= tail2.subrange(0, crate::witness::PUBLIC_KEY_E_LEN as int));
    assert(w1.subrange(
        crate::witness::PUB_KEY_N_OFFSET as int,
        crate::witness::SIGNATURE_TOTAL_LEN as int,
    ) =~= tail1.subrange(
        crate::witness::PUBLIC_KEY_E_LEN as int,
        tail1.len() as int,
    ));
    assert(w2.subrange(
        crate::witness::PUB_KEY_N_OFFSET as int,
        crate::witness::SIGNATURE_TOTAL_LEN as int,
    ) =~= tail2.subrange(
        crate::witness::PUBLIC_KEY_E_LEN as int,
        tail2.len() as int,
    ));
}

} // verus!
