//! The fixed binary layout of the authorization witness: a 512-byte signature
//! (four 128-byte chunks), an 8-byte algorithm header, a 4-byte little-endian
//! public exponent, and a 128-byte modulus, 652 bytes in all.

use vstd::prelude::*;
use vstd::bytes::{spec_u32_from_le_bytes, u32_from_le_bytes};
use vstd::slice::{slice_subrange, slice_to_vec};
use crate::error::Error;

verus! {

/// Length in bytes of the signature field at the head of the witness.
pub const SIGNATURE_LEN: usize = 512;

/// Length in bytes of one signature chunk; the signature holds four of them.
pub const SUB_SIGNATURE_LEN: usize = 128;

/// Length in bytes of one message chunk of the 32-byte commitment digest.
pub const MESSAGE_SINGLE_SIZE: usize = 8;

/// Length in bytes of the witness header: a 32-bit algorithm id followed by a
/// 32-bit key-size word, both little-endian. The header is carried for the
/// verification capability and never feeds the fingerprint.
pub const ALGORITHM_ID_AND_KEY_SIZE: usize = 8;

/// Length in bytes of the little-endian public exponent field.
pub const PUBLIC_KEY_E_LEN: usize = 4;

/// Length in bytes of the public modulus field.
pub const PUBLIC_KEY_N_LEN: usize = 128;

/// Total length in bytes of the witness payload.
pub const SIGNATURE_TOTAL_LEN: usize = 652;

/// Offset in bytes of the public exponent field.
pub const PUB_KEY_E_OFFSET: usize = SIGNATURE_LEN + ALGORITHM_ID_AND_KEY_SIZE;

/// Offset in bytes of the public modulus field.
pub const PUB_KEY_N_OFFSET: usize = PUB_KEY_E_OFFSET + PUBLIC_KEY_E_LEN;

/// The signature and public key decoded from an authorization witness.
pub struct RsaWitness {
    /// The 512-byte signature: four 128-byte chunks, in order.
    pub signature: Vec<u8>,
    /// The public exponent, parsed little-endian.
    pub pub_key_e: u32,
    /// The 128-byte modulus, byte order preserved as stored.
    pub pub_key_n: Vec<u8>,
}

impl RsaWitness {
    /// The field lengths the fixed layout guarantees.
    pub open spec fn wf(self) -> bool {
        &&& self.signature@.len() == SIGNATURE_LEN
        &&& self.pub_key_n@.len() == PUBLIC_KEY_N_LEN
    }
}

/// Decodes an authorization witness. Succeeds exactly on payloads of the
/// fixed total length; the slices are taken at fixed, non-overlapping
/// offsets, the 8-byte header is skipped, and the modulus bytes are kept in
/// the order given.
pub fn decode_witness(witness: &[u8]) -> (r: Result<RsaWitness, Error>)
    ensures
        r is Ok <==> witness@.len() == SIGNATURE_TOTAL_LEN,
        r matches Ok(w) ==> {
            &&& w.wf()
            &&& w.signature@ == witness@.subrange(0, SIGNATURE_LEN as int)
            &&& w.pub_key_e == spec_u32_from_le_bytes(
                witness@.subrange(PUB_KEY_E_OFFSET as int, PUB_KEY_N_OFFSET as int),
            )
            &&& w.pub_key_n@ == witness@.subrange(
                PUB_KEY_N_OFFSET as int,
                SIGNATURE_TOTAL_LEN as int,
            )
        },
        r matches Err(e) ==> e == Error::Encoding,
{
    if witness.len() != SIGNATURE_TOTAL_LEN {
        return Err(Error::Encoding);
    }
    let signature = slice_to_vec(slice_subrange(witness, 0, SIGNATURE_LEN));
    let pub_key_e = u32_from_le_bytes(slice_subrange(witness, PUB_KEY_E_OFFSET, PUB_KEY_N_OFFSET));
    let pub_key_n = slice_to_vec(slice_subrange(witness, PUB_KEY_N_OFFSET, SIGNATURE_TOTAL_LEN));
    Ok(RsaWitness { signature, pub_key_e, pub_key_n })
}

} // verus!
