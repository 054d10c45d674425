//! The per-chunk verification request handed to the delegated
//! signature-verification capability, and the mapping of the capability's
//! status codes to failure kinds.
//!
//! A request packs, in order: the 32-bit algorithm id, the 32-bit key size,
//! the 32-bit public exponent, all little-endian, then the modulus bytes,
//! then the signature-chunk bytes.

use vstd::prelude::*;
use vstd::bytes::{spec_u32_to_le_bytes, u32_to_le_bytes};
use vstd::slice::slice_to_vec;
use crate::error::Error;
use crate::fingerprint::{public_key_blob, CKB_VERIFY_ISO9796_2, ISO9796_2_KEY_SIZE};

verus! {

/// The exact bytes of a verification request for one signature chunk: the
/// canonical public-key blob followed by the chunk.
pub open spec fn rsa_info(n: Seq<u8>, e: u32, sig: Seq<u8>) -> Seq<u8> {
    public_key_blob(e, n) + sig
}

/// Builds the verification request blob for one signature chunk. Succeeds
/// exactly when modulus and signature chunk have the same length.
pub fn generate_rsa_info(n: &[u8], e: u32, sig: &[u8]) -> (r: Result<Vec<u8>, Error>)
    ensures
        r is Ok <==> n@.len() == sig@.len(),
        r matches Ok(v) ==> v@ == rsa_info(n@, e, sig@),
        r matches Err(err) ==> err == Error::RSAPubKeySigLengthError,
{
    if n.len() != sig.len() {
        return Err(Error::RSAPubKeySigLengthError);
    }
    let mut info = u32_to_le_bytes(CKB_VERIFY_ISO9796_2);
    let mut key_size = u32_to_le_bytes(ISO9796_2_KEY_SIZE);
    info.append(&mut key_size);
    let mut e_bytes = u32_to_le_bytes(e);
    info.append(&mut e_bytes);
    let mut n_bytes = slice_to_vec(n);
    info.append(&mut n_bytes);
    let mut sig_bytes = slice_to_vec(sig);
    info.append(&mut sig_bytes);
    assert(info@ =~= rsa_info(n@, e, sig@));
    Ok(info)
}

/// The compact four-byte request header of the earlier protocol generation:
/// one byte each for algorithm id, key-size class, padding mode and message
/// digest (SHA-1). Kept for callers of that generation's wire format; the
/// baseline request format above does not use it.
pub fn get_common_header() -> (r: [u8; 4])
    ensures
        r@ == seq![2u8, 1u8, 0u8, 4u8],
{
    let header: [u8; 4] = [2u8, 1u8, 0u8, 4u8];
    assert(header@ =~= seq![2u8, 1u8, 0u8, 4u8]);
    header
}

/// The failure kind reported for a nonzero status code of the delegated
/// verification capability: each recognized code maps to its own kind, every
/// other nonzero code to the generic verification failure.
pub open spec fn validation_error(code: i32) -> Error {
    if code == 52 {
        Error::ISO97962MismatchHash
    } else if code == 53 {
        Error::ISO97962InvalidArg1
    } else if code == 54 {
        Error::ISO97962InvalidArg2
    } else if code == 55 {
        Error::ISO97962InvalidArg3
    } else if code == 56 {
        Error::ISO97962InvalidArg4
    } else if code == 57 {
        Error::ISO97962InvalidArg5
    } else if code == 58 {
        Error::ISO97962InvalidArg6
    } else if code == 59 {
        Error::ISO97962InvalidArg7
    } else if code == 60 {
        Error::ISO97962InvalidArg8
    } else if code == 61 {
        Error::ISO97962InvalidArg9
    } else {
        Error::ISO97962RSAVerifyError
    }
}

/// Interprets one status code of the delegated verification capability:
/// zero is success, any other code the corresponding failure kind.
pub fn interpret_validation_code(code: i32) -> (r: Result<(), Error>)
    ensures
        r is Ok <==> code == 0,
        r matches Err(err) ==> err == validation_error(code),
{
    match code {
        0 => Ok(()),
        52 => Err(Error::ISO97962MismatchHash),
        53 => Err(Error::ISO97962InvalidArg1),
        54 => Err(Error::ISO97962InvalidArg2),
        55 => Err(Error::ISO97962InvalidArg3),
        56 => Err(Error::ISO97962InvalidArg4),
        57 => Err(Error::ISO97962InvalidArg5),
        58 => Err(Error::ISO97962InvalidArg6),
        59 => Err(Error::ISO97962InvalidArg7),
        60 => Err(Error::ISO97962InvalidArg8),
        61 => Err(Error::ISO97962InvalidArg9),
        _ => Err(Error::ISO97962RSAVerifyError),
    }
}

} // verus!
