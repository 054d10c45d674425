//! An on-chain authorization check for spending a cell guarded by an RSA
//! keypair: the spender supplies a witness holding a four-chunk ISO 9796-2
//! signature together with the public key, the key's fingerprint must match
//! the 20-byte lock argument recorded on the cell, and each signature chunk
//! must verify against the corresponding 8-byte slice of a commitment digest
//! derived from the transaction hash and its witnesses.

pub mod commitment;
pub mod entry;
pub mod error;
pub mod fingerprint;
pub mod rsa;
pub mod witness;
