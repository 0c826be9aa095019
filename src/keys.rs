use vstd::prelude::*;

use crate::address::{base58_decode, base58_value, Address};
use crate::error::BubblegumError;
use solana_sdk::signature::Keypair;
use solana_sdk::signer::Signer;

verus! {

#[verifier::external_type_specification]
#[verifier::external_body]
pub struct ExKeypair(Keypair);

/// Number of bytes in a key pair: the secret half, then the public half.
pub const KEYPAIR_LEN: usize = 64;

/// Whether 64 key-pair bytes are consistent: the public half is a valid
/// curve point and is the one derived from the secret half.
pub uninterp spec fn keypair_consistent(bytes: Seq<u8>) -> bool;

/// Whether `bytes` are accepted as a signing key pair.
pub open spec fn keypair_valid(bytes: Seq<u8>) -> bool {
    bytes.len() == KEYPAIR_LEN && keypair_consistent(bytes)
}

/// A key pair that can sign, together with its public address.
pub struct SigningKey {
    pair: Keypair,
    bytes: [u8; 64],
    address: Address,
}

impl SigningKey {
    /// The address that this key signs for.
    pub closed spec fn spec_address(&self) -> Seq<u8> {
        self.address@
    }

    /// The 64 bytes of this key pair: the secret half, then the public half.
    pub closed spec fn spec_bytes(&self) -> Seq<u8> {
        self.bytes@
    }

    /// The 64 bytes of this key pair.
    pub fn to_bytes(&self) -> (r: [u8; 64])
        ensures
            r@ == self.spec_bytes(),
    {
        self.bytes
    }

    /// The address that this key signs for.
    pub fn address(&self) -> (r: Address)
        ensures
            r@ == self.spec_address(),
    {
        self.address
    }

    /// The key pair itself, for signing.
    pub fn keypair(&self) -> &Keypair {
        &self.pair
    }
}

/// Relies on `Keypair::from_bytes` of solana-sdk: it accepts exactly 64
/// bytes whose public half is a valid point and matches the secret half; on
/// `Keypair::to_bytes`, which gives those bytes back; and on
/// `Keypair::pubkey`, which is then the public half.
#[verifier::external_body]
fn keypair_from_bytes(bytes: &[u8]) -> (r: Result<SigningKey, String>)
    ensures
        r is Ok <==> (bytes@.len() == KEYPAIR_LEN && keypair_consistent(bytes@)),
        r matches Ok(k) ==> k.spec_address() == bytes@.subrange(32, 64) && k.spec_bytes()
            == bytes@,
{
    let pair = Keypair::from_bytes(bytes).map_err(|e| e.to_string())?;
    let address = Address { bytes: pair.pubkey().to_bytes() };
    Ok(SigningKey { bytes: pair.to_bytes(), pair, address })
}

/// Relies on `Keypair::new` of solana-sdk: a fresh random key pair, its
/// bytes (`Keypair::to_bytes`) and its address (`Keypair::pubkey`).
#[verifier::external_body]
pub(crate) fn fresh_signing_key() -> (r: SigningKey) {
    let pair = Keypair::new();
    let address = Address { bytes: pair.pubkey().to_bytes() };
    SigningKey { bytes: pair.to_bytes(), pair, address }
}

/// Checks raw key-pair bytes and makes a signing key of them.
pub fn parse_keypair(bytes: &[u8]) -> (r: Result<SigningKey, BubblegumError>)
    ensures
        r is Ok <==> keypair_valid(bytes@),
        r matches Ok(k) ==> k.spec_address() == bytes@.subrange(32, 64) && k.spec_bytes()
            == bytes@,
        r matches Err(e) ==> e is InvalidKeypair,
{
    match keypair_from_bytes(bytes) {
        Ok(k) => Ok(k),
        Err(msg) => Err(BubblegumError::InvalidKeypair(msg)),
    }
}

/// What decoding a base-58 key text yields: `None` where it is not base-58,
/// else whether its bytes make a valid key pair.
pub open spec fn key_text_outcome(text: Seq<char>) -> Option<bool> {
    match base58_value(text) {
        Some(b) => Some(keypair_valid(b)),
        None => None,
    }
}

/// Decodes a base-58 key text and checks it as a key pair.
pub fn decode_signing_key(text: &str) -> (r: Result<SigningKey, BubblegumError>)
    ensures
        key_text_outcome(text@) is None <==> r matches Err(BubblegumError::InvalidEncoding(_)),
        key_text_outcome(text@) == Some(false) <==> r matches Err(BubblegumError::InvalidKeypair(_)),
        r is Ok <==> key_text_outcome(text@) == Some(true),
        r matches Ok(k) ==> k.spec_address() == base58_value(text@)->0.subrange(32, 64)
            && k.spec_bytes() == base58_value(text@)->0,
{
    match base58_decode(text) {
        Err(msg) => Err(BubblegumError::InvalidEncoding(msg)),
        Ok(bytes) => parse_keypair(bytes.as_slice()),
    }
}

} // verus!
