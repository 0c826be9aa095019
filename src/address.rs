use vstd::prelude::*;

use crate::error::BubblegumError;
use vstd::string::StringSliceAdditionalSpecFns;
use vstd::utf8::encode_utf8;

verus! {

/// Number of bytes in an address of the ledger.
pub const ADDRESS_LEN: usize = 32;

/// The bytes that a base-58 text stands for, or `None` where the text is not
/// base-58 (Bitcoin alphabet).
pub uninterp spec fn base58_value(text: Seq<char>) -> Option<Seq<u8>>;

/// A 32-byte ledger address.
#[derive(Debug, Clone, Copy, PartialEq, Eq)]
pub struct Address {
    pub bytes: [u8; 32],
}

impl View for Address {
    type V = Seq<u8>;

    open spec fn view(&self) -> Seq<u8> {
        self.bytes@
    }
}

/// Longest text, in bytes, that is read as an address.
pub const MAX_ADDRESS_TEXT: usize = 44;

/// The message of an address text whose length is wrong.
pub open spec fn wrong_size_message() -> Seq<char> {
    "String is the wrong size"@
}

/// The message of an address text that is not base-58.
pub open spec fn invalid_base58_message() -> Seq<char> {
    "Invalid Base58 string"@
}

/// What parsing `text` as an address yields: the decoded bytes, or the
/// message of the first check that fails (length of the text, alphabet,
/// length of the decoded bytes).
pub open spec fn pubkey_parse(text: Seq<char>) -> Result<Seq<u8>, Seq<char>> {
    if encode_utf8(text).len() > MAX_ADDRESS_TEXT {
        Err(wrong_size_message())
    } else {
        match base58_value(text) {
            Some(b) => if b.len() == ADDRESS_LEN { Ok(b) } else { Err(wrong_size_message()) },
            None => Err(invalid_base58_message()),
        }
    }
}

/// The address that `text` parses to, if any.
pub open spec fn address_of(text: Seq<char>) -> Option<Seq<u8>> {
    match pubkey_parse(text) {
        Ok(b) => Some(b),
        Err(_) => None,
    }
}

/// Whether `r` is the result of parsing a text whose outcome is `p`.
pub open spec fn parsed_as(r: Result<Address, BubblegumError>, p: Result<Seq<u8>, Seq<char>>) -> bool {
    match p {
        Ok(b) => r matches Ok(a) && a@ == b,
        Err(m) => r matches Err(BubblegumError::InvalidPublicKey(msg)) && msg@ == m,
    }
}

/// Relies on `bs58::decode(..).into_vec()`: the bytes of a base-58 text, or
/// its error message where the text holds a character outside the alphabet.
#[verifier::external_body]
pub(crate) fn base58_decode(text: &str) -> (r: Result<Vec<u8>, String>)
    ensures
        r is Ok <==> base58_value(text@) is Some,
        r matches Ok(b) ==> base58_value(text@) == Some(b@),
{
    bs58::decode(text).into_vec().map_err(|e| e.to_string())
}

/// Relies on `bs58::encode(..).into_string()`: the base-58 text of the bytes,
/// which decodes back to them. The text is ASCII with one character per
/// base-58 digit and one `1` per leading zero byte; as 58^44 > 256^32, the
/// text of 32 bytes has at most 44 characters.
#[verifier::external_body]
pub(crate) fn base58_encode(bytes: &[u8]) -> (r: String)
    ensures
        base58_value(r@) == Some(bytes@),
        bytes@.len() == ADDRESS_LEN ==> encode_utf8(r@).len() <= MAX_ADDRESS_TEXT,
{
    bs58::encode(bytes).into_string()
}

impl Address {
    /// The base-58 text of this address.
    pub fn to_text(&self) -> (r: String)
        ensures
            base58_value(r@) == Some(self@),
            encode_utf8(r@).len() <= MAX_ADDRESS_TEXT,
    {
        base58_encode(self.bytes.as_slice())
    }
}

/// Parses the base-58 text of an address.
pub fn parse_pubkey(text: &str) -> (r: Result<Address, BubblegumError>)
    ensures
        parsed_as(r, pubkey_parse(text@)),
        r is Ok <==> address_of(text@) is Some,
        r matches Ok(a) ==> address_of(text@) == Some(a@),
{
    proof {
        reveal_strlit("String is the wrong size");
        reveal_strlit("Invalid Base58 string");
    }
    assert(text.spec_bytes() == encode_utf8(text@));
    if text.as_bytes().len() > MAX_ADDRESS_TEXT {
        return Err(BubblegumError::InvalidPublicKey("String is the wrong size".to_owned()));
    }
    match base58_decode(text) {
        Err(_) => Err(BubblegumError::InvalidPublicKey("Invalid Base58 string".to_owned())),
        Ok(bytes) => {
            if bytes.len() != ADDRESS_LEN {
                return Err(BubblegumError::InvalidPublicKey("String is the wrong size".to_owned()));
            }
            let mut arr: [u8; 32] = [0u8; 32];
            let mut i: usize = 0;
            while i < ADDRESS_LEN
                invariant
                    bytes@.len() == ADDRESS_LEN,
                    i <= ADDRESS_LEN,
                    forall|j: int| 0 <= j < i ==> arr@[j] == bytes@[j],
                decreases ADDRESS_LEN - i,
            {
                arr[i] = bytes[i];
                i += 1;
            }
            assert(arr@ =~= bytes@);
            Ok(Address { bytes: arr })
        },
    }
}

/// Parsing the text of an address gives that address back; the text of a
/// byte string of any other length does not parse.
pub proof fn lemma_address_round_trip(bytes: Seq<u8>, text: Seq<char>)
    requires
        base58_value(text) == Some(bytes),
        bytes.len() == ADDRESS_LEN ==> encode_utf8(text).len() <= MAX_ADDRESS_TEXT,
    ensures
        bytes.len() == ADDRESS_LEN ==> address_of(text) == Some(bytes),
        bytes.len() != ADDRESS_LEN ==> address_of(text) is None,
{
}

} // verus!
