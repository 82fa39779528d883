//! Public keys as the protocol compares and derives them.
use std::str::FromStr;
use vstd::prelude::*;
use vstd::utf8::{decode_utf8, valid_utf8};

use crate::error::CustomError;

verus! {

/// A 32-byte ledger address: of a signer, of a mint, or of an account that a
/// program owns.
#[derive(Clone, Copy, Debug, PartialEq, Eq)]
pub struct Pubkey {
    pub bytes: [u8; 32],
}

impl View for Pubkey {
    type V = Seq<u8>;

    open spec fn view(&self) -> Seq<u8> {
        self.bytes@
    }
}

/// A string of `len` zero bytes.
pub open spec fn zero_bytes(len: nat) -> Seq<u8> {
    Seq::new(len, |i: int| 0u8)
}

/// Tells whether 32 bytes are all zero.
pub fn bytes32_are_zero(bytes: &[u8; 32]) -> (zero: bool)
    ensures
        zero == (bytes@ == zero_bytes(32)),
{
    let mut i: usize = 0;
    while i < 32
        invariant
            i <= 32,
            forall|j: int| 0 <= j < i ==> bytes@[j] == 0,
        decreases 32 - i,
    {
        if bytes[i] != 0 {
            assert(zero_bytes(32)[i as int] == 0);
            return false;
        }
        i += 1;
    }
    assert(bytes@ =~= zero_bytes(32));
    true
}

impl Default for Pubkey {
    /// The key of 32 zero bytes.
    fn default() -> (key: Pubkey)
        ensures
            key@ == zero_bytes(32),
    {
        let key = Pubkey { bytes: [0u8; 32] };
        assert(key@ =~= zero_bytes(32));
        key
    }
}

/// Calls `sol_memcmp` of `solana_program::program_memory` on the 32 bytes of
/// each key. The contract claims of the result only what the crate's
/// documentation promises with "like C `memcmp`" and what callers need: it
/// is zero exactly when the two keys hold the same bytes.
#[verifier::external_body]
fn sol_memcmp_keys(a: &Pubkey, b: &Pubkey) -> (order: i32)
    ensures
        order == 0 <==> a@ == b@,
{
    anchor_lang::solana_program::program_memory::sol_memcmp(&a.bytes, &b.bytes, 32)
}

/// Compares two public keys for equality.
pub fn cmp_pubkeys(a: &Pubkey, b: &Pubkey) -> (same: bool)
    ensures
        same == (*a == *b),
{
    let order = sol_memcmp_keys(a, b);
    proof {
        if a@ == b@ {
            assert(a.bytes =~= b.bytes);
        }
    }
    order == 0
}

/// Checks that two public keys are equal, and rejects with `error_type` when
/// they are not.
pub fn assert_keys_equal(key1: &Pubkey, key2: &Pubkey, error_type: CustomError) -> (r: Result<
    (),
    CustomError,
>)
    ensures
        r == keys_equal_or(*key1, *key2, error_type),
{
    if !cmp_pubkeys(key1, key2) {
        Err(error_type)
    } else {
        Ok(())
    }
}

/// `Ok` when the two keys are the same key, otherwise the given error.
pub open spec fn keys_equal_or(key1: Pubkey, key2: Pubkey, error_type: CustomError) -> Result<
    (),
    CustomError,
> {
    if key1 == key2 {
        Ok(())
    } else {
        Err(error_type)
    }
}

/// The key whose 32 bytes are `bytes`.
pub open spec fn pubkey_of_bytes(bytes: Seq<u8>) -> Pubkey {
    choose|key: Pubkey| key@ == bytes
}

/// A key is the key of its own bytes.
pub proof fn lemma_pubkey_of_bytes(key: Pubkey)
    ensures
        pubkey_of_bytes(key@) == key,
{
    let other = pubkey_of_bytes(key@);
    assert(other@ == key@);
    assert(other.bytes =~= key.bytes);
}

/// The error of `String::from_utf8`. It is carried through unopened.
#[verifier::external_type_specification]
#[verifier::external_body]
pub struct ExFromUtf8Error(std::string::FromUtf8Error);

/// The error of `Pubkey::from_str` of `solana_program`. It is carried
/// through unopened.
#[verifier::external_type_specification]
#[verifier::external_body]
pub struct ExParsePubkeyError(anchor_lang::solana_program::pubkey::ParsePubkeyError);

/// The 32 bytes that a text spells in base 58, as `Pubkey::from_str` of
/// `solana_program` decodes it; `None` for a text that it rejects.
pub uninterp spec fn base58_pubkey(text: Seq<char>) -> Option<Seq<u8>>;

/// The key that a text spells in base 58, if it spells one.
pub open spec fn parsed_pubkey(text: Seq<char>) -> Option<Pubkey> {
    match base58_pubkey(text) {
        Some(bytes) => Some(pubkey_of_bytes(bytes)),
        None => None,
    }
}

/// Calls `String::from_utf8` on a copy of the bytes. The contract claims
/// what std documents: the call succeeds exactly on valid UTF-8, and the
/// string then holds the characters that the bytes encode.
#[verifier::external_body]
fn string_from_utf8(bytes: &Vec<u8>) -> (r: Result<String, std::string::FromUtf8Error>)
    ensures
        r is Ok <==> valid_utf8(bytes@),
        r is Ok ==> r->Ok_0@ == decode_utf8(bytes@),
{
    String::from_utf8(bytes.to_vec())
}

/// Calls `Pubkey::from_str` of `solana_program`, which decodes base 58 and
/// accepts a text of at most 44 bytes that decodes to exactly 32. The
/// contract only gives the outcome its name, `base58_pubkey`.
#[verifier::external_body]
fn pubkey_from_str(text: &str) -> (r: Result<
    Pubkey,
    anchor_lang::solana_program::pubkey::ParsePubkeyError,
>)
    ensures
        r is Ok <==> base58_pubkey(text@) is Some,
        r is Ok ==> r->Ok_0@ == base58_pubkey(text@)->0,
{
    anchor_lang::prelude::Pubkey::from_str(text).map(|key| Pubkey { bytes: key.to_bytes() })
}

/// What `vec_u8_to_publickey` returns on `bytes`.
pub open spec fn publickey_of_text(bytes: Seq<u8>) -> Result<Pubkey, CustomError> {
    if !valid_utf8(bytes) {
        Err(CustomError::InvalidPublicKey)
    } else {
        match parsed_pubkey(decode_utf8(bytes)) {
            Some(key) => Ok(key),
            None => Err(CustomError::InvalidPublicKey),
        }
    }
}

/// What `vec_u8_to_address` returns on `bytes`.
pub open spec fn address_of_text(bytes: Seq<u8>) -> Result<Option<Pubkey>, CustomError> {
    if !valid_utf8(bytes) {
        Err(CustomError::InvalidPublicKey)
    } else if decode_utf8(bytes) == "native"@ {
        Ok(None)
    } else {
        match parsed_pubkey(decode_utf8(bytes)) {
            Some(key) => Ok(Some(key)),
            None => Err(CustomError::InvalidPublicKey),
        }
    }
}

/// Reads a public key from its base-58 text, given as UTF-8 bytes. Bytes
/// that are not UTF-8, or whose text spells no key, are rejected with
/// `InvalidPublicKey`.
pub fn vec_u8_to_publickey(v: &Vec<u8>) -> (r: Result<Pubkey, CustomError>)
    ensures
        r == publickey_of_text(v@),
{
    let key_str = match string_from_utf8(v) {
        Ok(text) => text,
        Err(_) => {
            return Err(CustomError::InvalidPublicKey);
        },
    };
    match pubkey_from_str(key_str.as_str()) {
        Ok(key) => {
            proof {
                lemma_pubkey_of_bytes(key);
            }
            Ok(key)
        },
        Err(_) => Err(CustomError::InvalidPublicKey),
    }
}

/// Reads an asset designator from UTF-8 bytes: the text `native` stands for
/// the native currency and gives `None`; any other text must spell the
/// mint's public key in base 58, else it is rejected with
/// `InvalidPublicKey`.
pub fn vec_u8_to_address(v: &Vec<u8>) -> (r: Result<Option<Pubkey>, CustomError>)
    ensures
        r == address_of_text(v@),
{
    let key_str = match string_from_utf8(v) {
        Ok(text) => text,
        Err(_) => {
            return Err(CustomError::InvalidPublicKey);
        },
    };
    let native = "native".to_owned();
    if key_str == native {
        return Ok(None);
    }
    match pubkey_from_str(key_str.as_str()) {
        Ok(key) => {
            proof {
                lemma_pubkey_of_bytes(key);
            }
            Ok(Some(key))
        },
        Err(_) => Err(CustomError::InvalidPublicKey),
    }
}

} // verus!
