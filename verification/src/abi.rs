//! Contract ABI coding of the values the channel exchanges with its account
//! contract, and Keccak-256 hashing.
//!
//! The coding and the hash themselves are computed by the `ethers` crate. The
//! three wrappers in this file are trusted: Verus believes their contracts.
//! Those of the encoder and of the hash only give the result a name; that of
//! the decoder states what it reads, which for the static types decoded here
//! is one 32-byte word for each type.

use crate::bytes::copy_bytes;
use crate::primitives::{word_value, Address, U256};
use ethers::abi::{ParamType, Token};
use ethers::types::{H160, U256 as Word256};
use vstd::prelude::*;

verus! {

/// One value to be ABI-coded.
#[derive(Debug, PartialEq, Eq)]
pub enum AbiValue {
    /// `address`
    Address(Address),
    /// `uintN`, as the 256-bit word that holds it
    Uint(U256),
    /// `intN`, as the 256-bit two's complement word that holds it
    Int(U256),
    /// `bytes32`
    Word([u8; 32]),
    /// `bytes`
    Bytes(Vec<u8>),
}

/// What an [`AbiValue`] stands for.
pub enum AbiTerm {
    Address(Seq<u8>),
    Uint(nat),
    Int(nat),
    Word(Seq<u8>),
    Bytes(Seq<u8>),
}

impl View for AbiValue {
    type V = AbiTerm;

    open spec fn view(&self) -> AbiTerm {
        match *self {
            AbiValue::Address(a) => AbiTerm::Address(a@),
            AbiValue::Uint(u) => AbiTerm::Uint(u@),
            AbiValue::Int(u) => AbiTerm::Int(u@),
            AbiValue::Word(w) => AbiTerm::Word(w@),
            AbiValue::Bytes(b) => AbiTerm::Bytes(b@),
        }
    }
}

impl Clone for AbiValue {
    fn clone(&self) -> (r: Self)
        ensures
            r@ == self@,
    {
        match self {
            AbiValue::Address(a) => AbiValue::Address(*a),
            AbiValue::Uint(u) => AbiValue::Uint(*u),
            AbiValue::Int(u) => AbiValue::Int(*u),
            AbiValue::Word(w) => AbiValue::Word(*w),
            AbiValue::Bytes(b) => AbiValue::Bytes(copy_bytes(b.as_slice())),
        }
    }
}

/// What a list of values stands for.
pub open spec fn terms(values: Seq<AbiValue>) -> Seq<AbiTerm> {
    Seq::new(values.len(), |i: int| values[i]@)
}

/// The static ABI types this library decodes.
#[derive(Clone, Copy, Debug, PartialEq, Eq, Structural)]
pub enum AbiKind {
    /// `address`
    Address,
    /// `uintN` with the given number of bits
    Uint(usize),
    /// `intN` with the given number of bits
    Int(usize),
}

/// The longest byte string that is handed to the encoder.
pub const MAX_BYTES: usize = 0x0400_0000;

/// The longest list of values that is handed to the encoder.
pub const MAX_VALUES: usize = 16;

/// The list is short and holds no byte string above [`MAX_BYTES`]: the
/// encoder counts in 32 bits, and what is larger could overflow its sums.
pub open spec fn encodable(terms: Seq<AbiTerm>) -> bool {
    &&& terms.len() <= MAX_VALUES
    &&& forall|i: int|
        0 <= i < terms.len() ==> ((#[trigger] terms[i]) matches AbiTerm::Bytes(b) ==> b.len()
            <= MAX_BYTES)
}

/// The bytes that `ethers::abi::encode` gives for a list of tokens.
pub uninterp spec fn spec_abi_encode(terms: Seq<AbiTerm>) -> Seq<u8>;

/// What a 32-byte word holds, read as a static type: an address in its last
/// 20 bytes, an integer as the big-endian number of all 32.
pub open spec fn decoded_term(kind: AbiKind, word: Seq<u8>) -> AbiTerm {
    match kind {
        AbiKind::Address => AbiTerm::Address(word.subrange(12, 32)),
        AbiKind::Uint(_) => AbiTerm::Uint(word_value(word)),
        AbiKind::Int(_) => AbiTerm::Int(word_value(word)),
    }
}

/// What `data` holds, read as a list of static types: one word for each
/// type, in order; nothing where the data is shorter than that. What follows
/// the last word is not looked at.
pub open spec fn spec_abi_decode(kinds: Seq<AbiKind>, data: Seq<u8>) -> Option<Seq<AbiTerm>> {
    if data.len() < 32 * kinds.len() {
        None
    } else {
        Some(
            Seq::new(
                kinds.len(),
                |i: int| decoded_term(kinds[i], data.subrange(32 * i, 32 * i + 32)),
            ),
        )
    }
}

/// The Keccak-256 digest of `data`.
pub uninterp spec fn spec_keccak256(data: Seq<u8>) -> Seq<u8>;

/// Trusted wrapper of `ethers::abi::encode`: turns each value into the token
/// of the same kind and encodes the list. The contract only names the result;
/// it claims that the encoding is a function of the values alone. Lists that
/// could overflow the encoder's 32-bit sums are left out.
#[verifier::external_body]
pub(crate) fn abi_encode(values: &Vec<AbiValue>) -> (out: Vec<u8>)
    requires
        encodable(terms(values@)),
    ensures
        out@ == spec_abi_encode(terms(values@)),
{
    let tokens: Vec<Token> = values.iter().map(|v| match v {
        AbiValue::Address(a) => Token::Address(H160(a.bytes)),
        AbiValue::Uint(u) => Token::Uint(Word256(u.limbs)),
        AbiValue::Int(u) => Token::Int(Word256(u.limbs)),
        AbiValue::Word(w) => Token::FixedBytes(w.to_vec()),
        AbiValue::Bytes(b) => Token::Bytes(b.clone()),
    }).collect();
    ethers::abi::encode(&tokens)
}

/// Trusted wrapper of `ethers::abi::decode`: decodes `data` as the given list
/// of static types and hands back the tokens as values of the same kind. The
/// contract claims what the decoder's source shows for these types: it reads
/// the words of the data in order, an address from the last 20 bytes of its
/// word and an integer as the big-endian number of its word, whatever the
/// number of bits; it fails where a word is missing, and it ignores what
/// follows the last word.
#[verifier::external_body]
pub(crate) fn abi_decode(kinds: &Vec<AbiKind>, data: &Vec<u8>) -> (out: Option<Vec<AbiValue>>)
    ensures
        out is None <==> spec_abi_decode(kinds@, data@) is None,
        out matches Some(v) ==> spec_abi_decode(kinds@, data@) == Some(terms(v@)),
{
    let types: Vec<ParamType> = kinds.iter().map(|k| match k {
        AbiKind::Address => ParamType::Address,
        AbiKind::Uint(bits) => ParamType::Uint(*bits),
        AbiKind::Int(bits) => ParamType::Int(*bits),
    }).collect();
    let tokens = ethers::abi::decode(&types, data).ok()?;
    tokens.into_iter().map(|t| match t {
        Token::Address(a) => Some(AbiValue::Address(Address { bytes: a.0 })),
        Token::Uint(u) => Some(AbiValue::Uint(U256 { limbs: u.0 })),
        Token::Int(u) => Some(AbiValue::Int(U256 { limbs: u.0 })),
        _ => None,
    }).collect()
}

/// Trusted wrapper of `ethers::utils::keccak256`. The contract only names the
/// digest; the result has 32 bytes by its type.
#[verifier::external_body]
pub(crate) fn keccak256(data: &Vec<u8>) -> (out: [u8; 32])
    ensures
        out@ == spec_keccak256(data@),
{
    ethers::utils::keccak256(data)
}

} // verus!
