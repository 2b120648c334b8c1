//! secp256k1 keys: addresses, signatures over 32-byte digests, recovery of the
//! signer, and fresh randomness.
//!
//! All of it is computed by the `ethers` crate (and `rand` for the system's
//! random source). The wrappers in this file are trusted: Verus believes their
//! contracts.

use crate::primitives::Address;
use ethers::prelude::k256::ecdsa::SigningKey;
use ethers::signers::Wallet;
use ethers::types::Signature;
use rand::rngs::OsRng;
use rand::RngCore;
use vstd::prelude::*;

verus! {

/// The address of the account that the private key `key` controls, or `None`
/// where the bytes are no private key.
pub uninterp spec fn spec_key_address(key: Seq<u8>) -> Option<Seq<u8>>;

/// The signature that the private key `key` gives over `digest`, taken as a
/// message to be prefixed and hashed as EIP-191 says; `None` where the bytes
/// are no private key or signing fails.
pub uninterp spec fn spec_sign(key: Seq<u8>, digest: Seq<u8>) -> Option<Seq<u8>>;

/// The address whose key gave `signature` over `digest`, taken as a message
/// as in [`spec_sign`]; `None` where the bytes are no signature or no key is
/// recovered.
pub uninterp spec fn spec_recover(signature: Seq<u8>, digest: Seq<u8>) -> Option<Seq<u8>>;

/// Trusted wrapper of `SigningKey::from_slice` followed by
/// `ethers::utils::secret_key_to_address`. The contract only names the
/// result: `None` where the bytes are refused as a key.
#[verifier::external_body]
pub(crate) fn key_address(key: &Vec<u8>) -> (out: Option<Address>)
    ensures
        out is None <==> spec_key_address(key@) is None,
        out matches Some(a) ==> spec_key_address(key@) == Some(a@),
{
    let signing_key = SigningKey::from_slice(key).ok()?;
    Some(Address { bytes: ethers::utils::secret_key_to_address(&signing_key).0 })
}

/// Trusted wrapper of `Wallet::sign_hash` on `ethers::utils::hash_message` of
/// the digest, which is what `Signer::sign_message` of a wallet does. The
/// result is the 65 bytes `r`, `s`, `v` of the signature. The contract only
/// names the result; signing with a secp256k1 key is deterministic.
#[verifier::external_body]
pub(crate) fn sign_digest(key: &Vec<u8>, digest: &[u8; 32]) -> (out: Option<Vec<u8>>)
    ensures
        out is None <==> spec_sign(key@, digest@) is None,
        out matches Some(s) ==> spec_sign(key@, digest@) == Some(s@),
{
    let wallet = Wallet::from(SigningKey::from_slice(key).ok()?);
    let signature = wallet.sign_hash(ethers::utils::hash_message(digest)).ok()?;
    Some(signature.to_vec())
}

/// Trusted wrapper of `Signature::try_from` on the bytes followed by
/// `Signature::recover` with the digest as message bytes. The contract only
/// names the result: `None` where either call fails.
#[verifier::external_body]
pub(crate) fn recover_signer(signature: &Vec<u8>, digest: &[u8; 32]) -> (out: Option<Address>)
    ensures
        out is None <==> spec_recover(signature@, digest@) is None,
        out matches Some(a) ==> spec_recover(signature@, digest@) == Some(a@),
{
    let parsed = Signature::try_from(signature.as_slice()).ok()?;
    let signer = parsed.recover(digest.to_vec()).ok()?;
    Some(Address { bytes: signer.0 })
}

/// Trusted wrapper of `RngCore::try_fill_bytes` on `OsRng`: 32 bytes from the
/// system's random source, or `None` where the system gives none. Nothing is
/// claimed of the bytes.
#[verifier::external_body]
pub(crate) fn random_bytes() -> Option<[u8; 32]> {
    let mut bytes = [0u8; 32];
    OsRng.try_fill_bytes(&mut bytes).ok()?;
    Some(bytes)
}

} // verus!
