//! The device key: Ed25519 keys held as their 32-byte seed, their PKCS#8 and
//! SPKI encodings, PEM, and SHA-256.
use vstd::prelude::*;
use ed25519_dalek::pkcs8::{DecodePrivateKey, EncodePrivateKey, EncodePublicKey};
use ed25519_dalek::Signer;
use sha2::Digest;

verus! {

/// A byte result or an error text, as plain values.
pub open spec fn bytes_or_error(r: Result<Vec<u8>, String>) -> Result<Seq<u8>, Seq<char>> {
    match r {
        Ok(b) => Ok(b@),
        Err(e) => Err(e@),
    }
}

/// The public key (32 bytes) of the Ed25519 key with this seed.
pub uninterp spec fn ed25519_public(seed: Seq<u8>) -> Seq<u8>;

/// The Ed25519 signature (64 bytes) of `msg` under the key with this seed.
pub uninterp spec fn ed25519_signature(seed: Seq<u8>, msg: Seq<u8>) -> Seq<u8>;

/// The PKCS#8 DER document of the key with this seed, or the error text.
pub uninterp spec fn ed25519_pkcs8_der(seed: Seq<u8>) -> Result<Seq<u8>, Seq<char>>;

/// The SPKI DER document of the public key of the key with this seed, or the
/// error text.
pub uninterp spec fn ed25519_spki_der(seed: Seq<u8>) -> Result<Seq<u8>, Seq<char>>;

/// The seed of the key that a PKCS#8 DER document holds, or the error text.
pub uninterp spec fn ed25519_seed_of_pkcs8(der: Seq<u8>) -> Result<Seq<u8>, Seq<char>>;

/// The SHA-256 digest (32 bytes) of the data.
pub uninterp spec fn sha256_digest(data: Seq<u8>) -> Seq<u8>;

/// The contents of the first PEM block in the text, or the error text.
pub uninterp spec fn pem_contents(text: Seq<char>) -> Result<Seq<u8>, Seq<char>>;

/// The PEM block with this tag and contents, lines ending in `\n`.
pub uninterp spec fn pem_block(tag: Seq<char>, contents: Seq<u8>) -> Seq<char>;

/// Calls `SigningKey::verifying_key` on the key that
/// `SigningKey::from_bytes` makes of the seed, and gives back the verifying
/// key's 32 bytes.
#[verifier::external_body]
pub(crate) fn public_key_of(seed: &[u8]) -> (r: Vec<u8>)
    requires
        seed@.len() == 32,
    ensures
        r@ == ed25519_public(seed@),
        r@.len() == 32,
{
    let seed: [u8; 32] = seed.try_into().unwrap();
    ed25519_dalek::SigningKey::from_bytes(&seed).verifying_key().to_bytes().to_vec()
}

/// Calls `Signer::sign` with the key that `SigningKey::from_bytes` makes of
/// the seed, and gives back the signature's 64 bytes. Ed25519 signing is
/// deterministic.
#[verifier::external_body]
pub(crate) fn sign_with(seed: &[u8], msg: &[u8]) -> (r: Vec<u8>)
    requires
        seed@.len() == 32,
    ensures
        r@ == ed25519_signature(seed@, msg@),
        r@.len() == 64,
{
    let seed: [u8; 32] = seed.try_into().unwrap();
    ed25519_dalek::SigningKey::from_bytes(&seed).sign(msg).to_bytes().to_vec()
}

/// Calls `EncodePrivateKey::to_pkcs8_der` on the key with this seed; an
/// error becomes its `Display` text. It does not fail: the document it
/// encodes (the algorithm and a 34-byte key string) is of fixed, small size,
/// and encoding fails only on lengths past the DER limits.
#[verifier::external_body]
pub(crate) fn private_key_der(seed: &[u8]) -> (r: Result<Vec<u8>, String>)
    requires
        seed@.len() == 32,
    ensures
        bytes_or_error(r) == ed25519_pkcs8_der(seed@),
        r is Ok,
{
    let seed: [u8; 32] = seed.try_into().unwrap();
    match ed25519_dalek::SigningKey::from_bytes(&seed).to_pkcs8_der() {
        Ok(doc) => Ok(doc.as_bytes().to_vec()),
        Err(err) => Err(err.to_string()),
    }
}

/// Calls `EncodePublicKey::to_public_key_der` on the verifying key of the key
/// with this seed; an error becomes its `Display` text. It does not fail: the
/// bit string of the 32 key bytes has no unused bits, and the document is of
/// fixed, small size.
#[verifier::external_body]
pub(crate) fn public_key_der(seed: &[u8]) -> (r: Result<Vec<u8>, String>)
    requires
        seed@.len() == 32,
    ensures
        bytes_or_error(r) == ed25519_spki_der(seed@),
        r is Ok,
{
    let seed: [u8; 32] = seed.try_into().unwrap();
    match ed25519_dalek::SigningKey::from_bytes(&seed).verifying_key().to_public_key_der() {
        Ok(doc) => Ok(doc.as_bytes().to_vec()),
        Err(err) => Err(err.to_string()),
    }
}

/// Calls `DecodePrivateKey::from_pkcs8_der` for an Ed25519 `SigningKey` and
/// gives back its 32-byte seed (`SigningKey::to_bytes`); an error becomes its
/// `Display` text.
#[verifier::external_body]
pub(crate) fn seed_from_private_key_der(der: &[u8]) -> (r: Result<Vec<u8>, String>)
    ensures
        bytes_or_error(r) == ed25519_seed_of_pkcs8(der@),
        r matches Ok(s) ==> s@.len() == 32,
{
    match ed25519_dalek::SigningKey::from_pkcs8_der(der) {
        Ok(key) => Ok(key.to_bytes().to_vec()),
        Err(err) => Err(err.to_string()),
    }
}

/// Calls `Sha256::digest` and gives back the 32 bytes.
#[verifier::external_body]
pub(crate) fn sha256(data: &[u8]) -> (r: Vec<u8>)
    ensures
        r@ == sha256_digest(data@),
        r@.len() == 32,
{
    sha2::Sha256::digest(data).to_vec()
}

/// Calls `pem::parse` and gives back the block's contents (`Pem::contents`);
/// an error becomes its `Display` text.
#[verifier::external_body]
pub(crate) fn pem_parse(text: &str) -> (r: Result<Vec<u8>, String>)
    ensures
        bytes_or_error(r) == pem_contents(text@),
{
    match pem::parse(text) {
        Ok(p) => Ok(p.contents().to_vec()),
        Err(err) => Err(err.to_string()),
    }
}

/// Calls `pem::encode_config` on `Pem::new(tag, contents)` with `\n` line
/// endings.
#[verifier::external_body]
pub(crate) fn pem_encode(tag: &str, contents: &[u8]) -> (r: String)
    ensures
        r@ == pem_block(tag@, contents@),
{
    pem::encode_config(
        &pem::Pem::new(tag, contents.to_vec()),
        pem::EncodeConfig::new().set_line_ending(pem::LineEnding::LF),
    )
}

} // verus!
