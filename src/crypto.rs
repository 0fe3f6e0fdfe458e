//! The outside cryptography that the protocol calls: RSA with PKCS#1 v1.5
//! padding, AES-256-GCM-SIV, and the thread-local random number generator.

use vstd::prelude::*;
use aes_gcm_siv::aead::{Aead, KeyInit, Payload};
use rand::RngCore;

verus! {

/// An RSA public key, held opaquely.
#[verifier::external_type_specification]
#[verifier::external_body]
pub struct ExRsaPublicKey(rsa::RsaPublicKey);

/// The error that an RSA operation reports.
#[verifier::external_type_specification]
#[verifier::external_body]
pub struct ExRsaError(rsa::Error);

/// The error that an AEAD operation reports.
#[verifier::external_type_specification]
#[verifier::external_body]
pub struct ExAeadError(aes_gcm_siv::aead::Error);

/// Length of an AES-256 key in bytes.
pub const AEAD_KEY_LEN: usize = 32;

/// Length of an AES-GCM-SIV nonce in bytes.
pub const NONCE_LEN: usize = 12;

/// Length of the authentication tag that AES-GCM-SIV appends.
pub const TAG_LEN: usize = 16;

/// Largest plaintext, and largest associated data, that AES-GCM-SIV accepts.
pub const AEAD_MAX_LEN: u64 = 0x10_0000_0000;

/// What AES-256-GCM-SIV encryption yields for a key, nonce, associated data
/// and plaintext.
pub uninterp spec fn gcm_siv_seal(key: Seq<u8>, nonce: Seq<u8>, aad: Seq<u8>, msg: Seq<u8>) -> Seq<u8>;

/// What AES-256-GCM-SIV decryption yields for a key, nonce, associated data
/// and ciphertext: the plaintext, or `None` where the tag does not check.
pub uninterp spec fn gcm_siv_open(key: Seq<u8>, nonce: Seq<u8>, aad: Seq<u8>, ct: Seq<u8>) -> Option<Seq<u8>>;

/// What parsing a PKCS#8 DER RSA private key and decrypting a PKCS#1 v1.5
/// ciphertext with it yields: the message, or `None` where either fails.
pub uninterp spec fn pkcs1v15_decrypt_of(key_der: Seq<u8>, ct: Seq<u8>) -> Option<Seq<u8>>;

/// The modulus length in bytes of a PKCS#8 DER RSA private key, or `None`
/// where the bytes do not parse as one.
pub uninterp spec fn modulus_len_of(key_der: Seq<u8>) -> Option<usize>;

/// Relies on `rand::thread_rng` and `RngCore::fill_bytes`: `n` bytes from a
/// cryptographically secure generator.
#[verifier::external_body]
pub(crate) fn random_bytes(n: usize) -> (r: Vec<u8>)
    ensures
        r@.len() == n,
{
    let mut buf = vec![0u8; n];
    rand::thread_rng().fill_bytes(&mut buf);
    buf
}

/// Relies on `RsaPublicKey::encrypt` with `Pkcs1v15Encrypt`: it pads with
/// random bytes and refuses a message longer than the modulus length less 11.
#[verifier::external_body]
pub(crate) fn rsa_encrypt(key: &rsa::RsaPublicKey, msg: &Vec<u8>) -> (r: Result<Vec<u8>, rsa::Error>)
{
    key.encrypt(&mut rand::thread_rng(), rsa::Pkcs1v15Encrypt, msg.as_slice())
}

/// Relies on `DecodePrivateKey::from_pkcs8_der` for `RsaPrivateKey`, then
/// `RsaPrivateKey::decrypt` with `Pkcs1v15Encrypt`, which draws no random
/// numbers: the result depends on the key bytes and the ciphertext alone.
/// `None` where the key does not parse or the ciphertext does not decrypt to
/// a padded block.
#[verifier::external_body]
pub(crate) fn rsa_decrypt(key_der: &Vec<u8>, ct: &Vec<u8>) -> (r: Option<Vec<u8>>)
    ensures
        r is Some <==> pkcs1v15_decrypt_of(key_der@, ct@) is Some,
        r is Some ==> pkcs1v15_decrypt_of(key_der@, ct@) == Some(r->Some_0@),
{
    match <rsa::RsaPrivateKey as rsa::pkcs8::DecodePrivateKey>::from_pkcs8_der(key_der.as_slice()) {
        Ok(key) => key.decrypt(rsa::Pkcs1v15Encrypt, ct.as_slice()).ok(),
        Err(_) => None,
    }
}

/// Relies on `DecodePrivateKey::from_pkcs8_der` for `RsaPrivateKey`, then
/// `PublicKeyParts::size`: the modulus length in bytes, which is the length
/// of every ciphertext made for this key. `None` where the key does not parse.
#[verifier::external_body]
pub(crate) fn rsa_key_size(key_der: &Vec<u8>) -> (r: Option<usize>)
    ensures
        r == modulus_len_of(key_der@),
{
    match <rsa::RsaPrivateKey as rsa::pkcs8::DecodePrivateKey>::from_pkcs8_der(key_der.as_slice()) {
        Ok(key) => Some(rsa::traits::PublicKeyParts::size(&key)),
        Err(_) => None,
    }
}

/// Relies on `Aes256GcmSiv::new` and `Aead::encrypt`: the ciphertext is the
/// encrypted message followed by a 16-byte tag, decryption with the same key,
/// nonce and associated data gives the message back, and only a message or
/// associated data over 2^36 bytes is refused.
#[verifier::external_body]
pub(crate) fn aead_seal(key: &Vec<u8>, nonce: &Vec<u8>, aad: &Vec<u8>, msg: &Vec<u8>) -> (r: Result<Vec<u8>, aes_gcm_siv::aead::Error>)
    requires
        key@.len() == AEAD_KEY_LEN,
        nonce@.len() == NONCE_LEN,
    ensures
        msg@.len() <= AEAD_MAX_LEN && aad@.len() <= AEAD_MAX_LEN ==> r is Ok,
        r is Ok ==> r->Ok_0@ == gcm_siv_seal(key@, nonce@, aad@, msg@),
        r is Ok ==> r->Ok_0@.len() == msg@.len() + TAG_LEN,
        r is Ok ==> gcm_siv_open(key@, nonce@, aad@, r->Ok_0@) == Some(msg@),
{
    let cipher = aes_gcm_siv::Aes256GcmSiv::new(aes_gcm_siv::Key::<aes_gcm_siv::Aes256GcmSiv>::from_slice(key));
    let payload = Payload { msg: msg.as_slice(), aad: aad.as_slice() };
    cipher.encrypt(aes_gcm_siv::Nonce::from_slice(nonce), payload)
}

/// Relies on `Aes256GcmSiv::new` and `Aead::decrypt`: the plaintext where the
/// tag checks, an error where it does not.
#[verifier::external_body]
pub(crate) fn aead_open(key: &Vec<u8>, nonce: &Vec<u8>, aad: &Vec<u8>, ct: &Vec<u8>) -> (r: Result<Vec<u8>, aes_gcm_siv::aead::Error>)
    requires
        key@.len() == AEAD_KEY_LEN,
        nonce@.len() == NONCE_LEN,
    ensures
        r is Ok <==> gcm_siv_open(key@, nonce@, aad@, ct@) is Some,
        r is Ok ==> Some(r->Ok_0@) == gcm_siv_open(key@, nonce@, aad@, ct@),
{
    let cipher = aes_gcm_siv::Aes256GcmSiv::new(aes_gcm_siv::Key::<aes_gcm_siv::Aes256GcmSiv>::from_slice(key));
    let payload = Payload { msg: ct.as_slice(), aad: aad.as_slice() };
    cipher.decrypt(aes_gcm_siv::Nonce::from_slice(nonce), payload)
}

} // verus!
