//! The cryptographic primitives under the envelope: X25519 key agreement,
//! Ed25519 signatures, XChaCha20-Poly1305 authenticated encryption, SHA-256 and
//! the operating system's random source.
//!
//! Nothing here is proved. Each function hands plain bytes to the crate that
//! implements the primitive, and its contract gives the result a name, with the
//! few facts about it that the envelope's proofs need.

use vstd::prelude::*;
use chacha20poly1305::aead::{Aead, KeyInit};
use ed25519_dalek::{Signer, Verifier};
use rand::RngCore;
use sha2::Digest;

verus! {

/// Length of every key of an identity, public or secret.
pub const KEY_LEN: usize = 32;

/// Length of an Ed25519 signature.
pub const SIGNATURE_LEN: usize = 64;

/// Length of the nonce of the extended-nonce cipher.
pub const NONCE_LEN: usize = 24;

/// Length of the authentication tag that follows the ciphertext.
pub const TAG_LEN: usize = 16;

/// The X25519 public key of a secret key.
pub uninterp spec fn x25519_public(secret: Seq<u8>) -> Seq<u8>;

/// The X25519 shared secret of one side's secret key and the other's public key.
pub uninterp spec fn x25519_shared(secret: Seq<u8>, public: Seq<u8>) -> Seq<u8>;

/// The Ed25519 public key of a secret key.
pub uninterp spec fn ed25519_public(secret: Seq<u8>) -> Seq<u8>;

/// Whether 32 bytes decode to a point that can verify signatures.
pub uninterp spec fn ed25519_key_decodes(public: Seq<u8>) -> bool;

/// The Ed25519 signature of a message under a secret key.
pub uninterp spec fn ed25519_signature(secret: Seq<u8>, message: Seq<u8>) -> Seq<u8>;

/// Whether a signature on a message verifies under a public key.
pub uninterp spec fn ed25519_verifies(public: Seq<u8>, message: Seq<u8>, signature: Seq<u8>) -> bool;

/// Ciphertext and tag of a plaintext under a key and a nonce.
pub uninterp spec fn aead_sealed(key: Seq<u8>, nonce: Seq<u8>, plaintext: Seq<u8>) -> Seq<u8>;

/// The plaintext that ciphertext and tag authenticate under a key and a nonce, if any.
pub uninterp spec fn aead_opened(key: Seq<u8>, nonce: Seq<u8>, sealed: Seq<u8>) -> Option<Seq<u8>>;

/// The SHA-256 digest of a message.
pub uninterp spec fn sha256(data: Seq<u8>) -> Seq<u8>;

/// The cipher refuses a plaintext of `u32::MAX` blocks of 64 bytes or more.
pub open spec fn aead_accepts(plaintext_len: nat) -> bool {
    plaintext_len / 64 < u32::MAX
}

/// Calls `x25519_dalek::PublicKey::from(&StaticSecret)`: the public key that
/// belongs to `secret`.
#[verifier::external_body]
pub(crate) fn x25519_public_key(secret: &[u8]) -> (r: Vec<u8>)
    requires
        secret@.len() == KEY_LEN,
    ensures
        r@ == x25519_public(secret@),
        r@.len() == KEY_LEN,
{
    let bytes: [u8; 32] = secret.try_into().unwrap();
    let secret = x25519_dalek::StaticSecret::from(bytes);
    x25519_dalek::PublicKey::from(&secret).as_bytes().to_vec()
}

/// Calls `x25519_dalek::StaticSecret::diffie_hellman`. The contract names the
/// shared secret and states the agreement that the exchange exists for: the
/// holder of the secret key behind `public` computes the same bytes from the
/// public key of `secret`.
#[verifier::external_body]
pub(crate) fn x25519_diffie_hellman(secret: &[u8], public: &[u8]) -> (r: Vec<u8>)
    requires
        secret@.len() == KEY_LEN,
        public@.len() == KEY_LEN,
    ensures
        r@ == x25519_shared(secret@, public@),
        r@.len() == KEY_LEN,
        forall|peer: Seq<u8>|
            peer.len() == KEY_LEN && public@ == #[trigger] x25519_public(peer) ==> r@
                == x25519_shared(peer, x25519_public(secret@)),
{
    let secret_bytes: [u8; 32] = secret.try_into().unwrap();
    let public_bytes: [u8; 32] = public.try_into().unwrap();
    let secret = x25519_dalek::StaticSecret::from(secret_bytes);
    let public = x25519_dalek::PublicKey::from(public_bytes);
    secret.diffie_hellman(&public).as_bytes().to_vec()
}

/// Calls `ed25519_dalek::SigningKey::verifying_key`: the public key that
/// belongs to `secret`, which always decodes.
#[verifier::external_body]
pub(crate) fn ed25519_public_key(secret: &[u8]) -> (r: Vec<u8>)
    requires
        secret@.len() == KEY_LEN,
    ensures
        r@ == ed25519_public(secret@),
        r@.len() == KEY_LEN,
        ed25519_key_decodes(r@),
{
    let bytes: [u8; 32] = secret.try_into().unwrap();
    ed25519_dalek::SigningKey::from_bytes(&bytes).verifying_key().to_bytes().to_vec()
}

/// Calls `ed25519_dalek::VerifyingKey::from_bytes` and says whether it accepted
/// the bytes.
#[verifier::external_body]
pub(crate) fn ed25519_key_valid(public: &[u8]) -> (r: bool)
    requires
        public@.len() == KEY_LEN,
    ensures
        r == ed25519_key_decodes(public@),
{
    let bytes: [u8; 32] = public.try_into().unwrap();
    ed25519_dalek::VerifyingKey::from_bytes(&bytes).is_ok()
}

/// Calls `ed25519_dalek::Signer::sign` on a `SigningKey`. Signing is
/// deterministic, so the signature has a name; it is 64 bytes long, and
/// verification under the public key of `secret` accepts it.
#[verifier::external_body]
pub(crate) fn ed25519_sign(secret: &[u8], message: &[u8]) -> (r: Vec<u8>)
    requires
        secret@.len() == KEY_LEN,
    ensures
        r@ == ed25519_signature(secret@, message@),
        ed25519_verifies(ed25519_public(secret@), message@, r@),
        r@.len() == SIGNATURE_LEN,
{
    let bytes: [u8; 32] = secret.try_into().unwrap();
    ed25519_dalek::SigningKey::from_bytes(&bytes).sign(message).to_bytes().to_vec()
}

/// Calls `ed25519_dalek::Verifier::verify` on the `VerifyingKey` that `public`
/// decodes to, and says whether the signature was accepted.
#[verifier::external_body]
pub(crate) fn ed25519_verify(public: &[u8], message: &[u8], signature: &[u8]) -> (r: bool)
    requires
        public@.len() == KEY_LEN,
        signature@.len() == SIGNATURE_LEN,
        ed25519_key_decodes(public@),
    ensures
        r == ed25519_verifies(public@, message@, signature@),
{
    let key_bytes: [u8; 32] = public.try_into().unwrap();
    let signature_bytes: [u8; 64] = signature.try_into().unwrap();
    let signature = ed25519_dalek::Signature::from_bytes(&signature_bytes);
    match ed25519_dalek::VerifyingKey::from_bytes(&key_bytes) {
        Ok(key) => key.verify(message, &signature).is_ok(),
        Err(_) => false,
    }
}

/// Calls `Aead::encrypt` of `chacha20poly1305::XChaCha20Poly1305`. It fails
/// only on a plaintext longer than the cipher's counter can cover. Otherwise
/// the result is named, is 16 bytes longer than the plaintext, and opens to
/// the plaintext under the same key and nonce.
#[verifier::external_body]
pub(crate) fn aead_encrypt(key: &[u8], nonce: &[u8], plaintext: &[u8]) -> (r: Option<Vec<u8>>)
    requires
        key@.len() == KEY_LEN,
        nonce@.len() == NONCE_LEN,
    ensures
        r is Some <==> aead_accepts(plaintext@.len()),
        r matches Some(sealed) ==> {
            &&& sealed@ == aead_sealed(key@, nonce@, plaintext@)
            &&& sealed@.len() == plaintext@.len() + TAG_LEN
            &&& aead_opened(key@, nonce@, sealed@) == Some(plaintext@)
        },
{
    let cipher = chacha20poly1305::XChaCha20Poly1305::new_from_slice(key).unwrap();
    let nonce = chacha20poly1305::XNonce::from_slice(nonce);
    cipher.encrypt(nonce, plaintext).ok()
}

/// Calls `Aead::decrypt` of `chacha20poly1305::XChaCha20Poly1305`: the
/// plaintext where the tag authenticates the ciphertext, nothing otherwise.
#[verifier::external_body]
pub(crate) fn aead_decrypt(key: &[u8], nonce: &[u8], sealed: &[u8]) -> (r: Option<Vec<u8>>)
    requires
        key@.len() == KEY_LEN,
        nonce@.len() == NONCE_LEN,
    ensures
        match r {
            Some(plaintext) => aead_opened(key@, nonce@, sealed@) == Some(plaintext@),
            None => aead_opened(key@, nonce@, sealed@) is None,
        },
{
    let cipher = chacha20poly1305::XChaCha20Poly1305::new_from_slice(key).unwrap();
    let nonce = chacha20poly1305::XNonce::from_slice(nonce);
    cipher.decrypt(nonce, sealed).ok()
}

/// Calls `sha2::Sha256::digest`.
#[verifier::external_body]
pub(crate) fn sha256_digest(data: &[u8]) -> (r: Vec<u8>)
    ensures
        r@ == sha256(data@),
        r@.len() == 32,
{
    sha2::Sha256::digest(data).to_vec()
}

/// Fills 24 bytes from `OsRng` with `RngCore::fill_bytes`. Only the length is
/// known of them.
#[verifier::external_body]
pub(crate) fn random_nonce() -> (r: Vec<u8>)
    ensures
        r@.len() == NONCE_LEN,
{
    let mut bytes = [0u8; 24];
    chacha20poly1305::aead::OsRng.fill_bytes(&mut bytes);
    bytes.to_vec()
}

/// Calls `x25519_dalek::StaticSecret::random_from_rng` with `OsRng`. Only the
/// length is known of the secret key.
#[verifier::external_body]
pub(crate) fn random_x25519_secret() -> (r: Vec<u8>)
    ensures
        r@.len() == KEY_LEN,
{
    x25519_dalek::StaticSecret::random_from_rng(chacha20poly1305::aead::OsRng).to_bytes().to_vec()
}

/// Calls `ed25519_dalek::SigningKey::generate` with `OsRng`. Only the length
/// is known of the secret key.
#[verifier::external_body]
pub(crate) fn random_ed25519_secret() -> (r: Vec<u8>)
    ensures
        r@.len() == KEY_LEN,
{
    ed25519_dalek::SigningKey::generate(&mut chacha20poly1305::aead::OsRng).to_bytes().to_vec()
}

} // verus!
