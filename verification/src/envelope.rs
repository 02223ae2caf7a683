//! The envelope that crosses the relay: the sender's signing key, a signature,
//! the sender's encryption key, a nonce, and ciphertext with its tag.
//!
//! ```text
//! sign_pk (32) | signature (64) | encrypt_pk (32) | nonce (24) | ciphertext + tag
//!                               '------------------ signed ----------------------'
//! ```

use vstd::prelude::*;
use vstd::slice::slice_subrange;
use crate::crypto::{
    bytes_view, decrypt_message, decrypt_spec, decrypts_for_recipient,
    encrypt_message_with_nonce, encrypt_refusal, sign_message, verify_signature, verify_spec,
    CryptoError, Keypair,
};
use crate::text::bytes_equal;
use crate::primitives::{
    aead_sealed, ed25519_signature, random_nonce, x25519_public, x25519_shared, KEY_LEN,
    NONCE_LEN, SIGNATURE_LEN, TAG_LEN,
};

verus! {

/// Bytes of an envelope around its plaintext.
pub const ENVELOPE_OVERHEAD: usize = 168;

/// Why an envelope gave no plaintext.
#[derive(Debug, Clone, Copy, PartialEq, Eq, Structural)]
pub enum OpenError {
    /// The envelope ends before one of its fixed-size parts does.
    Truncated,
    /// The envelope was sealed by the identity that tries to open it. This is
    /// no failure: the envelope waits for the other side.
    OwnMessage,
    /// The signing key in front does not decode, or the signature is not one
    /// of that key on the signed part.
    SignatureInvalid,
    /// The tag does not authenticate the ciphertext under the shared secret.
    DecryptionFailed,
    /// The local secret key has the wrong length.
    InvalidLocalKey,
}

impl OpenError {
    /// The text shown for the error.
    pub open spec fn text(self) -> Seq<char> {
        match self {
            OpenError::Truncated => "Message too short"@,
            OpenError::OwnMessage => "Skipping own message"@,
            OpenError::SignatureInvalid => "Signature verification failed"@,
            OpenError::DecryptionFailed => "Decryption failed"@,
            OpenError::InvalidLocalKey => "Invalid recipient secret key length"@,
        }
    }

    /// The text as a string.
    pub fn message(&self) -> (r: String)
        ensures
            r@ == self.text(),
    {
        match self {
            OpenError::Truncated => "Message too short".to_owned(),
            OpenError::OwnMessage => "Skipping own message".to_owned(),
            OpenError::SignatureInvalid => "Signature verification failed".to_owned(),
            OpenError::DecryptionFailed => "Decryption failed".to_owned(),
            OpenError::InvalidLocalKey => "Invalid recipient secret key length".to_owned(),
        }
    }
}

/// A result that holds bytes, as the sequence of those bytes.
pub open spec fn opened_view(r: Result<Vec<u8>, OpenError>) -> Result<Seq<u8>, OpenError> {
    match r {
        Ok(bytes) => Ok(bytes@),
        Err(e) => Err(e),
    }
}

/// Why sealing refuses its input whatever the nonce, if it does: a key of the
/// wrong length, or a plaintext too long for the cipher.
pub open spec fn seal_refusal(
    plaintext: Seq<u8>,
    recipient_encrypt_pk: Seq<u8>,
    sender: Keypair,
) -> Option<CryptoError> {
    if sender.encrypt_pk@.len() != KEY_LEN {
        Some(CryptoError::InvalidSenderPublicKeyLength)
    } else if sender.sign_pk@.len() != KEY_LEN {
        Some(CryptoError::InvalidSigningPublicKeyLength)
    } else if encrypt_refusal(plaintext, recipient_encrypt_pk, sender.encrypt_sk@) is Some {
        encrypt_refusal(plaintext, recipient_encrypt_pk, sender.encrypt_sk@)
    } else if sender.sign_sk@.len() != KEY_LEN {
        Some(CryptoError::InvalidSigningSecretKeyLength)
    } else {
        None
    }
}

/// The envelope that `sender` seals around `plaintext` for the holder of
/// `recipient_encrypt_pk` when it draws `nonce`.
pub open spec fn seal_spec(
    plaintext: Seq<u8>,
    recipient_encrypt_pk: Seq<u8>,
    sender: Keypair,
    nonce: Seq<u8>,
) -> Result<Seq<u8>, CryptoError> {
    if nonce.len() != NONCE_LEN {
        Err(CryptoError::InvalidNonceLength)
    } else {
        match seal_refusal(plaintext, recipient_encrypt_pk, sender) {
            Some(e) => Err(e),
            None => {
                let shared = x25519_shared(sender.encrypt_sk@, recipient_encrypt_pk);
                let signed = sender.encrypt_pk@ + nonce + aead_sealed(shared, nonce, plaintext);
                Ok(sender.sign_pk@ + ed25519_signature(sender.sign_sk@, signed) + signed)
            },
        }
    }
}

/// What opening an envelope gives the identity with signing key
/// `local_sign_pk` and encryption secret `local_encrypt_sk`.
pub open spec fn open_spec(
    envelope: Seq<u8>,
    local_sign_pk: Seq<u8>,
    local_encrypt_sk: Seq<u8>,
) -> Result<Seq<u8>, OpenError> {
    let sender_sign_pk = envelope.subrange(0, KEY_LEN as int);
    let signed = envelope.subrange(KEY_LEN as int, envelope.len() as int);
    if envelope.len() < KEY_LEN {
        Err(OpenError::Truncated)
    } else if sender_sign_pk == local_sign_pk {
        Err(OpenError::OwnMessage)
    } else {
        match verify_spec(signed, sender_sign_pk) {
            Err(CryptoError::SignedMessageTooShort) => Err(OpenError::Truncated),
            Err(_) => Err(OpenError::SignatureInvalid),
            Ok(payload) => if payload.len() < KEY_LEN {
                Err(OpenError::Truncated)
            } else {
                match decrypt_spec(
                    payload.subrange(KEY_LEN as int, payload.len() as int),
                    payload.subrange(0, KEY_LEN as int),
                    local_encrypt_sk,
                ) {
                    Ok(plaintext) => Ok(plaintext),
                    Err(CryptoError::CiphertextTooShort) => Err(OpenError::Truncated),
                    Err(CryptoError::InvalidRecipientSecretKeyLength) => Err(
                        OpenError::InvalidLocalKey,
                    ),
                    Err(_) => Err(OpenError::DecryptionFailed),
                }
            },
        }
    }
}

/// The nonce that an envelope carries.
pub open spec fn envelope_nonce(envelope: Seq<u8>) -> Seq<u8> {
    envelope.subrange(
        (KEY_LEN + SIGNATURE_LEN + KEY_LEN) as int,
        (KEY_LEN + SIGNATURE_LEN + KEY_LEN + NONCE_LEN) as int,
    )
}

/// Every identity but the sender that holds the secret key behind
/// `recipient_encrypt_pk` opens `envelope` to `plaintext`.
pub open spec fn opens_for_recipient(
    envelope: Seq<u8>,
    plaintext: Seq<u8>,
    recipient_encrypt_pk: Seq<u8>,
    sender_sign_pk: Seq<u8>,
) -> bool {
    forall|local_sign_pk: Seq<u8>, local_encrypt_sk: Seq<u8>|
        local_encrypt_sk.len() == KEY_LEN && recipient_encrypt_pk == x25519_public(
            local_encrypt_sk,
        ) && local_sign_pk != sender_sign_pk ==> #[trigger] open_spec(
            envelope,
            local_sign_pk,
            local_encrypt_sk,
        ) == Ok::<Seq<u8>, OpenError>(plaintext)
}

/// The parts of an envelope stand where they belong: the sender's signing
/// key in the first 32 bytes, then the 64 bytes of its signature on all that
/// follows, then the sender's encryption key, the nonce, and ciphertext with
/// tag, 16 bytes longer than the plaintext.
pub open spec fn laid_out(
    envelope: Seq<u8>,
    sender: Keypair,
    nonce: Seq<u8>,
    plaintext_len: nat,
) -> bool {
    let signed = envelope.subrange(
        (KEY_LEN + SIGNATURE_LEN) as int,
        envelope.len() as int,
    );
    &&& envelope.len() == plaintext_len + ENVELOPE_OVERHEAD
    &&& envelope.subrange(0, KEY_LEN as int) == sender.sign_pk@
    &&& envelope.subrange(KEY_LEN as int, (KEY_LEN + SIGNATURE_LEN) as int)
        == ed25519_signature(sender.sign_sk@, signed)
    &&& signed.subrange(0, KEY_LEN as int) == sender.encrypt_pk@
    &&& signed.subrange(KEY_LEN as int, (KEY_LEN + NONCE_LEN) as int) == nonce
    &&& signed.len() == KEY_LEN + NONCE_LEN + plaintext_len + TAG_LEN
}

/// The envelope of a valid sender passes the two checks: the signature in it
/// verifies under the signing key in front, giving the signed part, and what
/// follows the encryption key in that part decrypts to the plaintext for
/// whoever holds the secret key behind `recipient_encrypt_pk`.
pub open spec fn checks_out(
    envelope: Seq<u8>,
    plaintext: Seq<u8>,
    recipient_encrypt_pk: Seq<u8>,
    sender: Keypair,
) -> bool {
    let signed = envelope.subrange(
        (KEY_LEN + SIGNATURE_LEN) as int,
        envelope.len() as int,
    );
    sender.valid() ==> {
        &&& verify_spec(
            envelope.subrange(KEY_LEN as int, envelope.len() as int),
            sender.sign_pk@,
        ) == Ok::<Seq<u8>, CryptoError>(signed)
        &&& decrypts_for_recipient(
            signed.subrange(KEY_LEN as int, signed.len() as int),
            plaintext,
            recipient_encrypt_pk,
            sender.encrypt_sk@,
        )
    }
}

/// Seals `plaintext` for the holder of `recipient_encrypt_pk` with the nonce
/// that the caller drew. The result is [`seal_spec`] exactly; where the
/// sender's public keys belong to its secret keys, the recipient opens the
/// envelope to the plaintext.
pub fn seal_envelope_with_nonce(
    plaintext: &[u8],
    recipient_encrypt_pk: &[u8],
    sender: &Keypair,
    nonce: &[u8],
) -> (r: Result<Vec<u8>, CryptoError>)
    ensures
        bytes_view(r) == seal_spec(plaintext@, recipient_encrypt_pk@, *sender, nonce@),
        r matches Ok(envelope) ==> {
            &&& envelope@.len() == plaintext@.len() + ENVELOPE_OVERHEAD
            &&& envelope@.subrange(0, KEY_LEN as int) == sender.sign_pk@
            &&& envelope_nonce(envelope@) == nonce@
            &&& laid_out(envelope@, *sender, nonce@, plaintext@.len())
            &&& checks_out(envelope@, plaintext@, recipient_encrypt_pk@, *sender)
            &&& sender.valid() ==> opens_for_recipient(
                envelope@,
                plaintext@,
                recipient_encrypt_pk@,
                sender.sign_pk@,
            )
        },
{
    if nonce.len() != NONCE_LEN {
        return Err(CryptoError::InvalidNonceLength);
    }
    if sender.encrypt_pk.len() != KEY_LEN {
        return Err(CryptoError::InvalidSenderPublicKeyLength);
    }
    if sender.sign_pk.len() != KEY_LEN {
        return Err(CryptoError::InvalidSigningPublicKeyLength);
    }
    let sealed = encrypt_message_with_nonce(
        plaintext,
        recipient_encrypt_pk,
        sender.encrypt_sk.as_slice(),
        nonce,
    )?;
    let mut to_sign: Vec<u8> = Vec::new();
    to_sign.extend_from_slice(sender.encrypt_pk.as_slice());
    to_sign.extend_from_slice(sealed.as_slice());
    let signed = sign_message(to_sign.as_slice(), sender.sign_sk.as_slice())?;
    let mut envelope: Vec<u8> = Vec::new();
    envelope.extend_from_slice(sender.sign_pk.as_slice());
    envelope.extend_from_slice(signed.as_slice());
    proof {
        assert(to_sign@ =~= sender.encrypt_pk@ + sealed@);
        assert(envelope@ =~= sender.sign_pk@ + signed@);
        let shared = x25519_shared(sender.encrypt_sk@, recipient_encrypt_pk@);
        let signed_part = sender.encrypt_pk@ + nonce@ + aead_sealed(shared, nonce@, plaintext@);
        assert(to_sign@ =~= signed_part);
        assert(envelope@ =~= sender.sign_pk@ + ed25519_signature(sender.sign_sk@, signed_part)
            + signed_part);
        assert(envelope@.subrange(0, KEY_LEN as int) =~= sender.sign_pk@);
        assert(sealed@.subrange(0, NONCE_LEN as int) =~= nonce@);
        assert(envelope_nonce(envelope@) =~= nonce@);
        let tail = envelope@.subrange((KEY_LEN + SIGNATURE_LEN) as int, envelope@.len() as int);
        assert(tail =~= to_sign@);
        assert(envelope@.subrange(KEY_LEN as int, (KEY_LEN + SIGNATURE_LEN) as int)
            =~= ed25519_signature(sender.sign_sk@, to_sign@));
        assert(tail.subrange(0, KEY_LEN as int) =~= sender.encrypt_pk@);
        assert(tail.subrange(KEY_LEN as int, (KEY_LEN + NONCE_LEN) as int) =~= nonce@);
        assert(envelope@.subrange(KEY_LEN as int, envelope@.len() as int) =~= signed@);
        assert(tail.subrange(KEY_LEN as int, tail.len() as int) =~= sealed@);
        if sender.valid() {
            assert forall|local_sign_pk: Seq<u8>, local_encrypt_sk: Seq<u8>|
                local_encrypt_sk.len() == KEY_LEN && recipient_encrypt_pk@ == x25519_public(
                    local_encrypt_sk,
                ) && local_sign_pk != sender.sign_pk@ implies #[trigger] open_spec(
                envelope@,
                local_sign_pk,
                local_encrypt_sk,
            ) == Ok::<Seq<u8>, OpenError>(plaintext@) by {
                let signed_part = envelope@.subrange(KEY_LEN as int, envelope@.len() as int);
                assert(signed_part =~= signed@);
                assert(verify_spec(signed@, sender.sign_pk@) == Ok::<Seq<u8>, CryptoError>(
                    to_sign@,
                ));
                assert(to_sign@.subrange(0, KEY_LEN as int) =~= sender.encrypt_pk@);
                assert(to_sign@.subrange(KEY_LEN as int, to_sign@.len() as int) =~= sealed@);
            }
        }
    }
    Ok(envelope)
}

/// Seals `plaintext` for the holder of `recipient_encrypt_pk` under a fresh
/// random nonce. The result is the envelope of [`seal_spec`] for the nonce
/// that it holds, and the recipient opens it to the plaintext.
pub fn seal_envelope(plaintext: &[u8], recipient_encrypt_pk: &[u8], sender: &Keypair) -> (r: Result<
    Vec<u8>,
    CryptoError,
>)
    ensures
        match r {
            Ok(envelope) => {
                &&& envelope@.len() == plaintext@.len() + ENVELOPE_OVERHEAD
                &&& envelope@.subrange(0, KEY_LEN as int) == sender.sign_pk@
                &&& seal_spec(
                    plaintext@,
                    recipient_encrypt_pk@,
                    *sender,
                    envelope_nonce(envelope@),
                ) == Ok::<Seq<u8>, CryptoError>(envelope@)
                &&& laid_out(envelope@, *sender, envelope_nonce(envelope@), plaintext@.len())
                &&& checks_out(envelope@, plaintext@, recipient_encrypt_pk@, *sender)
                &&& sender.valid() ==> opens_for_recipient(
                    envelope@,
                    plaintext@,
                    recipient_encrypt_pk@,
                    sender.sign_pk@,
                )
            },
            Err(e) => seal_refusal(plaintext@, recipient_encrypt_pk@, *sender) == Some(e),
        },
{
    let nonce = random_nonce();
    let r = seal_envelope_with_nonce(plaintext, recipient_encrypt_pk, sender, nonce.as_slice());
    r
}

/// Opens an envelope for the local identity: skips one that the identity
/// sealed itself, checks the signature of the key in front, and decrypts with
/// the secret shared with the sender's encryption key.
pub fn open_envelope(envelope: &[u8], local: &Keypair) -> (r: Result<Vec<u8>, OpenError>)
    ensures
        opened_view(r) == open_spec(envelope@, local.sign_pk@, local.encrypt_sk@),
{
    if envelope.len() < KEY_LEN {
        return Err(OpenError::Truncated);
    }
    let sender_sign_pk = slice_subrange(envelope, 0, KEY_LEN);
    let signed = slice_subrange(envelope, KEY_LEN, envelope.len());
    if bytes_equal(sender_sign_pk, local.sign_pk.as_slice()) {
        return Err(OpenError::OwnMessage);
    }
    let payload = match verify_signature(signed, sender_sign_pk) {
        Ok(payload) => payload,
        Err(CryptoError::SignedMessageTooShort) => {
            return Err(OpenError::Truncated);
        },
        Err(_) => {
            return Err(OpenError::SignatureInvalid);
        },
    };
    if payload.len() < KEY_LEN {
        return Err(OpenError::Truncated);
    }
    let sender_encrypt_pk = slice_subrange(payload.as_slice(), 0, KEY_LEN);
    let ciphertext = slice_subrange(payload.as_slice(), KEY_LEN, payload.len());
    match decrypt_message(ciphertext, sender_encrypt_pk, local.encrypt_sk.as_slice()) {
        Ok(plaintext) => Ok(plaintext),
        Err(CryptoError::CiphertextTooShort) => Err(OpenError::Truncated),
        Err(CryptoError::InvalidRecipientSecretKeyLength) => Err(OpenError::InvalidLocalKey),
        Err(_) => Err(OpenError::DecryptionFailed),
    }
}

/// The identity that sealed an envelope, whoever it is addressed to, gets
/// `OwnMessage` when it opens the envelope itself: no plaintext, and no
/// cryptographic failure.
pub proof fn lemma_own_envelope_is_skipped(
    plaintext: Seq<u8>,
    recipient_encrypt_pk: Seq<u8>,
    sender: Keypair,
    nonce: Seq<u8>,
)
    requires
        seal_spec(plaintext, recipient_encrypt_pk, sender, nonce) is Ok,
    ensures
        open_spec(
            seal_spec(plaintext, recipient_encrypt_pk, sender, nonce)->Ok_0,
            sender.sign_pk@,
            sender.encrypt_sk@,
        ) == Err::<Seq<u8>, OpenError>(OpenError::OwnMessage),
{
    let envelope = seal_spec(plaintext, recipient_encrypt_pk, sender, nonce)->Ok_0;
    assert(envelope.subrange(0, KEY_LEN as int) =~= sender.sign_pk@);
}

/// What can come of an envelope that was changed after it was sealed, in its
/// signature or behind it, without a change of length: where the intact one
/// opened for the local identity, the changed one is never skipped as the
/// identity's own and never found truncated. It is opened only if the
/// signature check and the authenticated decryption both accept the changed
/// bytes, and is refused as `SignatureInvalid` or `DecryptionFailed` otherwise.
pub proof fn lemma_tampered_envelope_outcomes(
    intact: Seq<u8>,
    tampered: Seq<u8>,
    local_sign_pk: Seq<u8>,
    local_encrypt_sk: Seq<u8>,
)
    requires
        open_spec(intact, local_sign_pk, local_encrypt_sk) is Ok,
        tampered.len() == intact.len(),
        tampered.subrange(0, KEY_LEN as int) == intact.subrange(0, KEY_LEN as int),
    ensures
        match open_spec(tampered, local_sign_pk, local_encrypt_sk) {
            Ok(_) => {
                let sender_sign_pk = tampered.subrange(0, KEY_LEN as int);
                let signed = tampered.subrange(KEY_LEN as int, tampered.len() as int);
                let payload = signed.subrange(SIGNATURE_LEN as int, signed.len() as int);
                &&& verify_spec(signed, sender_sign_pk) == Ok::<Seq<u8>, CryptoError>(payload)
                &&& decrypt_spec(
                    payload.subrange(KEY_LEN as int, payload.len() as int),
                    payload.subrange(0, KEY_LEN as int),
                    local_encrypt_sk,
                ) is Ok
            },
            Err(e) => e == OpenError::SignatureInvalid || e == OpenError::DecryptionFailed,
        },
{
    let signed_before = intact.subrange(KEY_LEN as int, intact.len() as int);
    let signed_after = tampered.subrange(KEY_LEN as int, tampered.len() as int);
    assert(signed_before.len() == signed_after.len());
    let payload = verify_spec(signed_before, intact.subrange(0, KEY_LEN as int))->Ok_0;
    assert(payload == signed_before.subrange(SIGNATURE_LEN as int, signed_before.len() as int));
}

} // verus!
