use trassenger::crypto::{from_hex, generate_keypair, CryptoError, Keypair};
use trassenger::envelope::{
    open_envelope, seal_envelope, seal_envelope_with_nonce, OpenError,
};

fn identity(seed: u8) -> Keypair {
    Keypair::from_secrets(vec![seed; 32], vec![seed.wrapping_add(100); 32]).unwrap()
}

#[test]
fn envelope_round_trip() {
    let alice = generate_keypair();
    let bob = generate_keypair();
    for plaintext in [&b""[..], &b"hi"[..], &[0u8; 1000][..]] {
        let envelope = seal_envelope(plaintext, &bob.encrypt_pk, &alice).unwrap();
        assert_eq!(open_envelope(&envelope, &bob).unwrap(), plaintext.to_vec());
    }
}

#[test]
fn envelope_layout() {
    let alice = identity(1);
    let bob = identity(2);
    let nonce = [5u8; 24];
    let envelope = seal_envelope_with_nonce(b"hello", &bob.encrypt_pk, &alice, &nonce).unwrap();
    assert_eq!(envelope.len(), 5 + 168);
    assert_eq!(&envelope[..32], &alice.sign_pk[..]);
    assert_eq!(&envelope[96..128], &alice.encrypt_pk[..]);
    assert_eq!(&envelope[128..152], &nonce[..]);

    let again = seal_envelope_with_nonce(b"hello", &bob.encrypt_pk, &alice, &nonce).unwrap();
    assert_eq!(envelope, again);
    assert_eq!(open_envelope(&envelope, &bob).unwrap(), b"hello".to_vec());
}

#[test]
fn envelopes_of_one_plaintext_differ() {
    let alice = identity(1);
    let bob = identity(2);
    let a = seal_envelope(b"hello", &bob.encrypt_pk, &alice).unwrap();
    let b = seal_envelope(b"hello", &bob.encrypt_pk, &alice).unwrap();
    assert_ne!(a, b);
    assert_eq!(a[..32], b[..32]);
}

#[test]
fn own_envelope_is_skipped() {
    let alice = identity(1);
    let bob = identity(2);
    let envelope = seal_envelope(b"hello", &bob.encrypt_pk, &alice).unwrap();
    assert_eq!(open_envelope(&envelope, &alice), Err(OpenError::OwnMessage));

    let to_self = seal_envelope(b"note", &alice.encrypt_pk, &alice).unwrap();
    assert_eq!(open_envelope(&to_self, &alice), Err(OpenError::OwnMessage));
}

#[test]
fn own_key_in_front_is_enough_to_skip() {
    let alice = identity(1);
    assert_eq!(open_envelope(&alice.sign_pk, &alice), Err(OpenError::OwnMessage));
}

#[test]
fn tampering_is_detected_at_every_bit() {
    let alice = identity(1);
    let bob = identity(2);
    let envelope = seal_envelope_with_nonce(b"hi", &bob.encrypt_pk, &alice, &[3u8; 24]).unwrap();
    for position in 32..envelope.len() {
        for bit in 0..8 {
            let mut changed = envelope.clone();
            changed[position] ^= 1 << bit;
            let outcome = open_envelope(&changed, &bob);
            assert!(
                outcome == Err(OpenError::SignatureInvalid)
                    || outcome == Err(OpenError::DecryptionFailed),
                "byte {} bit {} gave {:?}",
                position,
                bit,
                outcome
            );
        }
    }
}

#[test]
fn changed_body_fails_the_signature_first() {
    let alice = identity(1);
    let bob = identity(2);
    let envelope = seal_envelope(b"hi", &bob.encrypt_pk, &alice).unwrap();
    let mut changed = envelope.clone();
    let last = changed.len() - 1;
    changed[last] ^= 1;
    assert_eq!(open_envelope(&changed, &bob), Err(OpenError::SignatureInvalid));
}

#[test]
fn envelope_for_someone_else_does_not_decrypt() {
    let alice = identity(1);
    let bob = identity(2);
    let carol = identity(3);
    let envelope = seal_envelope(b"hi", &bob.encrypt_pk, &alice).unwrap();
    assert_eq!(open_envelope(&envelope, &carol), Err(OpenError::DecryptionFailed));
}

#[test]
fn truncated_envelopes() {
    let alice = identity(1);
    let bob = identity(2);
    let envelope = seal_envelope(b"hi", &bob.encrypt_pk, &alice).unwrap();
    assert_eq!(open_envelope(&[], &bob), Err(OpenError::Truncated));
    assert_eq!(open_envelope(&envelope[..31], &bob), Err(OpenError::Truncated));
    assert_eq!(open_envelope(&envelope[..32], &bob), Err(OpenError::Truncated));
    assert_eq!(open_envelope(&envelope[..95], &bob), Err(OpenError::Truncated));
    assert_eq!(open_envelope(&envelope[..96], &bob), Err(OpenError::SignatureInvalid));
    assert_eq!(open_envelope(&envelope[..150], &bob), Err(OpenError::SignatureInvalid));
}

#[test]
fn signed_but_short_payloads_are_truncated() {
    let alice = identity(1);
    let bob = identity(2);
    for payload_len in [0usize, 31, 32, 55] {
        let payload = vec![1u8; payload_len];
        let signed = trassenger::crypto::sign_message(&payload, &alice.sign_sk).unwrap();
        let mut envelope = alice.sign_pk.clone();
        envelope.extend(signed);
        assert_eq!(open_envelope(&envelope, &bob), Err(OpenError::Truncated));
    }
    let payload = vec![1u8; 56];
    let signed = trassenger::crypto::sign_message(&payload, &alice.sign_sk).unwrap();
    let mut envelope = alice.sign_pk.clone();
    envelope.extend(signed);
    assert_eq!(open_envelope(&envelope, &bob), Err(OpenError::DecryptionFailed));
}

#[test]
fn local_key_of_wrong_length() {
    let alice = identity(1);
    let mut bob = identity(2);
    let envelope = seal_envelope(b"hi", &bob.encrypt_pk, &alice).unwrap();
    bob.encrypt_sk.pop();
    assert_eq!(open_envelope(&envelope, &bob), Err(OpenError::InvalidLocalKey));
}

#[test]
fn seal_names_each_refusal() {
    let alice = identity(1);
    let bob = identity(2);
    let nonce = [0u8; 24];

    assert_eq!(
        seal_envelope_with_nonce(b"x", &bob.encrypt_pk, &alice, &nonce[..5]),
        Err(CryptoError::InvalidNonceLength)
    );
    assert_eq!(
        seal_envelope(b"x", &bob.encrypt_pk[..31], &alice),
        Err(CryptoError::InvalidRecipientPublicKeyLength)
    );

    let mut broken = identity(1);
    broken.encrypt_pk.push(0);
    assert_eq!(
        seal_envelope(b"x", &bob.encrypt_pk, &broken),
        Err(CryptoError::InvalidSenderPublicKeyLength)
    );
    let mut broken = identity(1);
    broken.sign_pk.pop();
    assert_eq!(
        seal_envelope(b"x", &bob.encrypt_pk, &broken),
        Err(CryptoError::InvalidSigningPublicKeyLength)
    );
    let mut broken = identity(1);
    broken.encrypt_sk.pop();
    assert_eq!(
        seal_envelope(b"x", &bob.encrypt_pk, &broken),
        Err(CryptoError::InvalidSenderSecretKeyLength)
    );
    let mut broken = identity(1);
    broken.sign_sk.pop();
    assert_eq!(
        seal_envelope(b"x", &bob.encrypt_pk, &broken),
        Err(CryptoError::InvalidSigningSecretKeyLength)
    );
}

#[test]
fn open_error_texts() {
    assert_eq!(OpenError::OwnMessage.message(), "Skipping own message");
    assert_eq!(OpenError::Truncated.message(), "Message too short");
    assert_eq!(OpenError::SignatureInvalid.message(), "Signature verification failed");
    assert_eq!(OpenError::DecryptionFailed.message(), "Decryption failed");
    assert_eq!(OpenError::InvalidLocalKey.message(), "Invalid recipient secret key length");
}

#[test]
fn keys_from_hex_seal_and_open() {
    let alice = Keypair::from_secrets(
        from_hex("77076d0a7318a57d3c16c17251b26645df4c2f87ebc0992ab177fba51db92c2a").unwrap(),
        from_hex("9d61b19deffd5a60ba844af492ec2cc44449c5697b326919703bac031cae7f60").unwrap(),
    )
    .unwrap();
    let bob = identity(9);
    let envelope = seal_envelope("grüße".as_bytes(), &bob.encrypt_pk, &alice).unwrap();
    assert_eq!(
        &envelope[..32],
        &from_hex("d75a980182b10ab7d54bfed3c964073a0ee172f3daa62325af021a68f707511a").unwrap()[..]
    );
    assert_eq!(open_envelope(&envelope, &bob).unwrap(), "grüße".as_bytes().to_vec());
}
