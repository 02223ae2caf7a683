//! Identity keys and the cryptographic operations on messages: encryption
//! between two identities, signatures, hex text of keys, and the queue id that
//! two identities share.

use vstd::prelude::*;
use vstd::slice::slice_subrange;
use vstd::utf8::encode_utf8;
use crate::encoding::{
    hex_bytes, hex_decode, hex_encode, hex_string, is_hex_text, is_lower_hex,
    lemma_hex_string_shape,
};
use crate::text::bytes_equal;
use crate::primitives::{
    aead_accepts, aead_decrypt, aead_encrypt, aead_opened, aead_sealed, ed25519_key_decodes,
    ed25519_key_valid, ed25519_public, ed25519_public_key, ed25519_sign, ed25519_signature,
    ed25519_verifies, ed25519_verify, random_ed25519_secret, random_nonce, random_x25519_secret,
    sha256, sha256_digest, x25519_diffie_hellman, x25519_public, x25519_public_key,
    x25519_shared, KEY_LEN, NONCE_LEN, SIGNATURE_LEN, TAG_LEN,
};

verus! {

/// Number of digest bytes that make a queue id.
pub const QUEUE_ID_BYTES: usize = 16;

/// An identity: one key pair for key agreement and one for signatures.
#[derive(Debug, Clone)]
pub struct Keypair {
    pub encrypt_pk: Vec<u8>,
    pub encrypt_sk: Vec<u8>,
    pub sign_pk: Vec<u8>,
    pub sign_sk: Vec<u8>,
}

impl Keypair {
    /// Every key has the length that its algorithm asks for.
    pub open spec fn well_formed(&self) -> bool {
        &&& self.encrypt_pk@.len() == KEY_LEN
        &&& self.encrypt_sk@.len() == KEY_LEN
        &&& self.sign_pk@.len() == KEY_LEN
        &&& self.sign_sk@.len() == KEY_LEN
    }

    /// The public keys are the ones that belong to the secret keys.
    pub open spec fn valid(&self) -> bool {
        &&& self.well_formed()
        &&& self.encrypt_pk@ == x25519_public(self.encrypt_sk@)
        &&& self.sign_pk@ == ed25519_public(self.sign_sk@)
        &&& ed25519_key_decodes(self.sign_pk@)
    }
}

impl Keypair {
    /// The identity of two secret keys.
    pub fn from_secrets(encrypt_sk: Vec<u8>, sign_sk: Vec<u8>) -> (r: Option<Keypair>)
        ensures
            r is Some <==> encrypt_sk@.len() == KEY_LEN && sign_sk@.len() == KEY_LEN,
            r matches Some(keypair) ==> keypair.valid() && keypair.encrypt_sk@ == encrypt_sk@
                && keypair.sign_sk@ == sign_sk@,
    {
        if encrypt_sk.len() != KEY_LEN || sign_sk.len() != KEY_LEN {
            return None;
        }
        let encrypt_pk = x25519_public_key(encrypt_sk.as_slice());
        let sign_pk = ed25519_public_key(sign_sk.as_slice());
        Some(Keypair { encrypt_pk, encrypt_sk, sign_pk, sign_sk })
    }

    /// Whether the public keys are the ones that belong to the secret keys,
    /// as an identity read from a store has to be asked.
    pub fn is_valid(&self) -> (r: bool)
        ensures
            r == self.valid(),
    {
        if self.encrypt_pk.len() != KEY_LEN || self.encrypt_sk.len() != KEY_LEN
            || self.sign_pk.len() != KEY_LEN || self.sign_sk.len() != KEY_LEN {
            return false;
        }
        let encrypt_pk = x25519_public_key(self.encrypt_sk.as_slice());
        let sign_pk = ed25519_public_key(self.sign_sk.as_slice());
        bytes_equal(encrypt_pk.as_slice(), self.encrypt_pk.as_slice()) && bytes_equal(
            sign_pk.as_slice(),
            self.sign_pk.as_slice(),
        )
    }

    /// A copy with the same keys.
    pub fn duplicate(&self) -> (r: Keypair)
        ensures
            r.encrypt_pk@ == self.encrypt_pk@,
            r.encrypt_sk@ == self.encrypt_sk@,
            r.sign_pk@ == self.sign_pk@,
            r.sign_sk@ == self.sign_sk@,
    {
        Keypair {
            encrypt_pk: self.encrypt_pk.clone(),
            encrypt_sk: self.encrypt_sk.clone(),
            sign_pk: self.sign_pk.clone(),
            sign_sk: self.sign_sk.clone(),
        }
    }
}

/// Why a cryptographic operation refused its input.
#[derive(Debug, Clone, Copy, PartialEq, Eq, Structural)]
pub enum CryptoError {
    InvalidRecipientPublicKeyLength,
    InvalidSenderSecretKeyLength,
    InvalidNonceLength,
    EncryptionFailed,
    CiphertextTooShort,
    InvalidSenderPublicKeyLength,
    InvalidRecipientSecretKeyLength,
    DecryptionFailed,
    InvalidSigningSecretKeyLength,
    SignedMessageTooShort,
    InvalidSigningPublicKeyLength,
    InvalidPublicKey,
    SignatureInvalid,
    InvalidHex,
}

impl CryptoError {
    /// The text shown for the error.
    pub open spec fn text(self) -> Seq<char> {
        match self {
            CryptoError::InvalidRecipientPublicKeyLength => "Invalid recipient public key length"@,
            CryptoError::InvalidSenderSecretKeyLength => "Invalid sender secret key length"@,
            CryptoError::InvalidNonceLength => "Invalid nonce length"@,
            CryptoError::EncryptionFailed => "Encryption failed"@,
            CryptoError::CiphertextTooShort => "Invalid ciphertext: too short"@,
            CryptoError::InvalidSenderPublicKeyLength => "Invalid sender public key length"@,
            CryptoError::InvalidRecipientSecretKeyLength => "Invalid recipient secret key length"@,
            CryptoError::DecryptionFailed => "Decryption failed"@,
            CryptoError::InvalidSigningSecretKeyLength => "Invalid signing secret key length"@,
            CryptoError::SignedMessageTooShort => "Invalid signed message: too short"@,
            CryptoError::InvalidSigningPublicKeyLength => "Invalid signing public key length"@,
            CryptoError::InvalidPublicKey => "Invalid public key"@,
            CryptoError::SignatureInvalid => "Signature verification failed"@,
            CryptoError::InvalidHex => "Invalid hex"@,
        }
    }

    /// The text as a string.
    pub fn message(&self) -> (r: String)
        ensures
            r@ == self.text(),
    {
        match self {
            CryptoError::InvalidRecipientPublicKeyLength => "Invalid recipient public key length".to_owned(),
            CryptoError::InvalidSenderSecretKeyLength => "Invalid sender secret key length".to_owned(),
            CryptoError::InvalidNonceLength => "Invalid nonce length".to_owned(),
            CryptoError::EncryptionFailed => "Encryption failed".to_owned(),
            CryptoError::CiphertextTooShort => "Invalid ciphertext: too short".to_owned(),
            CryptoError::InvalidSenderPublicKeyLength => "Invalid sender public key length".to_owned(),
            CryptoError::InvalidRecipientSecretKeyLength => "Invalid recipient secret key length".to_owned(),
            CryptoError::DecryptionFailed => "Decryption failed".to_owned(),
            CryptoError::InvalidSigningSecretKeyLength => "Invalid signing secret key length".to_owned(),
            CryptoError::SignedMessageTooShort => "Invalid signed message: too short".to_owned(),
            CryptoError::InvalidSigningPublicKeyLength => "Invalid signing public key length".to_owned(),
            CryptoError::InvalidPublicKey => "Invalid public key".to_owned(),
            CryptoError::SignatureInvalid => "Signature verification failed".to_owned(),
            CryptoError::InvalidHex => "Invalid hex".to_owned(),
        }
    }
}

/// A result that holds bytes, as the sequence of those bytes.
pub open spec fn bytes_view<E>(r: Result<Vec<u8>, E>) -> Result<Seq<u8>, E> {
    match r {
        Ok(bytes) => Ok(bytes@),
        Err(e) => Err(e),
    }
}

/// Why encryption refuses its input whatever the nonce, if it does.
pub open spec fn encrypt_refusal(
    plaintext: Seq<u8>,
    recipient_pk: Seq<u8>,
    sender_sk: Seq<u8>,
) -> Option<CryptoError> {
    if recipient_pk.len() != KEY_LEN {
        Some(CryptoError::InvalidRecipientPublicKeyLength)
    } else if sender_sk.len() != KEY_LEN {
        Some(CryptoError::InvalidSenderSecretKeyLength)
    } else if !aead_accepts(plaintext.len()) {
        Some(CryptoError::EncryptionFailed)
    } else {
        None
    }
}

/// What encryption of `plaintext` for the holder of `recipient_pk` returns when
/// it draws `nonce`: the nonce, then ciphertext and tag under the shared secret.
pub open spec fn encrypt_spec(
    plaintext: Seq<u8>,
    recipient_pk: Seq<u8>,
    sender_sk: Seq<u8>,
    nonce: Seq<u8>,
) -> Result<Seq<u8>, CryptoError> {
    if nonce.len() != NONCE_LEN {
        Err(CryptoError::InvalidNonceLength)
    } else {
        match encrypt_refusal(plaintext, recipient_pk, sender_sk) {
            Some(e) => Err(e),
            None => Ok(
                nonce + aead_sealed(x25519_shared(sender_sk, recipient_pk), nonce, plaintext),
            ),
        }
    }
}

/// Whoever holds the secret key behind `recipient_pk` decrypts `sealed` to
/// `plaintext`, given the sender's true public key.
pub open spec fn decrypts_for_recipient(
    sealed: Seq<u8>,
    plaintext: Seq<u8>,
    recipient_pk: Seq<u8>,
    sender_sk: Seq<u8>,
) -> bool {
    x25519_public(sender_sk).len() == KEY_LEN ==> forall|recipient_sk: Seq<u8>|
        recipient_sk.len() == KEY_LEN && recipient_pk == #[trigger] x25519_public(recipient_sk)
            ==> decrypt_spec(sealed, x25519_public(sender_sk), recipient_sk) == Ok::<
            Seq<u8>,
            CryptoError,
        >(plaintext)
}

/// What decryption returns: the plaintext that the bytes after the 24-byte
/// nonce authenticate under the shared secret.
pub open spec fn decrypt_spec(
    ciphertext: Seq<u8>,
    sender_pk: Seq<u8>,
    recipient_sk: Seq<u8>,
) -> Result<Seq<u8>, CryptoError> {
    if ciphertext.len() < NONCE_LEN {
        Err(CryptoError::CiphertextTooShort)
    } else if sender_pk.len() != KEY_LEN {
        Err(CryptoError::InvalidSenderPublicKeyLength)
    } else if recipient_sk.len() != KEY_LEN {
        Err(CryptoError::InvalidRecipientSecretKeyLength)
    } else {
        match aead_opened(
            x25519_shared(recipient_sk, sender_pk),
            ciphertext.subrange(0, NONCE_LEN as int),
            ciphertext.subrange(NONCE_LEN as int, ciphertext.len() as int),
        ) {
            Some(plaintext) => Ok(plaintext),
            None => Err(CryptoError::DecryptionFailed),
        }
    }
}

/// What signing returns: the 64-byte signature, then the message.
pub open spec fn sign_spec(message: Seq<u8>, sign_sk: Seq<u8>) -> Result<Seq<u8>, CryptoError> {
    if sign_sk.len() != KEY_LEN {
        Err(CryptoError::InvalidSigningSecretKeyLength)
    } else {
        Ok(ed25519_signature(sign_sk, message) + message)
    }
}

/// What verification returns: the message behind the signature, where the
/// signature on it verifies under `sign_pk`.
pub open spec fn verify_spec(signed: Seq<u8>, sign_pk: Seq<u8>) -> Result<Seq<u8>, CryptoError> {
    let signature = signed.subrange(0, SIGNATURE_LEN as int);
    let message = signed.subrange(SIGNATURE_LEN as int, signed.len() as int);
    if signed.len() < SIGNATURE_LEN {
        Err(CryptoError::SignedMessageTooShort)
    } else if sign_pk.len() != KEY_LEN {
        Err(CryptoError::InvalidSigningPublicKeyLength)
    } else if !ed25519_key_decodes(sign_pk) {
        Err(CryptoError::InvalidPublicKey)
    } else if !ed25519_verifies(sign_pk, message, signature) {
        Err(CryptoError::SignatureInvalid)
    } else {
        Ok(message)
    }
}

/// Verification under the true public key of `sign_sk` accepts `signed` and
/// returns `message`.
pub open spec fn verifies_for_signer(signed: Seq<u8>, message: Seq<u8>, sign_sk: Seq<u8>) -> bool {
    let sign_pk = ed25519_public(sign_sk);
    sign_pk.len() == KEY_LEN && ed25519_key_decodes(sign_pk) ==> verify_spec(signed, sign_pk)
        == Ok::<Seq<u8>, CryptoError>(message)
}

/// Lexicographic order of byte strings, a proper prefix coming first.
pub open spec fn lex_less(a: Seq<u8>, b: Seq<u8>) -> bool
    decreases a.len(),
{
    if b.len() == 0 {
        false
    } else if a.len() == 0 {
        true
    } else if a[0] != b[0] {
        a[0] < b[0]
    } else {
        lex_less(a.skip(1), b.skip(1))
    }
}

/// The bytes that are hashed into the queue id of two keys: the two texts in
/// lexicographic order, the smaller first.
pub open spec fn queue_id_input(pk1_hex: Seq<char>, pk2_hex: Seq<char>) -> Seq<u8> {
    let first = encode_utf8(pk1_hex);
    let second = encode_utf8(pk2_hex);
    if lex_less(first, second) {
        first + second
    } else {
        second + first
    }
}

/// The queue id of a conversation: hex of the first 16 bytes of the SHA-256
/// digest of the two keys' texts, put in order.
pub open spec fn conversation_queue_id(pk1_hex: Seq<char>, pk2_hex: Seq<char>) -> Seq<char> {
    hex_string(sha256(queue_id_input(pk1_hex, pk2_hex)).subrange(0, QUEUE_ID_BYTES as int))
}

/// Nothing needs setting up; kept so that callers can start the same way on
/// every platform.
pub fn init() -> (r: Result<(), String>)
    ensures
        r is Ok,
{
    Ok(())
}

/// Draws a fresh identity from the operating system's random source.
pub fn generate_keypair() -> (r: Keypair)
    ensures
        r.valid(),
{
    let encrypt_sk = random_x25519_secret();
    let encrypt_pk = x25519_public_key(encrypt_sk.as_slice());
    let sign_sk = random_ed25519_secret();
    let sign_pk = ed25519_public_key(sign_sk.as_slice());
    Keypair { encrypt_pk, encrypt_sk, sign_pk, sign_sk }
}

/// Encrypts under the secret shared by `sender_sk` and `recipient_pk`, with the
/// nonce that the caller drew.
pub fn encrypt_message_with_nonce(
    plaintext: &[u8],
    recipient_pk: &[u8],
    sender_sk: &[u8],
    nonce: &[u8],
) -> (r: Result<Vec<u8>, CryptoError>)
    ensures
        bytes_view(r) == encrypt_spec(plaintext@, recipient_pk@, sender_sk@, nonce@),
        r matches Ok(sealed) ==> sealed@.len() == NONCE_LEN + plaintext@.len() + TAG_LEN,
        r matches Ok(sealed) ==> decrypts_for_recipient(
            sealed@,
            plaintext@,
            recipient_pk@,
            sender_sk@,
        ),
{
    if nonce.len() != NONCE_LEN {
        return Err(CryptoError::InvalidNonceLength);
    }
    if recipient_pk.len() != KEY_LEN {
        return Err(CryptoError::InvalidRecipientPublicKeyLength);
    }
    if sender_sk.len() != KEY_LEN {
        return Err(CryptoError::InvalidSenderSecretKeyLength);
    }
    let shared = x25519_diffie_hellman(sender_sk, recipient_pk);
    match aead_encrypt(shared.as_slice(), nonce, plaintext) {
        None => Err(CryptoError::EncryptionFailed),
        Some(ciphertext) => {
            let mut result: Vec<u8> = Vec::new();
            result.extend_from_slice(nonce);
            result.extend_from_slice(ciphertext.as_slice());
            proof {
                assert(result@ =~= nonce@ + ciphertext@);
                assert(result@.subrange(0, NONCE_LEN as int) =~= nonce@);
                assert(result@.subrange(NONCE_LEN as int, result@.len() as int) =~= ciphertext@);
            }
            Ok(result)
        },
    }
}

/// Encrypts a message for the holder of `recipient_pk`. The result starts with
/// a fresh random nonce, and is what [`encrypt_message_with_nonce`] returns for
/// that nonce.
pub fn encrypt_message(plaintext: &[u8], recipient_pk: &[u8], sender_sk: &[u8]) -> (r: Result<
    Vec<u8>,
    CryptoError,
>)
    ensures
        match r {
            Ok(sealed) => {
                &&& encrypt_refusal(plaintext@, recipient_pk@, sender_sk@) is None
                &&& sealed@.len() == NONCE_LEN + plaintext@.len() + TAG_LEN
                &&& encrypt_spec(
                    plaintext@,
                    recipient_pk@,
                    sender_sk@,
                    sealed@.subrange(0, NONCE_LEN as int),
                ) == Ok::<Seq<u8>, CryptoError>(sealed@)
                &&& decrypts_for_recipient(sealed@, plaintext@, recipient_pk@, sender_sk@)
            },
            Err(e) => encrypt_refusal(plaintext@, recipient_pk@, sender_sk@) == Some(e),
        },
{
    let nonce = random_nonce();
    let r = encrypt_message_with_nonce(plaintext, recipient_pk, sender_sk, nonce.as_slice());
    proof {
        if r is Ok {
            assert(r->Ok_0@.subrange(0, NONCE_LEN as int) =~= nonce@);
        }
    }
    r
}

/// Decrypts what [`encrypt_message`] produced for `recipient_sk`'s holder.
pub fn decrypt_message(ciphertext: &[u8], sender_pk: &[u8], recipient_sk: &[u8]) -> (r: Result<
    Vec<u8>,
    CryptoError,
>)
    ensures
        bytes_view(r) == decrypt_spec(ciphertext@, sender_pk@, recipient_sk@),
{
    if ciphertext.len() < NONCE_LEN {
        return Err(CryptoError::CiphertextTooShort);
    }
    if sender_pk.len() != KEY_LEN {
        return Err(CryptoError::InvalidSenderPublicKeyLength);
    }
    if recipient_sk.len() != KEY_LEN {
        return Err(CryptoError::InvalidRecipientSecretKeyLength);
    }
    let shared = x25519_diffie_hellman(recipient_sk, sender_pk);
    let nonce = slice_subrange(ciphertext, 0, NONCE_LEN);
    let sealed = slice_subrange(ciphertext, NONCE_LEN, ciphertext.len());
    match aead_decrypt(shared.as_slice(), nonce, sealed) {
        Some(plaintext) => Ok(plaintext),
        None => Err(CryptoError::DecryptionFailed),
    }
}

/// Signs a message: the result is the signature followed by the message, and
/// it verifies under the public key of `sign_sk`.
pub fn sign_message(message: &[u8], sign_sk: &[u8]) -> (r: Result<Vec<u8>, CryptoError>)
    ensures
        bytes_view(r) == sign_spec(message@, sign_sk@),
        r matches Ok(signed) ==> signed@.len() == SIGNATURE_LEN + message@.len(),
        r matches Ok(signed) ==> verifies_for_signer(signed@, message@, sign_sk@),
{
    if sign_sk.len() != KEY_LEN {
        return Err(CryptoError::InvalidSigningSecretKeyLength);
    }
    let signature = ed25519_sign(sign_sk, message);
    let mut result: Vec<u8> = Vec::new();
    result.extend_from_slice(signature.as_slice());
    result.extend_from_slice(message);
    proof {
        assert(result@ =~= signature@ + message@);
        assert(result@.subrange(0, SIGNATURE_LEN as int) =~= signature@);
        assert(result@.subrange(SIGNATURE_LEN as int, result@.len() as int) =~= message@);
    }
    Ok(result)
}

/// Checks the signature in front of a signed message and returns the message.
pub fn verify_signature(signed_message: &[u8], sign_pk: &[u8]) -> (r: Result<Vec<u8>, CryptoError>)
    ensures
        bytes_view(r) == verify_spec(signed_message@, sign_pk@),
{
    if signed_message.len() < SIGNATURE_LEN {
        return Err(CryptoError::SignedMessageTooShort);
    }
    if sign_pk.len() != KEY_LEN {
        return Err(CryptoError::InvalidSigningPublicKeyLength);
    }
    if !ed25519_key_valid(sign_pk) {
        return Err(CryptoError::InvalidPublicKey);
    }
    let signature = slice_subrange(signed_message, 0, SIGNATURE_LEN);
    let message = slice_subrange(signed_message, SIGNATURE_LEN, signed_message.len());
    if !ed25519_verify(sign_pk, message, signature) {
        return Err(CryptoError::SignatureInvalid);
    }
    let mut result: Vec<u8> = Vec::new();
    result.extend_from_slice(message);
    proof {
        assert(result@ =~= message@);
    }
    Ok(result)
}

/// Lower-case hex text of bytes: two digits for each byte.
pub fn to_hex(bytes: &[u8]) -> (r: String)
    ensures
        r@ == hex_string(bytes@),
        is_hex_text(r@),
        hex_bytes(r@) == bytes@,
        r@.len() == 2 * bytes@.len(),
        is_lower_hex(r@),
{
    proof {
        crate::encoding::lemma_hex_round_trip(bytes@);
        lemma_hex_string_shape(bytes@);
    }
    hex_encode(bytes)
}

/// The bytes of a hex text of either case; an error where the text has an odd
/// length or holds anything but hex digits.
pub fn from_hex(hex_str: &str) -> (r: Result<Vec<u8>, CryptoError>)
    ensures
        r is Ok <==> is_hex_text(hex_str@),
        r matches Ok(bytes) ==> bytes@ == hex_bytes(hex_str@),
        r matches Err(e) ==> e == CryptoError::InvalidHex,
{
    match hex_decode(hex_str) {
        Some(bytes) => Ok(bytes),
        None => Err(CryptoError::InvalidHex),
    }
}

/// Whether `a` comes before `b` in lexicographic order.
pub fn bytes_less(a: &[u8], b: &[u8]) -> (r: bool)
    ensures
        r == lex_less(a@, b@),
{
    let mut i: usize = 0;
    proof {
        assert(a@.skip(0) =~= a@);
        assert(b@.skip(0) =~= b@);
    }
    while i < a.len() && i < b.len() && a[i] == b[i]
        invariant
            i <= a@.len(),
            i <= b@.len(),
            lex_less(a@, b@) == lex_less(a@.skip(i as int), b@.skip(i as int)),
        decreases a@.len() - i,
    {
        proof {
            let x = a@.skip(i as int);
            let y = b@.skip(i as int);
            assert(x[0] == y[0]);
            assert(x.skip(1) =~= a@.skip(i as int + 1));
            assert(y.skip(1) =~= b@.skip(i as int + 1));
        }
        i = i + 1;
    }
    proof {
        let x = a@.skip(i as int);
        let y = b@.skip(i as int);
        if i < a@.len() && i < b@.len() {
            assert(x[0] == a@[i as int]);
            assert(y[0] == b@[i as int]);
        }
    }
    if i >= b.len() {
        false
    } else if i >= a.len() {
        true
    } else {
        a[i] < b[i]
    }
}

/// Length of a queue id: two hex digits for each of its bytes.
pub const QUEUE_ID_LEN: usize = 32;

/// The queue id that both sides of a conversation derive from the hex texts of
/// their two encryption keys, whichever of the two is given first: 32
/// lower-case hex digits. It never fails.
pub fn generate_conversation_queue_id(pk1_hex: &str, pk2_hex: &str) -> (r: Result<
    String,
    CryptoError,
>)
    ensures
        r matches Ok(id) && id@ == conversation_queue_id(pk1_hex@, pk2_hex@),
        r matches Ok(id) && id@.len() == QUEUE_ID_LEN && is_lower_hex(id@),
        conversation_queue_id(pk1_hex@, pk2_hex@) == conversation_queue_id(pk2_hex@, pk1_hex@),
{
    let first = pk1_hex.as_bytes();
    let second = pk2_hex.as_bytes();
    let mut combined: Vec<u8> = Vec::new();
    if bytes_less(first, second) {
        combined.extend_from_slice(first);
        combined.extend_from_slice(second);
    } else {
        combined.extend_from_slice(second);
        combined.extend_from_slice(first);
    }
    assert(combined@ =~= queue_id_input(pk1_hex@, pk2_hex@));
    let digest = sha256_digest(combined.as_slice());
    let head = slice_subrange(digest.as_slice(), 0, QUEUE_ID_BYTES);
    proof {
        lemma_conversation_queue_id_symmetric(pk1_hex@, pk2_hex@);
        lemma_hex_string_shape(head@);
    }
    Ok(hex_encode(head))
}

/// No byte string comes before itself, and of two different ones exactly one
/// comes before the other.
pub proof fn lemma_lex_less_total(a: Seq<u8>, b: Seq<u8>)
    ensures
        !(lex_less(a, b) && lex_less(b, a)),
        !lex_less(a, b) && !lex_less(b, a) ==> a == b,
    decreases a.len(),
{
    if a.len() == 0 || b.len() == 0 {
        if a.len() == 0 && b.len() == 0 {
            assert(a =~= b);
        }
    } else if a[0] != b[0] {
    } else {
        lemma_lex_less_total(a.skip(1), b.skip(1));
        if !lex_less(a, b) && !lex_less(b, a) {
            assert(a.skip(1) == b.skip(1));
            assert forall|i: int| 0 <= i < a.len() implies a[i] == b[i] by {
                if i > 0 {
                    assert(a[i] == a.skip(1)[i - 1]);
                    assert(b[i] == b.skip(1)[i - 1]);
                }
            }
            assert(a.len() == a.skip(1).len() + 1);
            assert(b.len() == b.skip(1).len() + 1);
            assert(a =~= b);
        }
    }
}

/// The queue id does not depend on which of the two keys is named first.
pub proof fn lemma_conversation_queue_id_symmetric(pk1_hex: Seq<char>, pk2_hex: Seq<char>)
    ensures
        conversation_queue_id(pk1_hex, pk2_hex) == conversation_queue_id(pk2_hex, pk1_hex),
{
    lemma_lex_less_total(encode_utf8(pk1_hex), encode_utf8(pk2_hex));
}

} // verus!
