//! The API token and its protection at rest. A token is either in the clear,
//! ready for use, or encrypted under the application's local key.

use serde_encrypt::AsSharedKey;
use serde_encrypt::EncryptedMessage;
use serde_encrypt::encrypt::plain_message_shared_key::PlainMessageSharedKey;
use serde_encrypt_core::encrypt::plain_message_shared_key::PlainMessageSharedKeyCore;
use vstd::bytes::{
    lemma_auto_spec_u64_to_from_le_bytes, spec_u64_from_le_bytes, spec_u64_to_le_bytes,
    u64_from_le_bytes, u64_to_le_bytes,
};
use vstd::prelude::*;
use vstd::slice::{slice_subrange, slice_to_vec};
use vstd::string::*;
use vstd::utf8::{decode_utf8, encode_utf8, encode_utf8_decode_utf8, encode_utf8_valid_utf8, valid_utf8};

verus! {

/// An API token in the clear.
#[derive(Debug, PartialEq, Eq)]
pub struct Key(pub String);

impl View for Key {
    type V = Seq<char>;

    open spec fn view(&self) -> Seq<char> {
        self.0@
    }
}

impl Clone for Key {
    fn clone(&self) -> (copy: Self)
        ensures
            copy == *self,
    {
        Key(self.0.clone())
    }
}

/// An API token, in the clear or encrypted.
#[derive(Debug, PartialEq, Eq)]
pub enum Secret {
    Unencrypted(Key),
    Encrypted(Vec<u8>),
}

/// What a [`Secret`] holds, as plain values.
pub enum SecretView {
    Unencrypted(Seq<char>),
    Encrypted(Seq<u8>),
}

impl View for Secret {
    type V = SecretView;

    open spec fn view(&self) -> SecretView {
        match self {
            Secret::Unencrypted(key) => SecretView::Unencrypted(key@),
            Secret::Encrypted(bytes) => SecretView::Encrypted(bytes@),
        }
    }
}

impl Clone for Secret {
    fn clone(&self) -> (copy: Self)
        ensures
            copy@ == self@,
    {
        match self {
            Secret::Unencrypted(key) => Secret::Unencrypted(key.clone()),
            Secret::Encrypted(bytes) => Secret::Encrypted(bytes.clone()),
        }
    }
}

/// Why a token could not be encrypted or decrypted.
#[derive(Debug, Clone, Copy, PartialEq, Eq, Structural)]
pub enum SecretError {
    /// The cipher refused the token.
    EncryptionFailed,
    /// The encrypted bytes were not made with this key, or were changed
    /// since.
    DecryptionFailed,
    /// The bytes decrypt, but to something that is no token.
    MalformedToken,
}

/// The 32-byte key, local to one installation, under which the token is
/// encrypted. It cannot be printed.
#[derive(Clone, Copy, PartialEq, Eq)]
pub struct SharedKey {
    bytes: [u8; 32],
}

impl View for SharedKey {
    type V = Seq<u8>;

    closed spec fn view(&self) -> Seq<u8> {
        self.bytes@
    }
}

/// The error type of the cipher.
#[verifier::external_type_specification]
#[verifier::external_body]
pub struct ExCipherError(serde_encrypt::Error);

/// What the bytes of a sealed message decrypt to under a key: the message
/// that was sealed, or nothing where the cipher rejects them. The cipher is
/// not modelled: this is a name for what it computes.
pub uninterp spec fn opened(key: Seq<u8>, sealed: Seq<u8>) -> Option<Seq<u8>>;

/// A fresh key from `serde_encrypt`'s `SharedKey::generate`, which draws 32
/// bytes from the crate's random number generator. Nothing is claimed of
/// the bytes.
#[verifier::external_body]
fn random_key_bytes() -> [u8; 32] {
    let key = serde_encrypt::shared_key::SharedKey::generate();
    let mut bytes = [0u8; 32];
    bytes.copy_from_slice(key.as_slice());
    bytes
}

/// Seals `plain` under `key` and gives the sealed message's bytes: the call
/// is `serde_encrypt`'s `PlainMessageSharedKey::encrypt` (XChaCha20-Poly1305
/// with a nonce drawn at random), followed by `EncryptedMessage::serialize`
/// (the nonce, then the cipher's output). Two calls on the same input give
/// different bytes, so nothing is said of the bytes themselves. What is
/// claimed, without proof: whatever comes out opens, under the same key, to
/// `plain` again; and the call succeeds on every message of fewer than
/// `u32::MAX` blocks of 64 bytes, which is the one bound that the cipher
/// (`chacha20poly1305`) checks.
#[verifier::external_body]
fn seal_frame(key: &SharedKey, plain: Vec<u8>) -> (sealed: Result<Vec<u8>, serde_encrypt::Error>)
    ensures
        sealed matches Ok(bytes) ==> opened(key@, bytes@) == Some(plain@),
        plain@.len() / 64 < u32::MAX ==> sealed is Ok,
{
    let shared = serde_encrypt::shared_key::SharedKey::new(key.bytes);
    let message = PlainMessageSharedKey::new(plain).encrypt(&shared)?;
    Ok(message.serialize())
}

/// Opens the bytes of a sealed message under `key`: the calls are
/// `serde_encrypt`'s `EncryptedMessage::deserialize`, which splits the nonce
/// off, and `PlainMessageSharedKey::decrypt`. The outcome depends on the key
/// and the bytes alone, and [`opened`] is its name: that the two agree is
/// claimed without proof. The call fails where the bytes are too short to
/// hold a nonce or do not pass authentication.
#[verifier::external_body]
fn open_sealed(key: &SharedKey, sealed: Vec<u8>) -> (plain: Result<Vec<u8>, serde_encrypt::Error>)
    ensures
        match plain {
            Ok(bytes) => opened(key@, sealed@) == Some(bytes@),
            Err(_) => opened(key@, sealed@) is None,
        },
{
    let shared = serde_encrypt::shared_key::SharedKey::new(key.bytes);
    let message = EncryptedMessage::deserialize(sealed)?;
    Ok(PlainMessageSharedKey::decrypt(&message, &shared)?.into_vec())
}

/// `String::from_utf8`: the text that `bytes` encode, where they are valid
/// UTF-8, and nothing where they are not. That the standard library decodes
/// as [`decode_utf8`] says is claimed without proof.
#[verifier::external_body]
fn utf8_string(bytes: Vec<u8>) -> (text: Option<String>)
    ensures
        match text {
            Some(text) => valid_utf8(bytes@) && text@ == decode_utf8(bytes@),
            None => !valid_utf8(bytes@),
        },
{
    match String::from_utf8(bytes) {
        Ok(text) => Some(text),
        Err(_) => None,
    }
}

impl SharedKey {
    /// The key with the bytes `data`.
    pub fn new(data: [u8; 32]) -> (key: Self)
        ensures
            key@ == data@,
    {
        SharedKey { bytes: data }
    }

    /// A key drawn at random.
    pub fn generate() -> Self {
        SharedKey { bytes: random_key_bytes() }
    }

    /// The key's 32 bytes.
    pub fn to_bytes(&self) -> (bytes: [u8; 32])
        ensures
            bytes@ == self@,
    {
        self.bytes
    }
}

/// The bytes that stand for a token before it is sealed: the length of its
/// UTF-8 encoding as 8 bytes, least significant first, then the encoding.
pub open spec fn token_frame(token: Seq<char>) -> Seq<u8> {
    spec_u64_to_le_bytes(encode_utf8(token).len() as u64) + encode_utf8(token)
}

/// The token that `frame` stands for: `frame` begins with a length in 8
/// bytes, least significant first, and holds at least that many bytes
/// after it, which are valid UTF-8. Bytes beyond those are not looked at.
pub open spec fn parse_frame(frame: Seq<u8>) -> Option<Seq<char>> {
    if frame.len() < 8 {
        None
    } else {
        let declared = spec_u64_from_le_bytes(frame.subrange(0, 8));
        if declared > frame.len() - 8 {
            None
        } else {
            let body = frame.subrange(8, 8 + declared);
            if valid_utf8(body) {
                Some(decode_utf8(body))
            } else {
                None
            }
        }
    }
}

/// Whether a token is short enough for its length to be written in 8
/// bytes. Every token that a machine can hold is.
pub open spec fn fits_frame(token: Seq<char>) -> bool {
    encode_utf8(token).len() <= u64::MAX
}

/// A frame reads back as the token it was made from.
pub proof fn lemma_frame_round_trip(token: Seq<char>)
    requires
        fits_frame(token),
    ensures
        parse_frame(token_frame(token)) == Some(token),
{
    let body = encode_utf8(token);
    let frame = token_frame(token);
    lemma_auto_spec_u64_to_from_le_bytes();
    assert(frame.subrange(0, 8) =~= spec_u64_to_le_bytes(body.len() as u64));
    assert(frame.subrange(8, 8 + body.len() as int) =~= body);
    encode_utf8_valid_utf8(token);
    encode_utf8_decode_utf8(token);
}

/// Builds the frame of a token.
pub fn frame_token(token: &String) -> (frame: Vec<u8>)
    ensures
        frame@ == token_frame(token@),
        fits_frame(token@),
{
    let body = token.as_str().as_bytes();
    let mut frame = u64_to_le_bytes(body.len() as u64);
    frame.extend_from_slice(body);
    frame
}

/// Reads a token back from its frame.
pub fn parse_token_frame(frame: &Vec<u8>) -> (token: Option<String>)
    ensures
        match token {
            Some(token) => parse_frame(frame@) == Some(token@),
            None => parse_frame(frame@) is None,
        },
{
    if frame.len() < 8 {
        return None;
    }
    let declared: u64 = u64_from_le_bytes(slice_subrange(frame.as_slice(), 0, 8));
    if declared > (frame.len() - 8) as u64 {
        return None;
    }
    let end: usize = 8 + declared as usize;
    let body = slice_to_vec(slice_subrange(frame.as_slice(), 8, end));
    utf8_string(body)
}

/// Whether `sealed` is an outcome of encrypting `secret` under `key`. A
/// token in the clear, which fits a frame as every string of the machine
/// does, becomes bytes that open, under `key`, to its frame; one that is
/// encrypted already stays as it is.
pub open spec fn is_encryption_of(key: Seq<u8>, sealed: SecretView, secret: SecretView) -> bool {
    match secret {
        SecretView::Encrypted(_) => sealed == secret,
        SecretView::Unencrypted(token) => {
            &&& fits_frame(token)
            &&& sealed matches SecretView::Encrypted(bytes)
            &&& opened(key, bytes) == Some(token_frame(token))
        },
    }
}

/// The outcome of decrypting `secret` under `key`. A token in the clear
/// stays as it is. Encrypted bytes that the cipher rejects are an error; so
/// are bytes that open to something that is no frame of a token.
pub open spec fn decryption_of(key: Seq<u8>, secret: SecretView) -> Result<SecretView, SecretError> {
    match secret {
        SecretView::Unencrypted(_) => Ok(secret),
        SecretView::Encrypted(bytes) => match opened(key, bytes) {
            None => Err(SecretError::DecryptionFailed),
            Some(frame) => match parse_frame(frame) {
                Some(token) => Ok(SecretView::Unencrypted(token)),
                None => Err(SecretError::MalformedToken),
            },
        },
    }
}

/// Decrypting what encryption made of a token gives the token back, under
/// the same key, whatever the token is and whichever bytes encryption chose.
pub proof fn lemma_decrypt_undoes_encrypt(key: Seq<u8>, token: Seq<char>, sealed: SecretView)
    ensures
        is_encryption_of(key, sealed, SecretView::Unencrypted(token)) ==> decryption_of(key, sealed)
            == Ok::<SecretView, SecretError>(SecretView::Unencrypted(token)),
{
    if fits_frame(token) {
        lemma_frame_round_trip(token);
    }
}

/// Encrypting what is encrypted, and decrypting what is in the clear,
/// change nothing.
pub proof fn lemma_done_twice_changes_nothing(key: Seq<u8>, bytes: Seq<u8>, token: Seq<char>)
    ensures
        forall|sealed: SecretView|
            is_encryption_of(key, sealed, SecretView::Encrypted(bytes)) <==> sealed
                == SecretView::Encrypted(bytes),
        decryption_of(key, SecretView::Unencrypted(token)) == Ok::<SecretView, SecretError>(
            SecretView::Unencrypted(token),
        ),
{
}

/// Encrypts a token under `key`.
pub fn encrypt_cleartext(cleartext: &Key, key: &SharedKey) -> (sealed: Result<Vec<u8>, SecretError>)
    ensures
        fits_frame(cleartext@),
        match sealed {
            Ok(bytes) => opened(key@, bytes@) == Some(token_frame(cleartext@)),
            Err(error) => error == SecretError::EncryptionFailed && token_frame(cleartext@).len()
                / 64 >= u32::MAX,
        },
{
    let frame = frame_token(&cleartext.0);
    match seal_frame(key, frame) {
        Ok(bytes) => Ok(bytes),
        Err(_) => Err(SecretError::EncryptionFailed),
    }
}

/// Decrypts the bytes of an encrypted token under `key`.
pub fn decrypt_secret(secret: Vec<u8>, key: &SharedKey) -> (token: Result<Key, SecretError>)
    ensures
        match token {
            Ok(token) => decryption_of(key@, SecretView::Encrypted(secret@)) == Ok::<
                SecretView,
                SecretError,
            >(SecretView::Unencrypted(token@)),
            Err(error) => decryption_of(key@, SecretView::Encrypted(secret@)) == Err::<
                SecretView,
                SecretError,
            >(error),
        },
{
    match open_sealed(key, secret) {
        Err(_) => Err(SecretError::DecryptionFailed),
        Ok(frame) => match parse_token_frame(&frame) {
            Some(token) => Ok(Key(token)),
            None => Err(SecretError::MalformedToken),
        },
    }
}

impl Secret {
    /// Encrypts the token under `key`, unless it is encrypted already. The
    /// only token that the cipher refuses is one whose frame counts
    /// `u32::MAX` or more blocks of 64 bytes.
    pub fn encrypt(self, key: &SharedKey) -> (sealed: Result<Secret, SecretError>)
        ensures
            match sealed {
                Ok(sealed) => is_encryption_of(key@, sealed@, self@),
                Err(error) => {
                    &&& error == SecretError::EncryptionFailed
                    &&& self@ matches SecretView::Unencrypted(token)
                    &&& token_frame(token).len() / 64 >= u32::MAX
                },
            },
    {
        match self {
            Secret::Unencrypted(cleartext) => match encrypt_cleartext(&cleartext, key) {
                Ok(bytes) => Ok(Secret::Encrypted(bytes)),
                Err(error) => Err(error),
            },
            Secret::Encrypted(bytes) => Ok(Secret::Encrypted(bytes)),
        }
    }

    /// Decrypts the token under `key`, unless it is in the clear already.
    pub fn decrypt(self, key: &SharedKey) -> (cleared: Result<Secret, SecretError>)
        ensures
            match cleared {
                Ok(secret) => decryption_of(key@, self@) == Ok::<SecretView, SecretError>(secret@),
                Err(error) => decryption_of(key@, self@) == Err::<SecretView, SecretError>(error),
            },
    {
        match self {
            Secret::Encrypted(bytes) => match decrypt_secret(bytes, key) {
                Ok(token) => Ok(Secret::Unencrypted(token)),
                Err(error) => Err(error),
            },
            Secret::Unencrypted(token) => Ok(Secret::Unencrypted(token)),
        }
    }
}

} // verus!
