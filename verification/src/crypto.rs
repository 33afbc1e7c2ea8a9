//! The primitives that the pairing protocol is built from, and the other sources of values that
//! no computation can foresee: random bytes, fresh identifiers and the clock.
use vstd::prelude::*;

use aes_gcm::aead::{Aead, KeyInit};
use base64::Engine;
use ed25519_dalek::{Signer, Verifier};
use sha2::Digest;

use crate::text::{chars_of, concat3, hex, hex_text, no_space, text_from};

verus! {

/// The Base64 text of bytes, with the standard alphabet and padding.
pub uninterp spec fn base64_text(bytes: Seq<u8>) -> Seq<char>;

/// The bytes that a Base64 text stands for, where it is one.
pub uninterp spec fn base64_bytes(text: Seq<char>) -> Option<Seq<u8>>;

/// Writes bytes as Base64.
///
/// The contract names what `encode` of the engine `base64::engine::general_purpose::STANDARD`
/// returns, and claims that `decode` of the same engine gives the bytes back, that four characters
/// stand for each three bytes that were begun, and that none of the characters is white space.
#[verifier::external_body]
pub(crate) fn base64_encode(bytes: &[u8]) -> (r: String)
    ensures
        r@ == base64_text(bytes@),
        base64_bytes(r@) == Some(bytes@),
        r@.len() == (bytes@.len() + 2) / 3 * 4,
        no_space(r@),
{
    base64::engine::general_purpose::STANDARD.encode(bytes)
}

/// Reads bytes from Base64.
///
/// The contract names what `decode` of the engine `base64::engine::general_purpose::STANDARD`
/// returns, and claims that it accepts no text but the one that `encode` writes for the bytes:
/// padding is required and unused bits must be zero.
#[verifier::external_body]
pub(crate) fn base64_decode(text: &str) -> (r: Option<Vec<u8>>)
    ensures
        match r {
            Some(bytes) => base64_bytes(text@) == Some(bytes@) && base64_text(bytes@) == text@,
            None => base64_bytes(text@) is None,
        },
{
    base64::engine::general_purpose::STANDARD.decode(text).ok()
}

/// The SHA-256 digest of bytes.
pub uninterp spec fn sha256_digest(bytes: Seq<u8>) -> Seq<u8>;

/// Hashes bytes.
///
/// The contract names what `sha2::Sha256::digest` returns and says that it is 32 bytes long.
#[verifier::external_body]
pub(crate) fn sha256(bytes: &[u8]) -> (r: Vec<u8>)
    ensures
        r@ == sha256_digest(bytes@),
        r@.len() == 32,
{
    sha2::Sha256::digest(bytes).to_vec()
}

/// The 32 bytes that HKDF with SHA-256 derives from a secret, a salt and an info label.
pub uninterp spec fn hkdf_key(secret: Seq<u8>, salt: Seq<u8>, info: Seq<u8>) -> Seq<u8>;

/// Derives a key.
///
/// The contract names what `expand` of `hkdf::Hkdf::<sha2::Sha256>::new` writes into 32 bytes, a
/// length at which `expand` does not fail.
#[verifier::external_body]
pub(crate) fn hkdf_sha256(secret: &[u8], salt: &[u8], info: &[u8]) -> (r: Vec<u8>)
    ensures
        r@ == hkdf_key(secret@, salt@, info@),
        r@.len() == 32,
{
    let hkdf = hkdf::Hkdf::<sha2::Sha256>::new(Some(salt), secret);
    let mut key = vec![0_u8; 32];
    let _ = hkdf.expand(info, &mut key);
    key
}

/// What AES-256-GCM makes of a plaintext: the ciphertext and behind it the tag.
pub uninterp spec fn aead_sealed(key: Seq<u8>, nonce: Seq<u8>, plaintext: Seq<u8>) -> Option<
    Seq<u8>,
>;

/// The plaintext that AES-256-GCM finds in a ciphertext with its tag, where the tag is right.
pub uninterp spec fn aead_opened(key: Seq<u8>, nonce: Seq<u8>, sealed: Seq<u8>) -> Option<Seq<u8>>;

/// Encrypts a plaintext.
///
/// The contract names what `encrypt` of `aes_gcm::Aes256Gcm` returns. It claims that there is a
/// result exactly for plaintexts of at most 2^36 bytes, that the result is 16 bytes longer than
/// the plaintext, and that `decrypt` under the same key and nonce gives the plaintext back.
#[verifier::external_body]
pub(crate) fn aes_seal(key: &[u8], nonce: &[u8], plaintext: &[u8]) -> (r: Option<Vec<u8>>)
    requires
        key@.len() == 32,
        nonce@.len() == 12,
    ensures
        r is Some <==> plaintext@.len() <= 0x10_0000_0000,
        match r {
            Some(sealed) => aead_sealed(key@, nonce@, plaintext@) == Some(sealed@) && sealed@.len()
                == plaintext@.len() + 16 && aead_opened(key@, nonce@, sealed@) == Some(plaintext@),
            None => aead_sealed(key@, nonce@, plaintext@) is None,
        },
{
    let cipher = aes_gcm::Aes256Gcm::new_from_slice(key).ok()?;
    cipher.encrypt(aes_gcm::Nonce::from_slice(nonce), plaintext).ok()
}

/// Decrypts a ciphertext with its tag.
///
/// The contract names what `decrypt` of `aes_gcm::Aes256Gcm` returns.
#[verifier::external_body]
pub(crate) fn aes_open(key: &[u8], nonce: &[u8], sealed: &[u8]) -> (r: Option<Vec<u8>>)
    requires
        key@.len() == 32,
        nonce@.len() == 12,
    ensures
        match r {
            Some(plaintext) => aead_opened(key@, nonce@, sealed@) == Some(plaintext@),
            None => aead_opened(key@, nonce@, sealed@) is None,
        },
{
    let cipher = aes_gcm::Aes256Gcm::new_from_slice(key).ok()?;
    cipher.decrypt(aes_gcm::Nonce::from_slice(nonce), sealed).ok()
}

/// The Ed25519 public key of a 32-byte secret key.
pub uninterp spec fn ed25519_public(secret: Seq<u8>) -> Seq<u8>;

/// The Ed25519 signature of a message under a 32-byte secret key.
pub uninterp spec fn ed25519_signature(secret: Seq<u8>, message: Seq<u8>) -> Seq<u8>;

/// Whether a signature is one of a message under a 32-byte Ed25519 public key.
pub uninterp spec fn ed25519_accepts(
    public: Seq<u8>,
    message: Seq<u8>,
    signature: Seq<u8>,
) -> bool;

/// The public key of a secret key.
///
/// The contract names the bytes of `verifying_key` of `ed25519_dalek::SigningKey::from_bytes`.
#[verifier::external_body]
pub(crate) fn signing_public_key(secret: &[u8; 32]) -> (r: Vec<u8>)
    ensures
        r@ == ed25519_public(secret@),
        r@.len() == 32,
{
    ed25519_dalek::SigningKey::from_bytes(secret).verifying_key().to_bytes().to_vec()
}

/// Signs a message.
///
/// The contract names the bytes of `sign` of `ed25519_dalek::SigningKey::from_bytes`, and claims
/// that the public key of the same secret key verifies the signature.
#[verifier::external_body]
pub(crate) fn sign_message(secret: &[u8; 32], message: &[u8]) -> (r: Vec<u8>)
    ensures
        r@ == ed25519_signature(secret@, message@),
        r@.len() == 64,
        ed25519_accepts(ed25519_public(secret@), message@, r@),
{
    ed25519_dalek::SigningKey::from_bytes(secret).sign(message).to_bytes().to_vec()
}

/// Verifies a signature.
///
/// The contract names whether `verify` of `ed25519_dalek::VerifyingKey::from_bytes` succeeds on
/// the message and `ed25519_dalek::Signature::from_slice`. A key or a signature that these two do
/// not take verifies nothing; a signature that is not 64 bytes long is such a one.
#[verifier::external_body]
pub(crate) fn verify_message(public: &[u8; 32], message: &[u8], signature: &[u8]) -> (r: bool)
    ensures
        r == ed25519_accepts(public@, message@, signature@),
        signature@.len() != 64 ==> !r,
{
    match (
        ed25519_dalek::VerifyingKey::from_bytes(public),
        ed25519_dalek::Signature::from_slice(signature),
    ) {
        (Ok(key), Ok(signature)) => key.verify(message, &signature).is_ok(),
        _ => false,
    }
}

/// The X25519 public key of a secret key.
pub uninterp spec fn x25519_public(secret: Seq<u8>) -> Seq<u8>;

/// What X25519 makes of a secret key and a public key.
pub uninterp spec fn x25519_shared(secret: Seq<u8>, public: Seq<u8>) -> Seq<u8>;

/// The public key of a secret key.
///
/// The contract names the bytes of `x25519_dalek::PublicKey::from` of a
/// `x25519_dalek::StaticSecret`.
#[verifier::external_body]
pub(crate) fn exchange_public_key(secret: &[u8; 32]) -> (r: Vec<u8>)
    ensures
        r@ == x25519_public(secret@),
        r@.len() == 32,
{
    let secret = x25519_dalek::StaticSecret::from(*secret);
    x25519_dalek::PublicKey::from(&secret).to_bytes().to_vec()
}

/// The secret that two parties share.
///
/// The contract names the bytes of `diffie_hellman` of `x25519_dalek::StaticSecret`, and claims
/// what the exchange is for: the owner of the secret key behind `public` gets the same bytes from
/// the public key of `secret`.
#[verifier::external_body]
pub(crate) fn exchange_keys(secret: &[u8; 32], public: &[u8; 32]) -> (r: Vec<u8>)
    ensures
        r@ == x25519_shared(secret@, public@),
        r@.len() == 32,
        forall|other: Seq<u8>|
            other.len() == 32 && public@ == #[trigger] x25519_public(other) ==> r@ == x25519_shared(
                other,
                x25519_public(secret@),
            ),
{
    let secret = x25519_dalek::StaticSecret::from(*secret);
    secret.diffie_hellman(&x25519_dalek::PublicKey::from(*public)).to_bytes().to_vec()
}

/// Random bytes.
///
/// The contract claims nothing but the length of what `getrandom::fill` filled. Where `fill`
/// fails the bytes are zeros as far as it did not get.
#[verifier::external_body]
fn random_bytes(len: usize) -> (r: Vec<u8>)
    ensures
        r@.len() == len,
{
    let mut bytes = vec![0_u8; len];
    let _ = getrandom::fill(&mut bytes);
    bytes
}

/// A random key.
pub(crate) fn random_key() -> (r: [u8; 32])
{
    let bytes = random_bytes(32);
    key_from(bytes.as_slice())
}

/// Random bytes in hexadecimal digits.
pub fn random_hex(len: usize) -> (r: String)
    ensures
        exists|bytes: Seq<u8>| bytes.len() == len && r@ == #[trigger] hex(bytes),
{
    let bytes = random_bytes(len);
    let r = hex_text(&bytes);
    assert(bytes@.len() == len && r@ == hex(bytes@));
    r
}

/// Whether a text has the form of a hyphenated UUID: five groups of lowercase hexadecimal digits.
pub open spec fn is_uuid_text(s: Seq<char>) -> bool {
    s.len() == 36 && forall|i: int|
        0 <= i < 36 ==> if i == 8 || i == 13 || i == 18 || i == 23 {
            #[trigger] s[i] == '-'
        } else {
            ('0' <= s[i] && s[i] <= '9') || ('a' <= s[i] && s[i] <= 'f')
        }
}

/// A fresh identifier.
///
/// The contract claims of the text of `uuid::Uuid::new_v4` only its form. `new_v4` panics where
/// the system gives no random bytes, which no argument decides.
#[verifier::external_body]
pub(crate) fn fresh_uuid() -> (r: String)
    ensures
        is_uuid_text(r@),
{
    uuid::Uuid::new_v4().to_string()
}

/// Whether a text has the form of a UUID without hyphens: lowercase hexadecimal digits.
pub open spec fn is_token_text(s: Seq<char>) -> bool {
    s.len() == 32 && forall|i: int|
        0 <= i < 32 ==> ('0' <= #[trigger] s[i] && s[i] <= '9') || ('a' <= s[i] && s[i] <= 'f')
}

/// A fresh identifier without hyphens.
pub fn fresh_token() -> (r: String)
    ensures
        is_token_text(r@),
{
    let id = fresh_uuid();
    let chars = chars_of(id.as_str());
    let head = concat3(
        text_from(&chars, 0, 8).as_str(),
        text_from(&chars, 9, 13).as_str(),
        text_from(&chars, 14, 18).as_str(),
    );
    let r = concat3(
        head.as_str(),
        text_from(&chars, 19, 23).as_str(),
        text_from(&chars, 24, 36).as_str(),
    );
    assert forall|i: int| 0 <= i < 32 implies ('0' <= #[trigger] r@[i] && r@[i] <= '9') || (
    'a' <= r@[i] && r@[i] <= 'f') by {
        let at: int = if i < 8 {
            i
        } else if i < 12 {
            i + 1
        } else if i < 16 {
            i + 2
        } else if i < 20 {
            i + 3
        } else {
            i + 4
        };
        assert(r@[i] == id@[at]);
    }
    r
}

/// The largest number of milliseconds that a `Duration` holds: its whole seconds are a `u64`.
pub const LAST_TIME_MS: u128 = 18_446_744_073_709_551_615_999;

/// The milliseconds since the Unix epoch.
///
/// The contract claims of `std::time::SystemTime::now` nothing but that the milliseconds since the
/// epoch are those of a `Duration`, which holds at most `u64::MAX` whole seconds and less than one
/// more. There is no result where the clock stands before the epoch.
#[verifier::external_body]
fn system_time_ms() -> (r: Option<u128>)
    ensures
        r matches Some(ms) ==> ms <= LAST_TIME_MS,
{
    let since = std::time::SystemTime::now().duration_since(std::time::UNIX_EPOCH).ok()?;
    Some(since.as_millis())
}

/// The milliseconds since the Unix epoch, or zero where the clock stands before it.
pub fn current_time_ms() -> (r: u128)
    ensures
        r <= LAST_TIME_MS,
{
    match system_time_ms() {
        Some(ms) => ms,
        None => 0,
    }
}

/// The bytes as a key, where there are 32 of them.
pub fn to_32_bytes(bytes: &[u8]) -> (r: Option<[u8; 32]>)
    ensures
        match r {
            Some(key) => key@ == bytes@,
            None => bytes@.len() != 32,
        },
{
    if bytes.len() != 32 {
        return None;
    }
    let mut key: [u8; 32] = [0u8; 32];
    let mut i: usize = 0;
    while i < 32
        invariant
            i <= 32,
            bytes@.len() == 32,
            key@.len() == 32,
            forall|j: int| 0 <= j < i ==> key@[j] == bytes@[j],
        decreases 32 - i,
    {
        key[i] = bytes[i];
        i = i + 1;
    }
    assert(key@ =~= bytes@);
    Some(key)
}

/// 32 zero bytes.
pub open spec fn zero_key() -> Seq<u8> {
    Seq::new(32, |i: int| 0u8)
}

/// The bytes that a Base64 text stands for, or none where it is not Base64.
pub open spec fn base64_or_empty(text: Seq<char>) -> Seq<u8> {
    match base64_bytes(text) {
        Some(bytes) => bytes,
        None => Seq::empty(),
    }
}

/// The bytes as a key, or 32 zero bytes where they are none.
pub open spec fn key_or_zeros(bytes: Seq<u8>) -> Seq<u8> {
    if bytes.len() == 32 {
        bytes
    } else {
        zero_key()
    }
}

pub fn decode_or_empty(text: &str) -> (r: Vec<u8>)
    ensures
        r@ == base64_or_empty(text@),
{
    match base64_decode(text) {
        Some(bytes) => bytes,
        None => Vec::new(),
    }
}

pub fn key_from(bytes: &[u8]) -> (r: [u8; 32])
    ensures
        r@ == key_or_zeros(bytes@),
{
    match to_32_bytes(bytes) {
        Some(key) => key,
        None => {
            let zeros: [u8; 32] = [0u8; 32];
            assert(zeros@ =~= zero_key());
            zeros
        },
    }
}

} // verus!
