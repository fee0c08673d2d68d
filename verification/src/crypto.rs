//! The cryptographic engine: key derivation from a master password and
//! a salt, and authenticated encryption of individual secrets under the
//! derived key with a fresh random nonce per operation.

use vstd::prelude::*;

use crate::errors::StoreError;
use aes_gcm::aead::{Aead, AeadCore, KeyInit};
use rand::RngCore;

verus! {

/// The key that Argon2 (default parameters) derives from a master
/// password and a salt; it depends on those two inputs alone.
pub uninterp spec fn key_of(password: Seq<char>, salt: Seq<u8>) -> Seq<u8>;

/// The ciphertext (authentication tag included) that AES-256-GCM
/// produces for a key, a nonce and a plaintext; it depends on those
/// three inputs alone.
pub uninterp spec fn cipher_of(key: Seq<u8>, nonce: Seq<u8>, plaintext: Seq<char>) -> Seq<u8>;

/// What opening a ciphertext under a key and a nonce recovers: the
/// plaintext when the authentication tag verifies and the enclosed
/// bytes spell valid text, nothing otherwise; it depends on those three
/// inputs alone.
pub uninterp spec fn decipher_of(key: Seq<u8>, nonce: Seq<u8>, ciphertext: Seq<u8>) -> Option<Seq<char>>;

/// A derived 32-byte symmetric key, held only in memory for the
/// session; never persisted.
pub struct MasterKey {
    bytes: Vec<u8>,
}

impl View for MasterKey {
    type V = Seq<u8>;

    closed spec fn view(&self) -> Seq<u8> {
        self.bytes@
    }
}

impl MasterKey {
    /// A key is well formed when it has exactly the cipher's key length.
    pub open spec fn wf(&self) -> bool {
        self@.len() == 32
    }

    /// The derived key bytes.
    pub fn as_bytes(&self) -> (r: &Vec<u8>)
        ensures
            r@ == self@,
    {
        &self.bytes
    }

    /// Derives the session key from a master password and a salt; the
    /// same pair always derives the same key, and a different password
    /// simply derives a different key, never an explicit rejection.
    pub fn derive(password: &str, salt: &Vec<u8>) -> (r: Result<MasterKey, StoreError>)
        ensures
            r matches Ok(k) ==> k.wf() && k@ == key_of(password@, salt@),
            r matches Err(e) ==> e == StoreError::EncryptionFailure,
            password@.len() <= 0x3FFF_FFFF && 8 <= salt@.len() <= 0xFFFF_FFFF ==> r is Ok,
    {
        match derive_key_bytes(password, salt) {
            Ok(bytes) => Ok(MasterKey { bytes }),
            Err(e) => Err(e),
        }
    }
}

/// Relies on Argon2::hash_password_into with the default parameters:
/// the output depends on the password and the salt alone, and with a
/// 32-byte output buffer the call succeeds whenever the password is at
/// most 0xFFFFFFFF bytes (at most 0x3FFFFFFF characters suffices) and
/// the salt length lies in 8..=0xFFFFFFFF.
#[verifier::external_body]
fn derive_key_bytes(password: &str, salt: &Vec<u8>) -> (r: Result<Vec<u8>, StoreError>)
    ensures
        r matches Ok(k) ==> k@.len() == 32 && k@ == key_of(password@, salt@),
        r matches Err(e) ==> e == StoreError::EncryptionFailure,
        password@.len() <= 0x3FFF_FFFF && 8 <= salt@.len() <= 0xFFFF_FFFF ==> r is Ok,
{
    let mut out = [0u8; 32];
    match argon2::Argon2::default().hash_password_into(password.as_bytes(), salt.as_slice(), &mut out) {
        Ok(()) => Ok(out.to_vec()),
        Err(_) => Err(StoreError::EncryptionFailure),
    }
}

/// Relies on the operating system's random source (rand's OsRng): 16
/// fresh random bytes for a key-derivation salt; nothing is promised of
/// their values.
#[verifier::external_body]
pub(crate) fn generate_salt() -> (r: Vec<u8>)
    ensures
        r@.len() == 16,
{
    let mut buf = vec![0u8; 16];
    rand::rngs::OsRng.fill_bytes(&mut buf);
    buf
}

/// Relies on Aes256Gcm::generate_nonce with the operating system's
/// random source: a fresh random 96-bit nonce; nothing is promised of
/// its value.
#[verifier::external_body]
fn generate_nonce() -> (r: Vec<u8>)
    ensures
        r@.len() == 12,
{
    let nonce = aes_gcm::Aes256Gcm::generate_nonce(&mut rand::rngs::OsRng);
    nonce.to_vec()
}

/// Relies on Aes256Gcm::encrypt (tag appended to the ciphertext): the
/// ciphertext depends on the key, the nonce and the plaintext alone;
/// opening it under the same key and nonce recovers the plaintext; and
/// the call succeeds whenever the plaintext is at most 2^36 bytes (at
/// most 2^34 characters suffices).
#[verifier::external_body]
fn aead_encrypt(key: &MasterKey, nonce: &Vec<u8>, plaintext: &str) -> (r: Result<Vec<u8>, StoreError>)
    requires
        key.wf(),
        nonce@.len() == 12,
    ensures
        r matches Ok(ct) ==> ct@ == cipher_of(key@, nonce@, plaintext@)
            && decipher_of(key@, nonce@, ct@) == Some(plaintext@),
        r matches Err(e) ==> e == StoreError::EncryptionFailure,
        plaintext@.len() <= 0x4_0000_0000 ==> r is Ok,
{
    let cipher = aes_gcm::Aes256Gcm::new(aes_gcm::Key::<aes_gcm::Aes256Gcm>::from_slice(key.bytes.as_slice()));
    match cipher.encrypt(aes_gcm::Nonce::from_slice(nonce.as_slice()), plaintext.as_bytes()) {
        Ok(ct) => Ok(ct),
        Err(_) => Err(StoreError::EncryptionFailure),
    }
}

/// Relies on Aes256Gcm::decrypt, with String::from_utf8 converting the
/// recovered bytes: the outcome depends on the key, the nonce and the
/// ciphertext alone, and is the plaintext exactly when the
/// authentication tag verifies and the bytes spell valid text.
#[verifier::external_body]
fn aead_decrypt(key: &MasterKey, nonce: &Vec<u8>, ciphertext: &Vec<u8>) -> (r: Result<String, StoreError>)
    requires
        key.wf(),
        nonce@.len() == 12,
    ensures
        r matches Ok(p) ==> decipher_of(key@, nonce@, ciphertext@) == Some(p@),
        r matches Err(e) ==> e == StoreError::DecryptionFailure
            && decipher_of(key@, nonce@, ciphertext@) is None,
{
    let cipher = aes_gcm::Aes256Gcm::new(aes_gcm::Key::<aes_gcm::Aes256Gcm>::from_slice(key.bytes.as_slice()));
    match cipher.decrypt(aes_gcm::Nonce::from_slice(nonce.as_slice()), ciphertext.as_slice()) {
        Ok(bytes) => match String::from_utf8(bytes) {
            Ok(text) => Ok(text),
            Err(_) => Err(StoreError::DecryptionFailure),
        },
        Err(_) => Err(StoreError::DecryptionFailure),
    }
}

/// Seals a secret under the key: generates a fresh random 96-bit nonce
/// and returns the authenticated ciphertext together with that nonce;
/// the ciphertext opens back to the secret under the same key and
/// nonce.
pub fn encrypt(key: &MasterKey, plaintext: &str) -> (r: Result<(Vec<u8>, Vec<u8>), StoreError>)
    requires
        key.wf(),
    ensures
        r matches Ok(p) ==> {
            &&& p.1@.len() == 12
            &&& p.0@ == cipher_of(key@, p.1@, plaintext@)
            &&& decipher_of(key@, p.1@, p.0@) == Some(plaintext@)
        },
        r matches Err(e) ==> e == StoreError::EncryptionFailure,
        plaintext@.len() <= 0x4_0000_0000 ==> r is Ok,
{
    let nonce = generate_nonce();
    match aead_encrypt(key, &nonce, plaintext) {
        Ok(ciphertext) => Ok((ciphertext, nonce)),
        Err(e) => Err(e),
    }
}

/// Opens a sealed secret: returns the plaintext exactly when the nonce
/// is well formed and the ciphertext opens under (key, nonce) — that
/// is, the very triple that sealed it — and `DecryptionFailure` in
/// every other case, whether the key is wrong or the bytes were
/// altered: the two are indistinguishable by design.
pub fn decrypt(key: &MasterKey, ciphertext: &Vec<u8>, nonce: &Vec<u8>) -> (r: Result<String, StoreError>)
    requires
        key.wf(),
    ensures
        r matches Ok(p) ==> nonce@.len() == 12 && decipher_of(key@, nonce@, ciphertext@) == Some(p@),
        r matches Err(e) ==> e == StoreError::DecryptionFailure
            && (nonce@.len() != 12 || decipher_of(key@, nonce@, ciphertext@) is None),
        nonce@.len() == 12 && decipher_of(key@, nonce@, ciphertext@) is Some ==> r is Ok,
{
    if nonce.len() != 12 {
        return Err(StoreError::DecryptionFailure);
    }
    aead_decrypt(key, nonce, ciphertext)
}

/// Round trip: decrypting what `encrypt` produced, under the same key,
/// returns the original plaintext; the pair can fail only where the
/// cipher rejects the plaintext at encryption time, and for any
/// plaintext of ordinary length it cannot fail at all.
pub fn encrypt_then_decrypt(key: &MasterKey, plaintext: &str) -> (r: Result<String, StoreError>)
    requires
        key.wf(),
    ensures
        r matches Ok(p) ==> p@ == plaintext@,
        r matches Err(e) ==> e == StoreError::EncryptionFailure,
        plaintext@.len() <= 0x4_0000_0000 ==> (r matches Ok(p) && p@ == plaintext@),
{
    let sealed = match encrypt(key, plaintext) {
        Ok(p) => p,
        Err(e) => {
            return Err(e);
        },
    };
    match decrypt(key, &sealed.0, &sealed.1) {
        Ok(p) => Ok(p),
        // the round trip cannot fail: the ciphertext opens by construction
        Err(_) => unreached(),
    }
}

/// Key determinism: two derivations from the same password and salt
/// yield keys with identical bytes.
pub fn derive_key_twice(password: &str, salt: &Vec<u8>) -> (r: Result<(MasterKey, MasterKey), StoreError>)
    ensures
        r matches Ok(p) ==> p.0@ == p.1@ && p.0@ == key_of(password@, salt@),
        password@.len() <= 0x3FFF_FFFF && 8 <= salt@.len() <= 0xFFFF_FFFF ==> r is Ok,
{
    let first = match MasterKey::derive(password, salt) {
        Ok(k) => k,
        Err(e) => {
            return Err(e);
        },
    };
    let second = match MasterKey::derive(password, salt) {
        Ok(k) => k,
        Err(e) => {
            return Err(e);
        },
    };
    Ok((first, second))
}

} // verus!
