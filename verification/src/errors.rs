use vstd::prelude::*;

verus! {

/// The failures the credential store reports.
///
/// `DecryptionFailure` deliberately conflates a wrong master key with
/// tampered or corrupted stored bytes: the authenticated cipher cannot
/// and must not distinguish the two.
#[derive(Clone, Copy, Debug, PartialEq, Eq, Structural)]
pub enum StoreError {
    /// The encryption primitive rejected its input; unexpected for a
    /// well-formed key and nonce.
    EncryptionFailure,
    /// The authentication tag did not verify: wrong key, wrong nonce,
    /// or altered stored bytes.
    DecryptionFailure,
    /// No entry matches the requested (service, username) pair.
    NotFound,
    /// The backing store could not be opened or provisioned.
    StoreUnavailable,
    /// A durable write failed.
    StoreWriteFailure,
    /// A read from the backing store failed.
    StoreReadFailure,
}

impl StoreError {
    /// A short human-readable description of the failure.
    pub fn message(&self) -> (r: &'static str)
        ensures
            r@.len() > 0,
    {
        proof {
            reveal_strlit("encryption failed");
            reveal_strlit("decryption failed: wrong master password or corrupted entry");
            reveal_strlit("no entry found for this service and username");
            reveal_strlit("the credential store could not be opened");
            reveal_strlit("writing to the credential store failed");
            reveal_strlit("reading from the credential store failed");
        }
        match self {
            StoreError::EncryptionFailure => "encryption failed",
            StoreError::DecryptionFailure => "decryption failed: wrong master password or corrupted entry",
            StoreError::NotFound => "no entry found for this service and username",
            StoreError::StoreUnavailable => "the credential store could not be opened",
            StoreError::StoreWriteFailure => "writing to the credential store failed",
            StoreError::StoreReadFailure => "reading from the credential store failed",
        }
    }
}

} // verus!
