//! Sealing byte payloads to recipients and opening them with a secret key.
use vstd::prelude::*;
use crate::crypto::keys::{
    identity_parses, is_identity, is_recipient, is_weak_recipient, public_of, recipient_parses, weak_recipient,
};

verus! {

/// Errors of the encryption envelope.
#[derive(Clone, Copy, Debug, PartialEq, Eq, Structural)]
pub enum CryptoError {
    /// No recipient was given.
    NoRecipients,
    /// A recipient string is not a public key, or names a key of small
    /// order that no envelope can be sealed to.
    InvalidRecipient,
    /// The secret key string is malformed.
    InvalidKey,
    /// The envelope is not addressed to the key, truncated, or tampered with.
    DecryptionFailed,
    /// The envelope was sealed with a passphrase, which is not supported.
    UnsupportedMode,
}

/// How `age::Decryptor::new` reads `envelope`: `None` when it is no age
/// envelope, `Some(true)` for a passphrase envelope, `Some(false)` for one
/// sealed to recipient keys.
pub uninterp spec fn envelope_mode(envelope: Seq<u8>) -> Option<bool>;

/// What decrypting `envelope` with the identity encoded by `secret` yields
/// through age's recipients decryptor; `None` when it fails.
pub uninterp spec fn opens(envelope: Seq<u8>, secret: Seq<char>) -> Option<Seq<u8>>;

/// `envelope` is a recipients envelope that every listed recipient's secret
/// key opens to `plaintext`.
pub open spec fn sealed_for(envelope: Seq<u8>, plaintext: Seq<u8>, recipients: Seq<String>) -> bool {
    &&& envelope_mode(envelope) == Some(false)
    &&& forall|s: Seq<char>, i: int|
        #![trigger opens(envelope, s), recipients[i]]
        0 <= i < recipients.len() && identity_parses(s) && recipients[i]@ == public_of(s)
            ==> opens(envelope, s) == Some(plaintext)
}

/// A recipient string that can be sealed to: age parses it and it is not
/// of small order.
pub open spec fn usable_recipient(s: Seq<char>) -> bool {
    recipient_parses(s) && !weak_recipient(s)
}

/// Relies on `age::Encryptor::with_recipients`, `wrap_output` and the
/// stream writer: the output is an x25519 recipients envelope that each
/// recipient's identity decrypts to `data`. `with_recipients` accepts any
/// non-empty list and writing to a `Vec` does not fail; x25519 key wrapping
/// panics on an all-zero shared secret, which no key outside the small-order
/// ones gives, so those are kept out by `requires`.
#[verifier::external_body]
fn seal(data: &[u8], recipients: &[String]) -> (r: Option<Vec<u8>>)
    requires
        forall|i: int| 0 <= i < recipients@.len() ==> !weak_recipient(#[trigger] recipients@[i]@),
    ensures
        r matches Some(c) ==> sealed_for(c@, data@, recipients@),
        recipients@.len() > 0 && (forall|i: int| 0 <= i < recipients@.len() ==> recipient_parses(#[trigger] recipients@[i]@))
            ==> r is Some,
{
    let keys = recipients.iter()
        .map(|s| s.parse::<age::x25519::Recipient>().ok())
        .collect::<Option<Vec<_>>>()?;
    let boxed = keys.into_iter()
        .map(|k| Box::new(k) as Box<dyn age::Recipient + Send>)
        .collect::<Vec<_>>();
    let mut out = vec![];
    let mut writer = age::Encryptor::with_recipients(boxed)?.wrap_output(&mut out).ok()?;
    std::io::Write::write_all(&mut writer, data).ok()?;
    writer.finish().ok()?;
    Some(out)
}

/// Relies on `age::Decryptor::new`: reads the envelope header and tells the
/// two kinds of envelope apart.
#[verifier::external_body]
fn read_mode(envelope: &[u8]) -> (r: Option<bool>)
    ensures
        r == envelope_mode(envelope@),
{
    match age::Decryptor::new(envelope) {
        Ok(age::Decryptor::Passphrase(_)) => Some(true),
        Ok(age::Decryptor::Recipients(_)) => Some(false),
        Err(_) => None,
    }
}

/// Relies on `age::decryptor::RecipientsDecryptor::decrypt` with the identity
/// parsed from `secret`, read to the end.
#[verifier::external_body]
fn open_with(envelope: &[u8], secret: &str) -> (r: Option<Vec<u8>>)
    ensures
        match r {
            Some(v) => opens(envelope@, secret@) == Some(v@),
            None => opens(envelope@, secret@) is None,
        },
{
    let id = secret.parse::<age::x25519::Identity>().ok()?;
    let mut out = vec![];
    match age::Decryptor::new(envelope).ok()? {
        age::Decryptor::Recipients(d) => {
            let mut reader = d.decrypt(std::iter::once(&id as &dyn age::Identity)).ok()?;
            std::io::Read::read_to_end(&mut reader, &mut out).ok()?
        },
        age::Decryptor::Passphrase(_) => return None,
    };
    Some(out)
}

/// Seals `plaintext` so that the secret key of any one of `recipients` opens
/// it. Fails with `NoRecipients` on an empty list and with
/// `InvalidRecipient` when some entry is not a public key or names a key of
/// small order; otherwise the result is an envelope sealed for all of them.
pub fn encrypt_bytes(plaintext: &[u8], recipients: &[String]) -> (r: Result<Vec<u8>, CryptoError>)
    ensures
        recipients@.len() == 0 ==> r == Err::<Vec<u8>, CryptoError>(CryptoError::NoRecipients),
        recipients@.len() > 0 && (exists|i: int| 0 <= i < recipients@.len() && !usable_recipient(#[trigger] recipients@[i]@))
            ==> r == Err::<Vec<u8>, CryptoError>(CryptoError::InvalidRecipient),
        recipients@.len() > 0 && (forall|i: int| 0 <= i < recipients@.len() ==> usable_recipient(#[trigger] recipients@[i]@))
            ==> r is Ok,
        r matches Ok(c) ==> sealed_for(c@, plaintext@, recipients@),
{
    if recipients.len() == 0 {
        return Err(CryptoError::NoRecipients);
    }
    let mut i: usize = 0;
    while i < recipients.len()
        invariant
            i <= recipients@.len(),
            forall|j: int| 0 <= j < i ==> usable_recipient(#[trigger] recipients@[j]@),
        decreases recipients@.len() - i,
    {
        if !is_recipient(recipients[i].as_str()) || is_weak_recipient(recipients[i].as_str()) {
            return Err(CryptoError::InvalidRecipient);
        }
        i += 1;
    }
    match seal(plaintext, recipients) {
        Some(c) => Ok(c),
        None => Err(CryptoError::InvalidRecipient),
    }
}

/// The outcome of opening `envelope` with `secret`, in the order in which
/// the checks are made.
pub open spec fn decrypt_result(envelope: Seq<u8>, secret: Seq<char>) -> Result<Seq<u8>, CryptoError> {
    match envelope_mode(envelope) {
        None => Err(CryptoError::DecryptionFailed),
        Some(true) => Err(CryptoError::UnsupportedMode),
        Some(false) => if !identity_parses(secret) {
            Err(CryptoError::InvalidKey)
        } else {
            match opens(envelope, secret) {
                Some(p) => Ok(p),
                None => Err(CryptoError::DecryptionFailed),
            }
        },
    }
}

/// Opens `envelope` with the secret key `secret`. Malformed envelopes and
/// envelopes not addressed to the key both give `DecryptionFailed`; a
/// passphrase envelope gives `UnsupportedMode`, a malformed key `InvalidKey`.
pub fn decrypt_bytes(envelope: &[u8], secret: &str) -> (r: Result<Vec<u8>, CryptoError>)
    ensures
        match r {
            Ok(v) => decrypt_result(envelope@, secret@) == Ok::<Seq<u8>, CryptoError>(v@),
            Err(e) => decrypt_result(envelope@, secret@) == Err::<Seq<u8>, CryptoError>(e),
        },
{
    match read_mode(envelope) {
        None => Err(CryptoError::DecryptionFailed),
        Some(true) => Err(CryptoError::UnsupportedMode),
        Some(false) => {
            if !is_identity(secret) {
                Err(CryptoError::InvalidKey)
            } else {
                match open_with(envelope, secret) {
                    Some(v) => Ok(v),
                    None => Err(CryptoError::DecryptionFailed),
                }
            }
        },
    }
}

/// An envelope sealed for a list of recipients opens, with the secret key of
/// any one of them, to the plaintext that was sealed.
pub proof fn lemma_seal_then_open(envelope: Seq<u8>, plaintext: Seq<u8>, recipients: Seq<String>, i: int, secret: Seq<char>)
    requires
        sealed_for(envelope, plaintext, recipients),
        0 <= i < recipients.len(),
        identity_parses(secret),
        recipients[i]@ == public_of(secret),
    ensures
        decrypt_result(envelope, secret) == Ok::<Seq<u8>, CryptoError>(plaintext),
{
    assert(opens(envelope, secret) == Some(plaintext));
}

} // verus!
