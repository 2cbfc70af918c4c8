//! Operations offered to the desktop shell that are pure computation.
use vstd::prelude::*;
use crate::crypto::e2e::{decrypt_result, encrypt_bytes, CryptoError};
use crate::crypto::keys;
use vstd::string::StringSliceAdditionalSpecFns;

verus! {

/// Seals `text` to a freshly generated key pair, whose secret key is then
/// dropped. The envelope is one that some valid secret key opens to the
/// bytes of `text`.
pub fn encrypt_example(text: &str) -> (r: Result<Vec<u8>, CryptoError>)
    ensures
        r is Ok,
        r matches Ok(c) ==> exists|s: Seq<char>|
            keys::identity_parses(s) && #[trigger] decrypt_result(c@, s) == Ok::<Seq<u8>, CryptoError>(text.spec_bytes()),
{
    let (secret, public) = keys::generate();
    let recipients = vec![public];
    let r = encrypt_bytes(text.as_bytes(), recipients.as_slice());
    proof {
        if r is Ok {
            crate::crypto::e2e::lemma_seal_then_open(r->Ok_0@, text.spec_bytes(), recipients@, 0, secret@);
        }
    }
    r
}

} // verus!
