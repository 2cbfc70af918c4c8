//! Self-signed TLS identity for first-run bootstrapping.
use vstd::prelude::*;

verus! {

/// A certificate and its private key, both DER-encoded.
pub struct TlsIdentity {
    pub certificate: Vec<u8>,
    pub private_key: Vec<u8>,
}

/// Errors of the identity provider.
#[derive(Clone, Copy, Debug, PartialEq, Eq, Structural)]
pub enum TlsError {
    /// No certificate could be made; no partial pair is returned.
    CertGenFailure,
}

/// Relies on `rcgen::generate_simple_self_signed`, `Certificate::der` and
/// `KeyPair::serialize_der`: a fresh key pair and a certificate signed by
/// it for the subject alternative names given. `None` when rcgen fails; a
/// DER encoding is never empty.
#[verifier::external_body]
fn self_signed(hostnames: Vec<String>) -> (r: Option<(Vec<u8>, Vec<u8>)>)
    ensures
        r matches Some((c, k)) ==> c@.len() > 0 && k@.len() > 0,
{
    rcgen::generate_simple_self_signed(hostnames)
        .ok()
        .map(|ck| (ck.cert.der().to_vec(), ck.key_pair.serialize_der()))
}

/// A copy of `names`.
fn copy_names(names: &Vec<String>) -> (r: Vec<String>)
    ensures
        r@ == names@,
{
    let mut out: Vec<String> = Vec::new();
    let mut i: usize = 0;
    while i < names.len()
        invariant
            i <= names@.len(),
            out@ == names@.subrange(0, i as int),
        decreases names@.len() - i,
    {
        out.push(names[i].clone());
        i += 1;
        assert(out@ =~= names@.subrange(0, i as int));
    }
    assert(names@.subrange(0, names@.len() as int) =~= names@);
    out
}

/// A self-signed certificate valid for `hostnames`, with its private key.
/// Any failure of the certificate builder is `CertGenFailure`; on success
/// neither the certificate nor the key is empty.
pub fn generate_self_signed(hostnames: &Vec<String>) -> (r: Result<TlsIdentity, TlsError>)
    ensures
        r is Err ==> r == Err::<TlsIdentity, TlsError>(TlsError::CertGenFailure),
        r matches Ok(id) ==> id.certificate@.len() > 0 && id.private_key@.len() > 0,
{
    match self_signed(copy_names(hostnames)) {
        Some((certificate, private_key)) => Ok(TlsIdentity { certificate, private_key }),
        None => Err(TlsError::CertGenFailure),
    }
}

} // verus!
