//! Choice of the certificate that a TLS endpoint presents: a raw public key
//! when the peer can take one, an X.509 certificate otherwise.
use vstd::prelude::*;
use std::sync::Arc;
use rustls::sign::CertifiedKey;

verus! {

#[verifier::external_type_specification]
#[verifier::external_body]
pub struct ExCertifiedKey(CertifiedKey);

/// The TLS certificate type code of a raw public key.
pub const RAW_PUBLIC_KEY_CERT_TYPE: u8 = 0x02;

/// `Arc::clone`: another handle to the same value.
#[verifier::external_body]
fn arc_clone<T>(a: &Arc<T>) -> (r: Arc<T>)
    ensures
        r == *a,
{
    Arc::clone(a)
}

/// Whether the certificate types a client offers include raw public keys.
pub open spec fn offers_raw_public_key(client_cert_types: Option<Seq<u8>>) -> bool {
    match client_cert_types {
        Some(types) => types.contains(RAW_PUBLIC_KEY_CERT_TYPE),
        None => false,
    }
}

/// The certificates of a node: an X.509 one and a raw public key, both for the
/// same signing key.
#[derive(Debug)]
pub struct ResolvePublicKey {
    pub x509_key: Arc<CertifiedKey>,
    pub raw_key: Arc<CertifiedKey>,
    pub force_client_rpk: bool,
}

impl ResolvePublicKey {
    /// Whether the offered certificate types include raw public keys.
    pub fn client_offers_raw_public_key(client_cert_types: Option<&[u8]>) -> (r: bool)
        ensures
            r == offers_raw_public_key(
                match client_cert_types {
                    Some(t) => Some(t@),
                    None => None,
                },
            ),
    {
        match client_cert_types {
            Some(types) => {
                let mut i: usize = 0;
                while i < types.len()
                    invariant
                        client_cert_types == Some(types),
                        i <= types@.len(),
                        forall|j: int| 0 <= j < i ==> types@[j] != RAW_PUBLIC_KEY_CERT_TYPE,
                    decreases types@.len() - i,
                {
                    if types[i] == RAW_PUBLIC_KEY_CERT_TYPE {
                        assert(types@[i as int] == RAW_PUBLIC_KEY_CERT_TYPE);
                        return true;
                    }
                    i = i + 1;
                }
                false
            },
            None => false,
        }
    }

    /// The certificate a server presents: the raw public key when the client
    /// offers that type, the X.509 certificate otherwise.
    pub fn resolve_server(&self, client_cert_types: Option<&[u8]>) -> (r: Option<Arc<CertifiedKey>>)
        ensures
            r == Some(
                if offers_raw_public_key(
                    match client_cert_types {
                        Some(t) => Some(t@),
                        None => None,
                    },
                ) {
                    self.raw_key
                } else {
                    self.x509_key
                },
            ),
    {
        if Self::client_offers_raw_public_key(client_cert_types) {
            Some(arc_clone(&self.raw_key))
        } else {
            Some(arc_clone(&self.x509_key))
        }
    }

    /// The certificate a client presents: the raw public key when forced to,
    /// the X.509 certificate otherwise.
    pub fn resolve_client(&self) -> (r: Option<Arc<CertifiedKey>>)
        ensures
            r == Some(
                if self.force_client_rpk {
                    self.raw_key
                } else {
                    self.x509_key
                },
            ),
    {
        if self.force_client_rpk {
            Some(arc_clone(&self.raw_key))
        } else {
            Some(arc_clone(&self.x509_key))
        }
    }

    /// Whether only raw public keys are presented: never.
    pub fn only_raw_public_keys(&self) -> (r: bool)
        ensures
            !r,
    {
        false
    }

    /// Whether a client certificate is available: always.
    pub fn has_certs(&self) -> (r: bool)
        ensures
            r,
    {
        true
    }
}

} // verus!
