//! Signed objects: what ROAs and manifests have in common.

use vstd::prelude::*;
use vstd::string::*;
use rpki::x509::Serial;
use crate::validity::Validity;

verus! {

/// What every signed object is wrapped in: the content of the certificate
/// that is issued along with the object.
#[derive(Debug, PartialEq)]
pub struct SignedObjectEnvelope {
    /// The serial number of the certificate.
    pub serial_number: Serial,
    /// The validity of the certificate.
    pub validity: Validity,
    /// The URI of the CRL of the issuer.
    pub crl_uri: String,
    /// The URI of the certificate of the issuer.
    pub ca_issuer: String,
    /// The URI of the signed object itself.
    pub signed_object: String,
}

impl SignedObjectEnvelope {
    /// Creates the envelope of a signed object.
    pub fn new(
        serial_number: Serial,
        validity: Validity,
        crl_uri: String,
        ca_issuer: String,
        signed_object: String,
    ) -> (envelope: SignedObjectEnvelope)
        ensures
            envelope == (SignedObjectEnvelope {
                serial_number,
                validity,
                crl_uri,
                ca_issuer,
                signed_object,
            }),
    {
        SignedObjectEnvelope { serial_number, validity, crl_uri, ca_issuer, signed_object }
    }
}

} // verus!
