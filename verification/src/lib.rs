//! Construction of RPKI objects: trust-anchor and CA certificates, CRLs,
//! ROAs and manifests.
//!
//! The crate holds the rules by which the content of each object is put
//! together from what an operator asks for: how long it is valid, which
//! resources it has, which files a manifest lists and with which digests,
//! and which prefixes a ROA names. What comes out is the content that is to
//! be signed; signing and encoding it are left to the caller.
//!
//! Times are seconds since the Unix epoch, URIs are text, keys are
//! DER-encoded `SubjectPublicKeyInfo` bytes. Serial numbers, resource blocks
//! and CRL entries are those of the `rpki` crate and pass through untouched.

pub mod address;
pub mod cert;
pub mod crl;
pub mod digest;
pub mod error;
pub mod keys;
pub mod manifest;
pub mod resources;
pub mod roa;
pub mod sigobj;
pub mod tal;
pub mod text;
pub mod validity;
