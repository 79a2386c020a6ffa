//! Certificates: what is to be signed of a trust-anchor certificate and of a
//! CA certificate.

use vstd::prelude::*;
use vstd::string::*;
use rpki::resources::{AsBlock, IpBlock};
use rpki::x509::Serial;
use crate::error::Error;
use crate::keys::{key_info, read_public_key};
use crate::resources::{Overclaim, ResourceSet};
use crate::tal::{base64_encode, base64_text, encodable_len, tal_text, write_tal};
use crate::validity::{period_end_fits, period_start, Validity};

verus! {

/// A serial number, `rpki::x509::Serial`. The library passes serial numbers
/// on and never looks into one.
#[verifier::external_type_specification]
#[verifier::external_body]
pub struct ExSerial(rpki::x509::Serial);

/// What the key of a certificate may be used for.
#[derive(Clone, Copy, Debug, PartialEq, Eq, Structural)]
pub enum KeyUsage {
    /// The certificate is that of a CA.
    Ca,
    /// The certificate is that of an end entity.
    Ee,
}

/// The characters of a text that may be missing.
pub open spec fn opt_text(text: Option<String>) -> Option<Seq<char>> {
    match text {
        Some(text) => Some(text@),
        None => None,
    }
}

/// The content of a certificate that is to be signed.
///
/// The issuer is given by its key: the name of the issuer and the authority
/// key identifier of the certificate are those of this key.
#[derive(Debug, PartialEq)]
pub struct TbsCertificate {
    /// The serial number of the certificate.
    pub serial_number: Serial,
    /// The public key of the issuer.
    pub issuer_key: Vec<u8>,
    /// The validity of the certificate.
    pub validity: Validity,
    /// The public key of the subject.
    pub subject_key: Vec<u8>,
    /// The use of the key.
    pub key_usage: KeyUsage,
    /// What is done about resources that the issuer does not have.
    pub overclaim: Overclaim,
    /// Whether the basic constraints say that this is a CA.
    pub basic_ca: Option<bool>,
    /// The URI of the CRL of the issuer.
    pub crl_uri: Option<String>,
    /// The URI of the certificate of the issuer.
    pub ca_issuer: Option<String>,
    /// The URI of the repository of the CA.
    pub ca_repository: Option<String>,
    /// The URI of the manifest of the CA.
    pub rpki_manifest: Option<String>,
    /// The URI of the RRDP notification file of the CA.
    pub rpki_notify: Option<String>,
    /// The IPv4 resources.
    pub v4_resources: ResourceSet<IpBlock>,
    /// The IPv6 resources.
    pub v6_resources: ResourceSet<IpBlock>,
    /// The AS resources.
    pub as_resources: ResourceSet<AsBlock>,
}

/// Copies bytes.
fn copy_bytes(bytes: &Vec<u8>) -> (copy: Vec<u8>)
    ensures
        copy@ == bytes@,
{
    let mut copy: Vec<u8> = Vec::new();
    let mut i: usize = 0;
    while i < bytes.len()
        invariant
            i <= bytes@.len(),
            copy@ == bytes@.subrange(0, i as int),
        decreases bytes@.len() - i,
    {
        copy.push(bytes[i]);
        i += 1;
    }
    copy
}

/// The options for a trust-anchor certificate.
#[derive(Debug)]
pub struct Ta {
    /// The serial number of the certificate.
    pub serial: Serial,
    /// The start of the validity. Without it, the validity starts now.
    pub not_before: Option<i64>,
    /// The end of the validity.
    pub not_after: Option<i64>,
    /// The length of the validity in days.
    pub valid_days: Option<i64>,
    /// The URI of the repository of the CA.
    pub ca_repository: String,
    /// The URI of the manifest of the CA.
    pub rpki_manifest: String,
    /// The URI of the RRDP notification file of the CA.
    pub rpki_notify: Option<String>,
    /// The IPv4 resources.
    pub v4_resources: Vec<IpBlock>,
    /// The IPv6 resources.
    pub v6_resources: Vec<IpBlock>,
    /// The AS resources.
    pub as_resources: Vec<AsBlock>,
    /// The rsync URI for the locator.
    pub tal_rsync_uri: String,
    /// The HTTPS URI for the locator.
    pub tal_https_uri: Option<String>,
    /// Whether a locator is to be written.
    pub output_tal: bool,
}

/// What a trust anchor is made of.
#[derive(Debug)]
pub struct TaObjects {
    /// The content of the certificate.
    pub cert: TbsCertificate,
    /// The text of the locator, if one was asked for.
    pub tal: Option<String>,
}

impl Ta {
    /// Whether `cert` is the certificate that these options ask for, for
    /// the key `key` and at the time `now`.
    ///
    /// A trust anchor issues its certificate to itself: the key of the
    /// issuer is that of the subject. The certificate has no URI of a CRL or
    /// of an issuer's certificate, never inherits resources, and refuses
    /// resources that are claimed in excess.
    pub open spec fn asks_for(self, now: i64, key: Seq<u8>, cert: TbsCertificate) -> bool {
        &&& cert.serial_number == self.serial
        &&& cert.issuer_key@ == key
        &&& cert.subject_key@ == key
        &&& Validity::resolved(now, self.not_before, self.not_after, self.valid_days) == Some(
            (cert.validity.not_before as int, cert.validity.not_after as int),
        )
        &&& cert.key_usage == KeyUsage::Ca
        &&& cert.overclaim == Overclaim::Refuse
        &&& cert.basic_ca == Some(true)
        &&& cert.crl_uri is None
        &&& cert.ca_issuer is None
        &&& cert.ca_repository == Some(self.ca_repository)
        &&& cert.rpki_manifest == Some(self.rpki_manifest)
        &&& cert.rpki_notify == self.rpki_notify
        &&& cert.v4_resources == ResourceSet::spec_from_options(false, self.v4_resources)
        &&& cert.v6_resources == ResourceSet::spec_from_options(false, self.v6_resources)
        &&& cert.as_resources == ResourceSet::spec_from_options(false, self.as_resources)
    }

    /// The text of the locator that these options ask for, if they ask for
    /// one, given the text of the key.
    pub open spec fn locator(self, key_text: Seq<char>) -> Option<Seq<char>> {
        if self.output_tal {
            Some(tal_text(self.tal_rsync_uri@, opt_text(self.tal_https_uri), key_text))
        } else {
            None
        }
    }

    /// The certificate of a trust anchor lists, for each family, the blocks
    /// given for it as they are, and has no extension for a family without
    /// blocks. It never inherits.
    pub proof fn lemma_resources(self, now: i64, key: Seq<u8>, cert: TbsCertificate)
        requires
            self.asks_for(now, key, cert),
        ensures
            self.v4_resources@.len() > 0 ==> cert.v4_resources.blocks() == Some(
                self.v4_resources@,
            ),
            self.v4_resources@.len() == 0 ==> cert.v4_resources is Absent,
            self.v6_resources@.len() > 0 ==> cert.v6_resources.blocks() == Some(
                self.v6_resources@,
            ),
            self.v6_resources@.len() == 0 ==> cert.v6_resources is Absent,
            self.as_resources@.len() > 0 ==> cert.as_resources.blocks() == Some(
                self.as_resources@,
            ),
            self.as_resources@.len() == 0 ==> cert.as_resources is Absent,
    {
    }

    /// A certificate whose end is given in days is valid from its start,
    /// which is the time given for it or else the current time, until that
    /// many days later, and a positive number of days puts its end after
    /// its start.
    pub proof fn lemma_validity_in_days(self, now: i64, key: Seq<u8>, cert: TbsCertificate)
        requires
            self.asks_for(now, key, cert),
            self.not_after is None,
            self.valid_days is Some,
        ensures
            cert.validity.not_before == period_start(now, self.not_before),
            cert.validity.not_after == cert.validity.not_before + self.valid_days->0 * 86400,
            self.valid_days->0 > 0 ==> cert.validity.is_ordered(),
    {
    }

    /// A locator with an HTTPS URI has four lines: the rsync URI, the HTTPS
    /// URI, an empty line and the text of the key, each ended by a line
    /// feed. Without the HTTPS URI the second line is left out.
    pub proof fn lemma_locator_lines(self, key_text: Seq<char>)
        requires
            self.output_tal,
        ensures
            self.tal_https_uri matches Some(uri) ==> self.locator(key_text) == Some(
                self.tal_rsync_uri@ + "\n"@ + uri@ + "\n"@ + "\n"@ + key_text + "\n"@,
            ),
            self.tal_https_uri is None ==> self.locator(key_text) == Some(
                self.tal_rsync_uri@ + "\n"@ + "\n"@ + key_text + "\n"@,
            ),
    {
        match self.tal_https_uri {
            Some(uri) => {
                assert(self.locator(key_text)->0 =~= self.tal_rsync_uri@ + "\n"@ + uri@ + "\n"@
                    + "\n"@ + key_text + "\n"@);
            },
            None => {
                assert(self.locator(key_text)->0 =~= self.tal_rsync_uri@ + "\n"@ + "\n"@
                    + key_text + "\n"@);
            },
        }
    }

    /// Puts together the certificate of a trust anchor with the public key
    /// `key`, and its locator with the text `key_text` for the key.
    ///
    /// There is no certificate if the options name neither the end of the
    /// validity nor its length.
    pub fn issue(self, now: i64, key: Vec<u8>, key_text: &str) -> (res: Result<TaObjects, Error>)
        requires
            period_end_fits(period_start(now, self.not_before), self.not_after, self.valid_days),
        ensures
            res is Err <==> self.not_after is None && self.valid_days is None,
            res matches Err(err) ==> err == Error::MissingValidityEnd,
            res matches Ok(ta) ==> self.asks_for(now, key@, ta.cert) && opt_text(ta.tal)
                == self.locator(key_text@),
    {
        let validity: Validity = match Validity::resolve(
            now,
            self.not_before,
            self.not_after,
            self.valid_days,
        ) {
            Ok(validity) => validity,
            Err(err) => { return Err(err); },
        };
        let tal: Option<String> = if self.output_tal {
            let https_uri: Option<&str> = match &self.tal_https_uri {
                Some(uri) => Some(uri.as_str()),
                None => None,
            };
            Some(write_tal(self.tal_rsync_uri.as_str(), https_uri, key_text))
        } else {
            None
        };
        let issuer_key: Vec<u8> = copy_bytes(&key);
        let cert = TbsCertificate {
            serial_number: self.serial,
            issuer_key,
            validity,
            subject_key: key,
            key_usage: KeyUsage::Ca,
            overclaim: Overclaim::Refuse,
            basic_ca: Some(true),
            crl_uri: None,
            ca_issuer: None,
            ca_repository: Some(self.ca_repository),
            rpki_manifest: Some(self.rpki_manifest),
            rpki_notify: self.rpki_notify,
            v4_resources: ResourceSet::from_options(false, self.v4_resources),
            v6_resources: ResourceSet::from_options(false, self.v6_resources),
            as_resources: ResourceSet::from_options(false, self.as_resources),
        };
        Ok(TaObjects { cert, tal })
    }

    /// Puts together the certificate of a trust anchor with the public key
    /// `key`, and its locator if one is asked for.
    ///
    /// There is no certificate if the options name neither the end of the
    /// validity nor its length.
    pub fn run(self, now: i64, key: Vec<u8>) -> (res: Result<TaObjects, Error>)
        requires
            period_end_fits(period_start(now, self.not_before), self.not_after, self.valid_days),
            self.output_tal ==> key@.len() <= encodable_len(),
        ensures
            res is Err <==> self.not_after is None && self.valid_days is None,
            res matches Err(err) ==> err == Error::MissingValidityEnd,
            res matches Ok(ta) ==> self.asks_for(now, key@, ta.cert) && opt_text(ta.tal)
                == self.locator(base64_text(key@)),
    {
        if self.output_tal {
            let key_text: String = base64_encode(key.as_slice());
            self.issue(now, key, key_text.as_str())
        } else {
            self.issue(now, key, "")
        }
    }
}

/// The options for a CA certificate.
#[derive(Debug)]
pub struct Cert {
    /// The serial number of the certificate.
    pub serial: Serial,
    /// The start of the validity. Without it, the validity starts now.
    pub not_before: Option<i64>,
    /// The end of the validity.
    pub not_after: Option<i64>,
    /// The length of the validity in days.
    pub valid_days: Option<i64>,
    /// Whether resources claimed in excess are trimmed.
    pub trim_resources: bool,
    /// The URI of the CRL of the issuer.
    pub crl_uri: String,
    /// The URI of the certificate of the issuer.
    pub ca_issuer: String,
    /// The URI of the repository of the CA.
    pub ca_repository: String,
    /// The URI of the manifest of the CA.
    pub rpki_manifest: String,
    /// The URI of the RRDP notification file of the CA.
    pub rpki_notify: Option<String>,
    /// The IPv4 resources.
    pub v4_resources: Vec<IpBlock>,
    /// Whether the IPv4 resources are those of the issuer. Overrides the
    /// resources listed.
    pub inherit_v4: bool,
    /// The IPv6 resources.
    pub v6_resources: Vec<IpBlock>,
    /// Whether the IPv6 resources are those of the issuer. Overrides the
    /// resources listed.
    pub inherit_v6: bool,
    /// The AS resources.
    pub as_resources: Vec<AsBlock>,
    /// Whether the AS resources are those of the issuer. Overrides the
    /// resources listed.
    pub inherit_as: bool,
}

impl Cert {
    /// Whether `cert` is the certificate that these options ask for, for
    /// the key `subject_key`, from the issuer with the key `issuer_key` and
    /// at the time `now`.
    pub open spec fn asks_for(
        self,
        now: i64,
        issuer_key: Seq<u8>,
        subject_key: Seq<u8>,
        cert: TbsCertificate,
    ) -> bool {
        &&& cert.serial_number == self.serial
        &&& cert.issuer_key@ == issuer_key
        &&& cert.subject_key@ == subject_key
        &&& Validity::resolved(now, self.not_before, self.not_after, self.valid_days) == Some(
            (cert.validity.not_before as int, cert.validity.not_after as int),
        )
        &&& cert.key_usage == KeyUsage::Ca
        &&& cert.overclaim == Overclaim::spec_from_trim(self.trim_resources)
        &&& cert.basic_ca == Some(true)
        &&& cert.crl_uri == Some(self.crl_uri)
        &&& cert.ca_issuer == Some(self.ca_issuer)
        &&& cert.ca_repository == Some(self.ca_repository)
        &&& cert.rpki_manifest == Some(self.rpki_manifest)
        &&& cert.rpki_notify == self.rpki_notify
        &&& cert.v4_resources == ResourceSet::spec_from_options(
            self.inherit_v4,
            self.v4_resources,
        )
        &&& cert.v6_resources == ResourceSet::spec_from_options(
            self.inherit_v6,
            self.v6_resources,
        )
        &&& cert.as_resources == ResourceSet::spec_from_options(
            self.inherit_as,
            self.as_resources,
        )
    }

    /// The error that ends the making of the certificate, if one does: that
    /// the key of the subject could not be decoded, or else that the options
    /// name neither the end of the validity nor its length.
    pub open spec fn failure(self, subject_key: Option<Seq<u8>>) -> Option<Error> {
        if subject_key is None {
            Some(Error::SubjectKeyDecode)
        } else if self.not_after is None && self.valid_days is None {
            Some(Error::MissingValidityEnd)
        } else {
            None
        }
    }

    /// Each family of resources of a CA certificate follows from the options
    /// for that family alone: to inherit wins over any blocks given; without
    /// it, blocks that are given are listed as they are; without either
    /// there is no extension.
    pub proof fn lemma_resources(
        self,
        now: i64,
        issuer_key: Seq<u8>,
        subject_key: Seq<u8>,
        cert: TbsCertificate,
    )
        requires
            self.asks_for(now, issuer_key, subject_key, cert),
        ensures
            self.inherit_v4 ==> cert.v4_resources is Inherit,
            !self.inherit_v4 && self.v4_resources@.len() > 0 ==> cert.v4_resources.blocks()
                == Some(self.v4_resources@),
            !self.inherit_v4 && self.v4_resources@.len() == 0 ==> cert.v4_resources is Absent,
            self.inherit_v6 ==> cert.v6_resources is Inherit,
            !self.inherit_v6 && self.v6_resources@.len() > 0 ==> cert.v6_resources.blocks()
                == Some(self.v6_resources@),
            !self.inherit_v6 && self.v6_resources@.len() == 0 ==> cert.v6_resources is Absent,
            self.inherit_as ==> cert.as_resources is Inherit,
            !self.inherit_as && self.as_resources@.len() > 0 ==> cert.as_resources.blocks()
                == Some(self.as_resources@),
            !self.inherit_as && self.as_resources@.len() == 0 ==> cert.as_resources is Absent,
    {
    }

    /// Options that name neither the end of the validity nor its length give
    /// no certificate, whatever the key of the subject is.
    pub proof fn lemma_needs_validity_end(self, subject_key: Option<Seq<u8>>)
        requires
            self.not_after is None,
            self.valid_days is None,
        ensures
            self.failure(subject_key) is Some,
            subject_key is Some ==> self.failure(subject_key) == Some(Error::MissingValidityEnd),
    {
    }

    /// Puts together a CA certificate for the subject with the key
    /// `subject_key`, if there is such a key, from the issuer with the key
    /// `issuer_key`.
    pub fn issue(self, now: i64, issuer_key: Vec<u8>, subject_key: Option<Vec<u8>>) -> (res: Result<
        TbsCertificate,
        Error,
    >)
        requires
            period_end_fits(period_start(now, self.not_before), self.not_after, self.valid_days),
        ensures
            match self.failure(
                match subject_key {
                    Some(key) => Some(key@),
                    None => None,
                },
            ) {
                Some(err) => res == Err::<TbsCertificate, Error>(err),
                None => res matches Ok(cert) && self.asks_for(
                    now,
                    issuer_key@,
                    subject_key->0@,
                    cert,
                ),
            },
    {
        let subject_key: Vec<u8> = match subject_key {
            Some(key) => key,
            None => { return Err(Error::SubjectKeyDecode); },
        };
        let validity: Validity = match Validity::resolve(
            now,
            self.not_before,
            self.not_after,
            self.valid_days,
        ) {
            Ok(validity) => validity,
            Err(err) => { return Err(err); },
        };
        Ok(
            TbsCertificate {
                serial_number: self.serial,
                issuer_key,
                validity,
                subject_key,
                key_usage: KeyUsage::Ca,
                overclaim: Overclaim::from_trim(self.trim_resources),
                basic_ca: Some(true),
                crl_uri: Some(self.crl_uri),
                ca_issuer: Some(self.ca_issuer),
                ca_repository: Some(self.ca_repository),
                rpki_manifest: Some(self.rpki_manifest),
                rpki_notify: self.rpki_notify,
                v4_resources: ResourceSet::from_options(self.inherit_v4, self.v4_resources),
                v6_resources: ResourceSet::from_options(self.inherit_v6, self.v6_resources),
                as_resources: ResourceSet::from_options(self.inherit_as, self.as_resources),
            },
        )
    }

    /// Puts together a CA certificate for the subject whose public key the
    /// bytes `subject_key` hold, from the issuer with the key `issuer_key`.
    ///
    /// The key of the subject is read first, and the certificate holds it as
    /// it is encoded again. Bytes that are not framed as a key or do not
    /// decode to one give no certificate.
    pub fn run(self, now: i64, issuer_key: Vec<u8>, subject_key: &[u8]) -> (res: Result<
        TbsCertificate,
        Error,
    >)
        requires
            period_end_fits(period_start(now, self.not_before), self.not_after, self.valid_days),
        ensures
            match self.failure(key_info(subject_key@)) {
                Some(err) => res == Err::<TbsCertificate, Error>(err),
                None => res matches Ok(cert) && self.asks_for(
                    now,
                    issuer_key@,
                    key_info(subject_key@)->0,
                    cert,
                ),
            },
    {
        let subject_key: Option<Vec<u8>> = read_public_key(subject_key);
        self.issue(now, issuer_key, subject_key)
    }
}

} // verus!
