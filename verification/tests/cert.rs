use std::str::FromStr;

use mkrpki::cert::{Cert, KeyUsage, Ta};
use mkrpki::error::{Error, ErrorKind};
use mkrpki::resources::{Overclaim, ResourceSet};
use mkrpki::tal::write_tal;
use mkrpki::validity::Validity;
use rpki::resources::{AsBlock, IpBlock};
use rpki::x509::Serial;

// A key of four bytes, without the parameters of the algorithm and with them.
const KEY_WITHOUT_NULL: [u8; 22] = [
    0x30, 0x14, 0x30, 0x0b, 0x06, 0x09, 0x2a, 0x86, 0x48, 0x86, 0xf7, 0x0d, 0x01, 0x01, 0x01,
    0x03, 0x05, 0x00, 0x01, 0x02, 0x03, 0x04,
];
const KEY: [u8; 24] = [
    0x30, 0x16, 0x30, 0x0d, 0x06, 0x09, 0x2a, 0x86, 0x48, 0x86, 0xf7, 0x0d, 0x01, 0x01, 0x01,
    0x05, 0x00, 0x03, 0x05, 0x00, 0x01, 0x02, 0x03, 0x04,
];
const KEY_TEXT: &str = "MBYwDQYJKoZIhvcNAQEBBQADBQABAgME";

fn ip(text: &str) -> IpBlock {
    IpBlock::from_str(text).unwrap()
}

fn asn(text: &str) -> AsBlock {
    AsBlock::from_str(text).unwrap()
}

fn ta() -> Ta {
    Ta {
        serial: Serial::from(1u64),
        not_before: Some(1_600_000_000),
        not_after: None,
        valid_days: Some(30),
        ca_repository: "rsync://example.net/repo/".to_string(),
        rpki_manifest: "rsync://example.net/repo/ta.mft".to_string(),
        rpki_notify: None,
        v4_resources: vec![ip("10.0.0.0/8")],
        v6_resources: Vec::new(),
        as_resources: vec![asn("64512")],
        tal_rsync_uri: "rsync://example.net/ta/ta.cer".to_string(),
        tal_https_uri: Some("https://example.net/ta/ta.cer".to_string()),
        output_tal: true,
    }
}

fn cert() -> Cert {
    Cert {
        serial: Serial::from(2u64),
        not_before: Some(1_600_000_000),
        not_after: Some(1_700_000_000),
        valid_days: None,
        trim_resources: false,
        crl_uri: "rsync://example.net/repo/ta.crl".to_string(),
        ca_issuer: "rsync://example.net/ta/ta.cer".to_string(),
        ca_repository: "rsync://example.net/repo/ca/".to_string(),
        rpki_manifest: "rsync://example.net/repo/ca/ca.mft".to_string(),
        rpki_notify: Some("https://example.net/rrdp/notify.xml".to_string()),
        v4_resources: vec![ip("10.0.0.0/8")],
        inherit_v4: false,
        v6_resources: vec![ip("2001:db8::/32"), ip("2001:db8:1::/48")],
        inherit_v6: false,
        as_resources: Vec::new(),
        inherit_as: false,
    }
}

#[test]
fn trust_anchor_with_resources_and_thirty_days() {
    let made = ta().run(0, KEY.to_vec()).unwrap();
    let cert = made.cert;
    assert_eq!(cert.serial_number, Serial::from(1u64));
    assert_eq!(cert.issuer_key, KEY.to_vec());
    assert_eq!(cert.subject_key, KEY.to_vec());
    assert_eq!(
        cert.validity,
        Validity { not_before: 1_600_000_000, not_after: 1_602_592_000 }
    );
    assert_eq!(cert.key_usage, KeyUsage::Ca);
    assert_eq!(cert.overclaim, Overclaim::Refuse);
    assert_eq!(cert.basic_ca, Some(true));
    assert_eq!(cert.crl_uri, None);
    assert_eq!(cert.ca_issuer, None);
    assert_eq!(cert.ca_repository.as_deref(), Some("rsync://example.net/repo/"));
    assert_eq!(cert.rpki_manifest.as_deref(), Some("rsync://example.net/repo/ta.mft"));
    assert_eq!(cert.rpki_notify, None);
    assert_eq!(cert.v4_resources, ResourceSet::Explicit(vec![ip("10.0.0.0/8")]));
    assert_eq!(cert.as_resources, ResourceSet::Explicit(vec![asn("64512")]));
    assert_eq!(cert.v6_resources, ResourceSet::Absent);

    let tal = made.tal.unwrap();
    let lines: Vec<&str> = tal.split('\n').collect();
    assert_eq!(lines[0], "rsync://example.net/ta/ta.cer");
    assert_eq!(lines[3], KEY_TEXT);
    assert_eq!(
        tal,
        "rsync://example.net/ta/ta.cer\nhttps://example.net/ta/ta.cer\n\n\
         MBYwDQYJKoZIhvcNAQEBBQADBQABAgME\n"
    );
}

#[test]
fn trust_anchor_locator_without_https_uri() {
    let mut options = ta();
    options.tal_https_uri = None;
    options.rpki_notify = Some("https://example.net/rrdp/notify.xml".to_string());
    let made = options.run(0, KEY.to_vec()).unwrap();
    assert_eq!(
        made.tal.as_deref(),
        Some("rsync://example.net/ta/ta.cer\n\nMBYwDQYJKoZIhvcNAQEBBQADBQABAgME\n")
    );
    assert_eq!(made.cert.rpki_notify.as_deref(), Some("https://example.net/rrdp/notify.xml"));
}

#[test]
fn trust_anchor_without_locator() {
    let mut options = ta();
    options.output_tal = false;
    let made = options.run(0, KEY.to_vec()).unwrap();
    assert_eq!(made.tal, None);
    assert_eq!(made.cert.subject_key, KEY.to_vec());
}

#[test]
fn trust_anchor_with_given_key_text() {
    let made = ta().issue(0, vec![1, 2, 3], "a2V5").unwrap();
    assert_eq!(made.cert.issuer_key, vec![1, 2, 3]);
    assert_eq!(made.cert.subject_key, vec![1, 2, 3]);
    assert_eq!(
        made.tal.as_deref(),
        Some("rsync://example.net/ta/ta.cer\nhttps://example.net/ta/ta.cer\n\na2V5\n")
    );
}

#[test]
fn locator_text() {
    assert_eq!(write_tal("rsync://a/b", None, "QUJD"), "rsync://a/b\n\nQUJD\n");
    assert_eq!(
        write_tal("rsync://a/b", Some("https://a/b"), "QUJD"),
        "rsync://a/b\nhttps://a/b\n\nQUJD\n"
    );
    assert_eq!(write_tal("", Some(""), ""), "\n\n\n\n");
}

#[test]
fn trust_anchor_needs_the_end_of_its_validity() {
    let mut options = ta();
    options.valid_days = None;
    let err = options.run(0, KEY.to_vec()).unwrap_err();
    assert!(matches!(err, Error::MissingValidityEnd));
    assert_eq!(err.kind(), ErrorKind::Configuration);
}

#[test]
fn ca_certificate_with_all_its_parts() {
    let cert = cert().run(0, KEY.to_vec(), &KEY_WITHOUT_NULL).unwrap();
    assert_eq!(cert.serial_number, Serial::from(2u64));
    assert_eq!(cert.issuer_key, KEY.to_vec());
    assert_eq!(cert.subject_key, KEY.to_vec());
    assert_eq!(
        cert.validity,
        Validity { not_before: 1_600_000_000, not_after: 1_700_000_000 }
    );
    assert_eq!(cert.key_usage, KeyUsage::Ca);
    assert_eq!(cert.overclaim, Overclaim::Refuse);
    assert_eq!(cert.basic_ca, Some(true));
    assert_eq!(cert.crl_uri.as_deref(), Some("rsync://example.net/repo/ta.crl"));
    assert_eq!(cert.ca_issuer.as_deref(), Some("rsync://example.net/ta/ta.cer"));
    assert_eq!(cert.ca_repository.as_deref(), Some("rsync://example.net/repo/ca/"));
    assert_eq!(cert.rpki_manifest.as_deref(), Some("rsync://example.net/repo/ca/ca.mft"));
    assert_eq!(cert.rpki_notify.as_deref(), Some("https://example.net/rrdp/notify.xml"));
    assert_eq!(cert.v4_resources, ResourceSet::Explicit(vec![ip("10.0.0.0/8")]));
    assert_eq!(
        cert.v6_resources,
        ResourceSet::Explicit(vec![ip("2001:db8::/32"), ip("2001:db8:1::/48")])
    );
    assert_eq!(cert.as_resources, ResourceSet::Absent);
}

#[test]
fn subject_key_is_held_as_it_is_encoded_again() {
    let cert = cert().run(0, vec![9], &KEY).unwrap();
    assert_eq!(cert.subject_key, KEY.to_vec());
    assert_eq!(cert.issuer_key, vec![9]);
}

#[test]
fn bytes_after_the_subject_key_are_left_out() {
    let mut long = KEY.to_vec();
    long.push(0);
    let cert = cert().run(0, vec![9], &long).unwrap();
    assert_eq!(cert.subject_key, KEY.to_vec());
}

#[test]
fn inherit_overrides_the_resources_listed() {
    let mut options = cert();
    options.inherit_v4 = true;
    let cert = options.run(0, KEY.to_vec(), &KEY).unwrap();
    assert_eq!(cert.v4_resources, ResourceSet::Inherit);
    assert_eq!(
        cert.v6_resources,
        ResourceSet::Explicit(vec![ip("2001:db8::/32"), ip("2001:db8:1::/48")])
    );
    assert_eq!(cert.as_resources, ResourceSet::Absent);
}

#[test]
fn each_family_is_decided_alone() {
    let mut options = cert();
    options.inherit_v6 = true;
    options.inherit_as = true;
    options.trim_resources = true;
    let cert = options.run(0, KEY.to_vec(), &KEY).unwrap();
    assert_eq!(cert.v4_resources, ResourceSet::Explicit(vec![ip("10.0.0.0/8")]));
    assert_eq!(cert.v6_resources, ResourceSet::Inherit);
    assert_eq!(cert.as_resources, ResourceSet::Inherit);
    assert_eq!(cert.overclaim, Overclaim::Trim);
}

#[test]
fn subject_key_that_does_not_decode_is_refused() {
    let err = cert().run(0, KEY.to_vec(), &[1, 2, 3]).unwrap_err();
    assert!(matches!(err, Error::SubjectKeyDecode));
    assert_eq!(err.kind(), ErrorKind::KeyDecode);
    assert!(matches!(cert().run(0, KEY.to_vec(), &[]), Err(Error::SubjectKeyDecode)));
    let cut = &KEY[..23];
    assert!(matches!(cert().run(0, KEY.to_vec(), cut), Err(Error::SubjectKeyDecode)));
    assert!(matches!(cert().issue(0, KEY.to_vec(), None), Err(Error::SubjectKeyDecode)));
}

#[test]
fn ca_certificate_needs_the_end_of_its_validity() {
    let mut options = cert();
    options.not_after = None;
    let err = options.run(0, KEY.to_vec(), &KEY).unwrap_err();
    assert!(matches!(err, Error::MissingValidityEnd));
    let mut options = cert();
    options.not_after = None;
    assert!(matches!(options.run(0, KEY.to_vec(), &[0]), Err(Error::SubjectKeyDecode)));
}

#[test]
fn ca_certificate_for_a_key_already_decoded() {
    let cert = cert().issue(0, vec![1], Some(vec![2, 3])).unwrap();
    assert_eq!(cert.issuer_key, vec![1]);
    assert_eq!(cert.subject_key, vec![2, 3]);
}
