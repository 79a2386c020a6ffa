use mkrpki::digest::{DigestAlgorithm, FileDigest, DIGEST_INPUT_LIMIT};
use mkrpki::error::{Error, ErrorKind};
use mkrpki::manifest::{list_files, FileHashEntry, FileLister, FileSource, Mft};
use mkrpki::validity::{UpdateTimes, Validity};
use rpki::x509::Serial;

const ABC: &str = "ba7816bf8f01cfea414140de5dae2223b00361a396177a9cb410ff61f20015ad";
const EMPTY: &str = "e3b0c44298fc1c149afbf4c8996fb92427ae41e4649b934ca495991b7852b855";
const HELLO_WORLD: &str = "b94d27b9934d3e08a52e52d7da7dabfac484efe37a5380ee9088f7ace2efcde9";

fn hex(bytes: &[u8]) -> String {
    bytes.iter().map(|byte| format!("{:02x}", byte)).collect()
}

fn file(name: &str, chunks: &[&[u8]]) -> FileSource {
    FileSource {
        name: Some(name.to_string()),
        chunks: chunks.iter().map(|chunk| chunk.to_vec()).collect(),
    }
}

fn mft() -> Mft {
    Mft {
        serial: Serial::from(12u64),
        not_before: Some(1_000),
        not_after: None,
        valid_days: Some(2),
        crl_uri: "rsync://example.net/repo/ca.crl".to_string(),
        ca_issuer: "rsync://example.net/repo/ca.cer".to_string(),
        number: Serial::from(3u64),
        signed_object: "rsync://example.net/repo/ca.mft".to_string(),
        this_update: Some(2_000),
        next_update: None,
        next_days: Some(1),
    }
}

#[test]
fn digest_is_sha256_of_all_that_was_fed() {
    let mut digest = FileDigest::new();
    assert_eq!(digest.fed(), 0);
    digest.update(b"hello");
    digest.update(b"");
    digest.update(b" world");
    assert_eq!(digest.fed(), 11);
    assert_eq!(hex(&digest.finish()), HELLO_WORLD);
    assert_eq!(hex(&FileDigest::new().finish()), EMPTY);
    assert_eq!(DIGEST_INPUT_LIMIT, 1 << 61);
}

#[test]
fn listing_keeps_the_order_of_the_files() {
    let files = vec![file("b.txt", &[b"abc"]), file("a.txt", &[b"hello world"])];
    let entries = list_files(&files).unwrap();
    assert_eq!(entries.len(), 2);
    assert_eq!(entries[0].file(), "b.txt");
    assert_eq!(hex(&entries[0].hash()), ABC);
    assert_eq!(entries[1].file(), "a.txt");
    assert_eq!(hex(&entries[1].hash()), HELLO_WORLD);
}

#[test]
fn listing_is_deterministic() {
    let once = list_files(&vec![file("a.txt", &[b"abc"])]).unwrap();
    let twice = list_files(&vec![file("a.txt", &[b"abc"])]).unwrap();
    assert_eq!(once, twice);
    let cut = list_files(&vec![file("a.txt", &[b"a", b"", b"bc"])]).unwrap();
    assert_eq!(once, cut);
    let other = list_files(&vec![file("a.txt", &[b"abd"])]).unwrap();
    assert_ne!(once, other);
}

#[test]
fn empty_files_and_empty_lists() {
    assert_eq!(list_files(&Vec::new()).unwrap(), Vec::<FileHashEntry>::new());
    let entries = list_files(&vec![file("empty", &[]), file("empty", &[b""])]).unwrap();
    assert_eq!(entries.len(), 2);
    assert_eq!(hex(&entries[0].hash()), EMPTY);
    assert_eq!(entries[0], entries[1]);
}

#[test]
fn files_without_an_ascii_name_are_refused() {
    let files = vec![file("a.txt", &[b"abc"]), file("b\u{e4}.txt", &[b"abc"]), file("c", &[])];
    let err = list_files(&files).unwrap_err();
    assert!(matches!(err, Error::IllegalFileName(1)));
    assert_eq!(err.kind(), ErrorKind::InvalidFileName);
    let files = vec![FileSource { name: None, chunks: Vec::new() }, file("\u{e4}", &[])];
    assert!(matches!(list_files(&files).unwrap_err(), Error::IllegalFileName(0)));
}

#[test]
fn lister_takes_files_piece_by_piece() {
    let mut lister = FileLister::new();
    assert_eq!(lister.len(), 0);
    assert!(lister.start_file(Some("b.txt")).is_ok());
    assert_eq!(lister.fed(), 0);
    lister.update(b"a");
    lister.update(b"bc");
    assert_eq!(lister.fed(), 3);
    lister.finish_file();
    assert_eq!(lister.len(), 1);
    assert_eq!(lister.fed(), 0);
    assert!(matches!(lister.start_file(None), Err(Error::IllegalFileName(1))));
    assert!(matches!(lister.start_file(Some("\u{fc}ber")), Err(Error::IllegalFileName(1))));
    assert_eq!(lister.len(), 1);
    assert!(lister.start_file(Some("a.txt")).is_ok());
    lister.finish_file();
    let entries = lister.into_entries();
    assert_eq!(entries.len(), 2);
    assert_eq!(entries[0].file(), "b.txt");
    assert_eq!(hex(&entries[0].hash()), ABC);
    assert_eq!(entries[1].file(), "a.txt");
    assert_eq!(hex(&entries[1].hash()), EMPTY);
}

#[test]
fn manifest_lists_the_files_given() {
    let files = vec![file("b.txt", &[b"abc"]), file("a.txt", &[b"hello", b" world"])];
    let manifest = mft().run(5, &files).unwrap();
    assert_eq!(manifest.content.manifest_number, Serial::from(3u64));
    assert_eq!(
        manifest.content.times,
        UpdateTimes { this_update: 2_000, next_update: 2_000 + 86_400 }
    );
    assert_eq!(manifest.content.file_hash_alg, DigestAlgorithm::Sha256);
    assert_eq!(manifest.content.files.len(), 2);
    assert_eq!(manifest.content.files[0].file(), "b.txt");
    assert_eq!(hex(&manifest.content.files[0].hash()), ABC);
    assert_eq!(manifest.content.files[1].file(), "a.txt");
    assert_eq!(hex(&manifest.content.files[1].hash()), HELLO_WORLD);
    assert_eq!(manifest.envelope.serial_number, Serial::from(12u64));
    assert_eq!(
        manifest.envelope.validity,
        Validity { not_before: 1_000, not_after: 1_000 + 172_800 }
    );
    assert_eq!(manifest.envelope.crl_uri, "rsync://example.net/repo/ca.crl");
    assert_eq!(manifest.envelope.ca_issuer, "rsync://example.net/repo/ca.cer");
    assert_eq!(manifest.envelope.signed_object, "rsync://example.net/repo/ca.mft");
}

#[test]
fn manifest_times_default_to_now() {
    let mut options = mft();
    options.not_before = None;
    options.this_update = None;
    options.next_update = Some(9_000);
    options.not_after = Some(8_000);
    let (validity, times) = options.times(77).unwrap();
    assert_eq!(validity, Validity { not_before: 77, not_after: 8_000 });
    assert_eq!(times, UpdateTimes { this_update: 77, next_update: 9_000 });
}

#[test]
fn manifest_needs_the_end_of_its_validity_and_its_next_update() {
    let mut options = mft();
    options.valid_days = None;
    options.next_days = None;
    assert!(matches!(options.times(5), Err(Error::MissingValidityEnd)));
    let bad = vec![FileSource { name: None, chunks: Vec::new() }];
    assert!(matches!(options.run(5, &bad), Err(Error::MissingValidityEnd)));

    let mut options = mft();
    options.next_days = None;
    assert!(matches!(options.times(5), Err(Error::MissingNextUpdate)));
    let bad = vec![FileSource { name: None, chunks: Vec::new() }];
    assert!(matches!(options.run(5, &bad), Err(Error::MissingNextUpdate)));

    let bad = vec![FileSource { name: None, chunks: Vec::new() }];
    assert!(matches!(mft().run(5, &bad), Err(Error::IllegalFileName(0))));

    let mut options = mft();
    options.valid_days = None;
    assert!(matches!(options.issue(5, Vec::new()), Err(Error::MissingValidityEnd)));
}

#[test]
fn entries_have_names_in_ascii() {
    let entry = FileHashEntry::new("a.cer", vec![7, 8]).unwrap();
    assert_eq!(entry.file(), "a.cer");
    assert_eq!(entry.hash(), &[7, 8]);
    assert_eq!(FileHashEntry::new("", Vec::new()).unwrap().file(), "");
    assert_eq!(FileHashEntry::new("\u{e4}.cer", vec![7, 8]), None);
    assert_eq!(FileHashEntry::new("a\u{80}", Vec::new()), None);
    assert!(FileHashEntry::new("a\u{7f}", Vec::new()).is_some());
}

#[test]
fn manifest_takes_entries_as_they_are() {
    let entries = vec![
        FileHashEntry::new("z", vec![1, 2, 3]).unwrap(),
        FileHashEntry::new("a", vec![]).unwrap(),
    ];
    let manifest = mft().issue(5, entries).unwrap();
    assert_eq!(
        manifest.content.files,
        vec![
            FileHashEntry::new("z", vec![1, 2, 3]).unwrap(),
            FileHashEntry::new("a", vec![]).unwrap(),
        ]
    );
}
