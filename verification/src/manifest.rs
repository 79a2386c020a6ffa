//! Manifests: the list of the files of a publication point with the digest
//! of each.

use vstd::prelude::*;
use vstd::string::*;
use vstd::utf8::is_ascii_chars;
use rpki::x509::Serial;
use crate::digest::{sha256, DigestAlgorithm, FileDigest, DIGEST_INPUT_LIMIT};
use crate::error::Error;
use crate::sigobj::SignedObjectEnvelope;
use crate::validity::{period_end_fits, period_start, UpdateTimes, Validity};

verus! {

/// The name of a file and the digest of its content. The name is made of
/// ASCII characters only.
#[derive(Debug, PartialEq, Eq)]
pub struct FileHashEntry {
    file: String,
    hash: Vec<u8>,
}

impl View for FileHashEntry {
    type V = (Seq<char>, Seq<u8>);

    closed spec fn view(&self) -> (Seq<char>, Seq<u8>) {
        (self.file@, self.hash@)
    }
}

impl FileHashEntry {
    #[verifier::type_invariant]
    spec fn named_in_ascii(&self) -> bool {
        is_ascii_chars(self.file@)
    }

    /// Creates the entry of a file, if its name is made of ASCII characters
    /// only.
    pub fn new(file: &str, hash: Vec<u8>) -> (entry: Option<FileHashEntry>)
        ensures
            entry is Some <==> is_ascii_chars(file@),
            entry matches Some(entry) ==> entry@ == (file@, hash@),
    {
        if file.is_ascii() {
            Some(FileHashEntry { file: file.to_owned(), hash })
        } else {
            None
        }
    }

    /// The name of the file.
    pub fn file(&self) -> (file: &str)
        ensures
            file@ == self@.0,
            is_ascii_chars(file@),
    {
        proof {
            use_type_invariant(self);
        }
        self.file.as_str()
    }

    /// The digest of the content of the file.
    pub fn hash(&self) -> (hash: &[u8])
        ensures
            hash@ == self@.1,
    {
        self.hash.as_slice()
    }
}

/// The names and digests that a list of entries holds.
pub open spec fn entry_views(entries: Seq<FileHashEntry>) -> Seq<(Seq<char>, Seq<u8>)> {
    entries.map_values(|entry: FileHashEntry| entry@)
}

/// Whether a file with this last segment of its path can be listed: there is
/// such a segment, and it is made of ASCII characters only.
pub open spec fn name_is_legal(name: Option<Seq<char>>) -> bool {
    name matches Some(name) && is_ascii_chars(name)
}

/// The characters of a text that may be missing.
pub open spec fn text_of(text: Option<&str>) -> Option<Seq<char>> {
    match text {
        Some(text) => Some(text@),
        None => None,
    }
}

/// Builds the list of a manifest file by file.
///
/// For each file, first its name is given, then its content piece by piece,
/// then its end. The list holds the files in the order in which they ended,
/// which is the order in which they were begun.
pub struct FileLister {
    entries: Vec<FileHashEntry>,
    name: Option<String>,
    digest: FileDigest,
}

impl FileLister {
    /// Whether the lister is in order. It holds of every lister that this
    /// type hands out.
    pub closed spec fn wf(&self) -> bool {
        &&& self.digest.wf()
        &&& self.name is None ==> self.digest.input() == Seq::<u8>::empty()
        &&& self.name matches Some(name) ==> is_ascii_chars(name@)
    }

    /// The names and digests of the files that have ended.
    pub closed spec fn entries(&self) -> Seq<(Seq<char>, Seq<u8>)> {
        entry_views(self.entries@)
    }

    /// The name of the file that has begun and not ended, if there is one.
    pub closed spec fn open_name(&self) -> Option<Seq<char>> {
        match self.name {
            Some(name) => Some(name@),
            None => None,
        }
    }

    /// The content given so far of the file that has begun and not ended.
    pub closed spec fn open_input(&self) -> Seq<u8> {
        self.digest.input()
    }

    /// Creates a lister without files: none has ended, none has begun, and
    /// no content has been taken.
    pub fn new() -> (lister: FileLister)
        ensures
            lister.wf(),
            lister.entries() == Seq::<(Seq<char>, Seq<u8>)>::empty(),
            lister.open_name() is None,
            lister.open_input() == Seq::<u8>::empty(),
    {
        let lister = FileLister { entries: Vec::new(), name: None, digest: FileDigest::new() };
        lister
    }

    /// The number of files that have ended.
    pub fn len(&self) -> (count: usize)
        ensures
            count == self.entries().len(),
    {
        self.entries.len()
    }

    /// The number of bytes given so far of the file that has begun and not
    /// ended.
    pub fn fed(&self) -> (count: u64)
        requires
            self.wf(),
        ensures
            count == self.open_input().len(),
            count < DIGEST_INPUT_LIMIT,
    {
        self.digest.fed()
    }

    /// Begins a file. `name` is the last segment of its path, if the path has
    /// one that is text.
    ///
    /// The file is refused if it has no such name or if the name has a
    /// character outside ASCII. The error gives the position of the file.
    pub fn start_file(&mut self, name: Option<&str>) -> (res: Result<(), Error>)
        requires
            old(self).wf(),
            old(self).open_name() is None,
        ensures
            final(self).wf(),
            final(self).entries() == old(self).entries(),
            name_is_legal(text_of(name)) ==> {
                &&& res is Ok
                &&& final(self).open_name() == text_of(name)
                &&& final(self).open_input() == Seq::<u8>::empty()
            },
            !name_is_legal(text_of(name)) ==> {
                &&& res == Err::<(), Error>(
                    Error::IllegalFileName(old(self).entries().len() as usize),
                )
                &&& final(self).open_name() is None
            },
    {
        match name {
            Some(name) => {
                if name.is_ascii() {
                    self.name = Some(name.to_owned());
                    Ok(())
                } else {
                    Err(Error::IllegalFileName(self.entries.len()))
                }
            },
            None => Err(Error::IllegalFileName(self.entries.len())),
        }
    }

    /// Takes the next piece of the content of the file that has begun.
    pub fn update(&mut self, data: &[u8])
        requires
            old(self).wf(),
            old(self).open_name() is Some,
            old(self).open_input().len() + data@.len() < DIGEST_INPUT_LIMIT,
        ensures
            final(self).wf(),
            final(self).entries() == old(self).entries(),
            final(self).open_name() == old(self).open_name(),
            final(self).open_input() == old(self).open_input() + data@,
    {
        self.digest.update(data);
    }

    /// Ends the file that has begun: its name and the digest of its content
    /// are put at the end of the list.
    pub fn finish_file(&mut self)
        requires
            old(self).wf(),
            old(self).open_name() is Some,
        ensures
            final(self).wf(),
            final(self).open_name() is None,
            final(self).entries() == old(self).entries().push(
                (old(self).open_name()->0, sha256(old(self).open_input())),
            ),
    {
        let mut digest: FileDigest = FileDigest::new();
        std::mem::swap(&mut self.digest, &mut digest);
        let name: Option<String> = self.name.take();
        match name {
            Some(file) => {
                let hash: Vec<u8> = digest.finish();
                self.entries.push(FileHashEntry { file, hash });
            },
            None => {},
        }
    }

    /// Hands out the list of the files that have ended.
    pub fn into_entries(self) -> (entries: Vec<FileHashEntry>)
        ensures
            entry_views(entries@) == self.entries(),
    {
        self.entries
    }
}

/// The bytes of pieces of content, one piece after the other.
pub open spec fn concat(chunks: Seq<Vec<u8>>) -> Seq<u8>
    decreases chunks.len(),
{
    if chunks.len() == 0 {
        Seq::empty()
    } else {
        concat(chunks.drop_last()) + chunks.last()@
    }
}

/// The first pieces of content are no longer than all of it.
pub proof fn lemma_concat_grows(chunks: Seq<Vec<u8>>, k: int)
    requires
        0 <= k <= chunks.len(),
    ensures
        concat(chunks.subrange(0, k)).len() <= concat(chunks).len(),
    decreases chunks.len() - k,
{
    if k == chunks.len() {
        assert(chunks.subrange(0, k) =~= chunks);
    } else {
        lemma_concat_grows(chunks.drop_last(), k);
        assert(chunks.drop_last().subrange(0, k) =~= chunks.subrange(0, k));
    }
}

/// A file held in memory: the last segment of its path, if the path has one
/// that is text, and its content in pieces.
#[derive(Debug)]
pub struct FileSource {
    /// The name of the file.
    pub name: Option<String>,
    /// The content of the file, cut into pieces at any places.
    pub chunks: Vec<Vec<u8>>,
}

impl FileSource {
    /// The characters of the name of the file, if it has a name.
    pub open spec fn name_text(self) -> Option<Seq<char>> {
        match self.name {
            Some(name) => Some(name@),
            None => None,
        }
    }

    /// Whether the file can be listed.
    pub open spec fn is_legal(self) -> bool {
        name_is_legal(self.name_text())
    }

    /// The content of the file.
    pub open spec fn content(self) -> Seq<u8> {
        concat(self.chunks@)
    }

    /// The entry of the file in a manifest: its name and the digest of its
    /// content, however the content is cut into pieces.
    pub open spec fn entry(self) -> (Seq<char>, Seq<u8>) {
        (self.name_text()->0, sha256(self.content()))
    }
}

/// The entries of files in a manifest, in the order of the files.
pub open spec fn source_entries(files: Seq<FileSource>) -> Seq<(Seq<char>, Seq<u8>)> {
    files.map_values(|file: FileSource| file.entry())
}

/// Listing is deterministic: files of the same names and the same content,
/// wherever the content is cut into pieces, have the same entries.
pub proof fn lemma_listing_is_deterministic(a: Seq<FileSource>, b: Seq<FileSource>)
    requires
        a.len() == b.len(),
        forall|i: int|
            0 <= i < a.len() ==> a[i].name_text() == b[i].name_text() && a[i].content()
                == b[i].content(),
    ensures
        source_entries(a) == source_entries(b),
{
}

/// The digest of a file depends on its content alone: files of the same
/// content have the same digest, whatever their names are and wherever the
/// content is cut into pieces.
pub proof fn lemma_digest_depends_on_content(a: FileSource, b: FileSource)
    requires
        a.content() == b.content(),
    ensures
        a.entry().1 == b.entry().1,
{
}

/// Listing keeps the order of the files: the entry at each position of the
/// list is that of the file at the same position.
pub proof fn lemma_listing_keeps_order(files: Seq<FileSource>, i: int)
    requires
        0 <= i < files.len(),
    ensures
        source_entries(files).len() == files.len(),
        source_entries(files)[i] == files[i].entry(),
{
}

/// Lists files for a manifest: the name of each with the digest of its
/// content, in the order in which the files are given.
///
/// If a file cannot be listed, there is no list, and the error gives the
/// position of the first such file.
pub fn list_files(files: &Vec<FileSource>) -> (res: Result<Vec<FileHashEntry>, Error>)
    requires
        forall|i: int| 0 <= i < files@.len() ==> (#[trigger] files@[i]).content().len()
            < DIGEST_INPUT_LIMIT,
    ensures
        res is Ok <==> forall|i: int| 0 <= i < files@.len() ==> (#[trigger] files@[i]).is_legal(),
        res matches Ok(entries) ==> entry_views(entries@) == source_entries(files@),
        res matches Err(err) ==> {
            &&& err matches Error::IllegalFileName(at)
            &&& at < files@.len()
            &&& !files@[at as int].is_legal()
            &&& forall|i: int| 0 <= i < at ==> (#[trigger] files@[i]).is_legal()
        },
{
    let mut lister: FileLister = FileLister::new();
    let mut i: usize = 0;
    while i < files.len()
        invariant
            i <= files@.len(),
            lister.wf(),
            lister.open_name() is None,
            lister.entries() == source_entries(files@.subrange(0, i as int)),
            forall|k: int| 0 <= k < i ==> (#[trigger] files@[k]).is_legal(),
            forall|k: int| 0 <= k < files@.len() ==> (#[trigger] files@[k]).content().len()
                < DIGEST_INPUT_LIMIT,
        decreases files@.len() - i,
    {
        let file: &FileSource = &files[i];
        let name: Option<&str> = match &file.name {
            Some(name) => Some(name.as_str()),
            None => None,
        };
        match lister.start_file(name) {
            Ok(()) => {},
            Err(err) => { return Err(err); },
        }
        let mut j: usize = 0;
        while j < file.chunks.len()
            invariant
                j <= file.chunks@.len(),
                lister.wf(),
                lister.open_name() == file.name_text(),
                file.is_legal(),
                lister.open_input() == concat(file.chunks@.subrange(0, j as int)),
                lister.entries() == source_entries(files@.subrange(0, i as int)),
                file.content().len() < DIGEST_INPUT_LIMIT,
            decreases file.chunks@.len() - j,
        {
            proof {
                lemma_concat_grows(file.chunks@, j + 1);
                assert(file.chunks@.subrange(0, j + 1).drop_last() =~= file.chunks@.subrange(
                    0,
                    j as int,
                ));
            }
            lister.update(file.chunks[j].as_slice());
            j += 1;
        }
        assert(file.chunks@.subrange(0, j as int) =~= file.chunks@);
        lister.finish_file();
        i += 1;
    }
    Ok(lister.into_entries())
}

/// The content of a manifest.
#[derive(Debug, PartialEq)]
pub struct ManifestContent {
    /// The number of the manifest.
    pub manifest_number: Serial,
    /// The time of this manifest and of the next.
    pub times: UpdateTimes,
    /// The algorithm of the digests.
    pub file_hash_alg: DigestAlgorithm,
    /// The files, in the order in which they were given.
    pub files: Vec<FileHashEntry>,
}

/// What a manifest is made of.
#[derive(Debug, PartialEq)]
pub struct ManifestObject {
    /// The content of the manifest.
    pub content: ManifestContent,
    /// The envelope of the manifest.
    pub envelope: SignedObjectEnvelope,
}

/// The options for a manifest.
#[derive(Debug)]
pub struct Mft {
    /// The serial number of the certificate of the manifest.
    pub serial: Serial,
    /// The start of the validity. Without it, the validity starts now.
    pub not_before: Option<i64>,
    /// The end of the validity.
    pub not_after: Option<i64>,
    /// The length of the validity in days.
    pub valid_days: Option<i64>,
    /// The URI of the CRL of the issuer.
    pub crl_uri: String,
    /// The URI of the certificate of the issuer.
    pub ca_issuer: String,
    /// The number of the manifest.
    pub number: Serial,
    /// The URI of the manifest itself.
    pub signed_object: String,
    /// The time of this manifest. Without it, that is now.
    pub this_update: Option<i64>,
    /// The time of the next manifest.
    pub next_update: Option<i64>,
    /// The number of days until the next manifest.
    pub next_days: Option<i64>,
}

impl Mft {
    /// Whether the times that the options name can be held.
    pub open spec fn times_fit(self, now: i64) -> bool {
        &&& period_end_fits(period_start(now, self.not_before), self.not_after, self.valid_days)
        &&& period_end_fits(period_start(now, self.this_update), self.next_update, self.next_days)
    }

    /// What the options lack, if they lack something: the end of the
    /// validity, or else the time of the next manifest.
    pub open spec fn failure(self) -> Option<Error> {
        if self.not_after is None && self.valid_days is None {
            Some(Error::MissingValidityEnd)
        } else if self.next_update is None && self.next_days is None {
            Some(Error::MissingNextUpdate)
        } else {
            None
        }
    }

    /// Options that name neither the end of the validity nor its length give
    /// no manifest, and the error is about the validity whatever the options
    /// say of the next manifest.
    pub proof fn lemma_needs_validity_end(self)
        requires
            self.not_after is None,
            self.valid_days is None,
        ensures
            self.failure() == Some(Error::MissingValidityEnd),
    {
    }

    /// Whether `manifest` is the manifest that these options ask for at the
    /// time `now`, but for its files.
    pub open spec fn asks_for(self, now: i64, manifest: ManifestObject) -> bool {
        &&& manifest.content.manifest_number == self.number
        &&& UpdateTimes::resolved(now, self.this_update, self.next_update, self.next_days) == Some(
            (
                manifest.content.times.this_update as int,
                manifest.content.times.next_update as int,
            ),
        )
        &&& manifest.content.file_hash_alg == DigestAlgorithm::Sha256
        &&& manifest.envelope.serial_number == self.serial
        &&& Validity::resolved(now, self.not_before, self.not_after, self.valid_days) == Some(
            (
                manifest.envelope.validity.not_before as int,
                manifest.envelope.validity.not_after as int,
            ),
        )
        &&& manifest.envelope.crl_uri == self.crl_uri
        &&& manifest.envelope.ca_issuer == self.ca_issuer
        &&& manifest.envelope.signed_object == self.signed_object
    }

    /// Determines the validity of the manifest's certificate and the times
    /// of this manifest and the next.
    pub fn times(&self, now: i64) -> (res: Result<(Validity, UpdateTimes), Error>)
        requires
            self.times_fit(now),
        ensures
            match self.failure() {
                Some(err) => res == Err::<(Validity, UpdateTimes), Error>(err),
                None => {
                    &&& res matches Ok((validity, times))
                    &&& Validity::resolved(now, self.not_before, self.not_after, self.valid_days)
                        == Some((validity.not_before as int, validity.not_after as int))
                    &&& UpdateTimes::resolved(
                        now,
                        self.this_update,
                        self.next_update,
                        self.next_days,
                    ) == Some((times.this_update as int, times.next_update as int))
                },
            },
    {
        let validity: Validity = match Validity::resolve(
            now,
            self.not_before,
            self.not_after,
            self.valid_days,
        ) {
            Ok(validity) => validity,
            Err(err) => { return Err(err); },
        };
        let times: UpdateTimes = match UpdateTimes::resolve(
            now,
            self.this_update,
            self.next_update,
            self.next_days,
        ) {
            Ok(times) => times,
            Err(err) => { return Err(err); },
        };
        Ok((validity, times))
    }

    /// Puts together a manifest that lists `files`.
    ///
    /// There is no manifest if the options lack the end of the validity or
    /// the time of the next manifest.
    pub fn issue(self, now: i64, files: Vec<FileHashEntry>) -> (res: Result<ManifestObject, Error>)
        requires
            self.times_fit(now),
        ensures
            match self.failure() {
                Some(err) => res == Err::<ManifestObject, Error>(err),
                None => {
                    &&& res matches Ok(manifest)
                    &&& self.asks_for(now, manifest)
                    &&& manifest.content.files == files
                },
            },
    {
        let (validity, times) = match self.times(now) {
            Ok(pair) => pair,
            Err(err) => { return Err(err); },
        };
        let content = ManifestContent {
            manifest_number: self.number,
            times,
            file_hash_alg: DigestAlgorithm::Sha256,
            files,
        };
        let envelope = SignedObjectEnvelope::new(
            self.serial,
            validity,
            self.crl_uri,
            self.ca_issuer,
            self.signed_object,
        );
        Ok(ManifestObject { content, envelope })
    }

    /// Puts together a manifest of the files given: it lists the name of
    /// each with the digest of its content, in the order in which the files
    /// are given.
    ///
    /// There is no manifest if the options lack the end of the validity or
    /// the time of the next manifest, or else if a file cannot be listed.
    pub fn run(self, now: i64, files: &Vec<FileSource>) -> (res: Result<ManifestObject, Error>)
        requires
            self.times_fit(now),
            forall|i: int| 0 <= i < files@.len() ==> (#[trigger] files@[i]).content().len()
                < DIGEST_INPUT_LIMIT,
        ensures
            self.failure() matches Some(err) ==> res == Err::<ManifestObject, Error>(err),
            res is Ok <==> self.failure() is None && forall|i: int|
                0 <= i < files@.len() ==> (#[trigger] files@[i]).is_legal(),
            res matches Ok(manifest) ==> self.asks_for(now, manifest) && entry_views(
                manifest.content.files@,
            ) == source_entries(files@),
            self.failure() is None ==> (res matches Err(err) ==> {
                &&& err matches Error::IllegalFileName(at)
                &&& at < files@.len()
                &&& !files@[at as int].is_legal()
                &&& forall|i: int| 0 <= i < at ==> (#[trigger] files@[i]).is_legal()
            }),
    {
        match self.times(now) {
            Ok(_) => {},
            Err(err) => { return Err(err); },
        }
        let entries: Vec<FileHashEntry> = match list_files(files) {
            Ok(entries) => entries,
            Err(err) => { return Err(err); },
        };
        self.issue(now, entries)
    }
}

} // verus!
