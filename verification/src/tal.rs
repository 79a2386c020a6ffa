//! Trust anchor locators.
//!
//! A locator is a small text: the URIs at which the certificate of a trust
//! anchor can be found, one to a line, then an empty line, then the public
//! key of the trust anchor in Base64.

use vstd::prelude::*;
use vstd::string::*;

verus! {

/// The Base64 text of `bytes` in the standard alphabet with padding: what
/// `base64::encode` returns.
pub uninterp spec fn base64_text(bytes: Seq<u8>) -> Seq<char>;

/// The greatest number of bytes that are encoded here. The text is a third
/// longer than the bytes, and no text can be longer than half of what can be
/// addressed.
pub open spec fn encodable_len() -> int {
    (usize::MAX / 4) as int
}

/// Encodes bytes with `base64::encode`, which panics if the length of the
/// text cannot be held or a buffer of that length cannot be had.
#[verifier::external_body]
pub(crate) fn base64_encode(bytes: &[u8]) -> (text: String)
    requires
        bytes@.len() <= encodable_len(),
    ensures
        text@ == base64_text(bytes@),
{
    base64::encode(bytes)
}

/// The text of a locator with the given URIs and the given key text.
pub open spec fn tal_text(
    rsync_uri: Seq<char>,
    https_uri: Option<Seq<char>>,
    key_text: Seq<char>,
) -> Seq<char> {
    let second_line = match https_uri {
        Some(uri) => uri + "\n"@,
        None => Seq::<char>::empty(),
    };
    rsync_uri + "\n"@ + second_line + "\n"@ + key_text + "\n"@
}

/// Writes a locator: the rsync URI on the first line, the HTTPS URI on the
/// second if there is one, then an empty line, then the key text on a line
/// of its own.
pub fn write_tal(rsync_uri: &str, https_uri: Option<&str>, key_text: &str) -> (tal: String)
    ensures
        tal@ == tal_text(
            rsync_uri@,
            match https_uri {
                Some(uri) => Some(uri@),
                None => None,
            },
            key_text@,
        ),
{
    let mut tal: String = rsync_uri.to_owned();
    tal.append("\n");
    match https_uri {
        Some(uri) => {
            tal.append(uri);
            tal.append("\n");
        },
        None => {},
    }
    tal.append("\n");
    tal.append(key_text);
    tal.append("\n");
    assert(tal@ =~= tal_text(
        rsync_uri@,
        match https_uri {
            Some(uri) => Some(uri@),
            None => None,
        },
        key_text@,
    ));
    tal
}

} // verus!
