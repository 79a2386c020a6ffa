//! Public keys.
//!
//! A public key is held as the DER encoding of its `SubjectPublicKeyInfo`: a
//! sequence of the algorithm, which is itself a sequence of an object
//! identifier and at most an empty null value, and of the key as a bit
//! string.
//!
//! Whether bytes are such an encoding is for the `rpki` crate to say. Its
//! decoder is only handed bytes whose values lie inside one another as their
//! lengths state, which is checked here first.

use vstd::prelude::*;
use rpki::crypto::PublicKey;

verus! {

/// The identifier octet of a sequence.
pub const SEQUENCE: u8 = 0x30;

/// The identifier octet of an object identifier.
pub const OBJECT_IDENTIFIER: u8 = 0x06;

/// The identifier octet of a null value.
pub const NULL: u8 = 0x05;

/// The identifier octet of a bit string.
pub const BIT_STRING: u8 = 0x03;

/// The number of content octets from which on a value cannot be encoded
/// again.
pub const LENGTH_LIMIT: usize = 0x100_0000;

/// The octets that a key takes when it is encoded again, beside the content
/// of its bit string: the algorithm with its header, and the header of the
/// bit string.
pub const KEY_OVERHEAD: usize = 20;

/// The length that the length octets at `at` state and the number of these
/// octets, if there are well-formed length octets at `at` that end before
/// `end`.
///
/// A length below 128 is one octet. Other lengths are an octet of 0x80 plus
/// the number of octets that follow, at most four, and then the length in
/// these octets, highest first; the length must need that many octets.
pub open spec fn stated_length(b: Seq<u8>, at: int, end: int) -> Option<(int, int)> {
    if !(0 <= at < end <= b.len()) {
        None
    } else if b[at] < 0x80 {
        Some((b[at] as int, 1))
    } else if b[at] == 0x81 && at + 1 < end && b[at + 1] >= 0x80 {
        Some((b[at + 1] as int, 2))
    } else if b[at] == 0x82 && at + 2 < end && b[at + 1] > 0 {
        Some((b[at + 1] * 0x100 + b[at + 2], 3))
    } else if b[at] == 0x83 && at + 3 < end && b[at + 1] > 0 {
        Some((b[at + 1] * 0x1_0000 + b[at + 2] * 0x100 + b[at + 3], 4))
    } else if b[at] == 0x84 && at + 4 < end && b[at + 1] > 0 {
        Some((b[at + 1] * 0x100_0000 + b[at + 2] * 0x1_0000 + b[at + 3] * 0x100 + b[at + 4], 5))
    } else {
        None
    }
}

/// Where the content of the value at `at` starts and ends, if a value with
/// the identifier octet `tag` stands at `at` and ends no later than `end`.
pub open spec fn value_at(b: Seq<u8>, at: int, end: int, tag: u8) -> Option<(int, int)> {
    if 0 <= at < end <= b.len() && b[at] == tag {
        match stated_length(b, at + 1, end) {
            Some((len, octets)) => if at + 1 + octets + len <= end {
                Some((at + 1 + octets, at + 1 + octets + len))
            } else {
                None
            },
            None => None,
        }
    } else {
        None
    }
}

/// Whether `b` begins with a key whose values lie inside one another as
/// their lengths state.
///
/// The key is a sequence that lies in `b`. It holds a sequence for the
/// algorithm and after it a bit string that ends the key. The algorithm
/// holds an object identifier and after it nothing or an empty null value.
/// The bit string has at least its first octet, and is short enough for the
/// key to be encoded again.
pub open spec fn key_is_framed(b: Seq<u8>) -> bool {
    &&& value_at(b, 0, b.len() as int, SEQUENCE) matches Some(key)
    &&& value_at(b, key.0, key.1, SEQUENCE) matches Some(alg)
    &&& value_at(b, alg.0, alg.1, OBJECT_IDENTIFIER) matches Some(oid)
    &&& (oid.1 == alg.1 || value_at(b, oid.1, alg.1, NULL) == Some((alg.1, alg.1)))
    &&& value_at(b, alg.1, key.1, BIT_STRING) matches Some(bits)
    &&& bits.1 == key.1
    &&& bits.0 < bits.1
    &&& bits.1 - bits.0 + KEY_OVERHEAD < LENGTH_LIMIT
}

/// The DER encoding of the public key that `bytes` decode to, if they decode
/// to one: what `PublicKey::decode` followed by `PublicKey::to_info_bytes`
/// gives.
pub uninterp spec fn decoded_key_info(bytes: Seq<u8>) -> Option<Seq<u8>>;

/// The DER encoding of the public key that `bytes` hold, if they hold one:
/// they are framed as a key and decode to one.
pub open spec fn key_info(bytes: Seq<u8>) -> Option<Seq<u8>> {
    if key_is_framed(bytes) {
        decoded_key_info(bytes)
    } else {
        None
    }
}

/// Decodes a public key with `PublicKey::decode` and encodes it again with
/// `PublicKey::to_info_bytes`. There is no key if decoding fails.
///
/// The decoder panics where a value is stated to be longer than what is
/// left of the value around it, where an identifier of several octets is
/// cut short, and where the object identifier is stated to be longer than
/// the bytes; the encoder panics from 2^24 content octets on. Bytes that
/// are framed as a key have none of these.
#[verifier::external_body]
pub(crate) fn decode_key_info(bytes: &[u8]) -> (info: Option<Vec<u8>>)
    requires
        key_is_framed(bytes@),
    ensures
        info is Some <==> decoded_key_info(bytes@) is Some,
        info matches Some(info) ==> Some(info@) == decoded_key_info(bytes@),
{
    match PublicKey::decode(bytes) {
        Ok(key) => Some(key.to_info_bytes().to_vec()),
        Err(_) => None,
    }
}

/// Reads the length octets at `at`.
pub fn read_length(b: &[u8], at: usize, end: usize) -> (length: Option<(usize, usize)>)
    requires
        at <= end <= b@.len(),
    ensures
        match stated_length(b@, at as int, end as int) {
            Some((len, octets)) => length == Some((len as usize, octets as usize)) && len
                <= 0xffff_ffff && 1 <= octets <= 5,
            None => length is None,
        },
{
    if at >= end {
        return None;
    }
    let first: u8 = b[at];
    let left: usize = end - at - 1;
    if first < 0x80 {
        Some((first as usize, 1))
    } else if first == 0x81 && left >= 1 && b[at + 1] >= 0x80 {
        Some((b[at + 1] as usize, 2))
    } else if first == 0x82 && left >= 2 && b[at + 1] > 0 {
        Some(((b[at + 1] as usize) * 0x100 + (b[at + 2] as usize), 3))
    } else if first == 0x83 && left >= 3 && b[at + 1] > 0 {
        Some(
            (
                (b[at + 1] as usize) * 0x1_0000 + (b[at + 2] as usize) * 0x100 + (b[at
                    + 3] as usize),
                4,
            ),
        )
    } else if first == 0x84 && left >= 4 && b[at + 1] > 0 {
        Some(
            (
                (b[at + 1] as usize) * 0x100_0000 + (b[at + 2] as usize) * 0x1_0000 + (b[at
                    + 3] as usize) * 0x100 + (b[at + 4] as usize),
                5,
            ),
        )
    } else {
        None
    }
}

/// Reads the header of the value at `at` and says where its content starts
/// and ends.
pub fn read_value(b: &[u8], at: usize, end: usize, tag: u8) -> (content: Option<(usize, usize)>)
    requires
        at <= end <= b@.len(),
    ensures
        match value_at(b@, at as int, end as int, tag) {
            Some((from, to)) => content == Some((from as usize, to as usize)) && at < from <= to
                <= end,
            None => content is None,
        },
{
    if at >= end || b[at] != tag {
        return None;
    }
    match read_length(b, at + 1, end) {
        Some((len, octets)) => {
            let from: usize = at + 1 + octets;
            if len <= end - from {
                Some((from, from + len))
            } else {
                None
            }
        },
        None => None,
    }
}

/// Tells whether bytes begin with a key whose values lie inside one another
/// as their lengths state.
pub fn check_key_frame(b: &[u8]) -> (framed: bool)
    ensures
        framed == key_is_framed(b@),
{
    let (key_from, key_to) = match read_value(b, 0, b.len(), SEQUENCE) {
        Some(key) => key,
        None => { return false; },
    };
    let (alg_from, alg_to) = match read_value(b, key_from, key_to, SEQUENCE) {
        Some(alg) => alg,
        None => { return false; },
    };
    let oid_to: usize = match read_value(b, alg_from, alg_to, OBJECT_IDENTIFIER) {
        Some((_, oid_to)) => oid_to,
        None => { return false; },
    };
    if oid_to != alg_to {
        match read_value(b, oid_to, alg_to, NULL) {
            Some((null_from, null_to)) => {
                if null_from != alg_to || null_to != alg_to {
                    return false;
                }
            },
            None => { return false; },
        }
    }
    let (bits_from, bits_to) = match read_value(b, alg_to, key_to, BIT_STRING) {
        Some(bits) => bits,
        None => { return false; },
    };
    bits_to == key_to && bits_from < bits_to && bits_to - bits_from < LENGTH_LIMIT - KEY_OVERHEAD
}

/// Reads a public key from bytes and gives its encoding, if the bytes hold a
/// key. Bytes that are not framed as a key are not decoded.
pub fn read_public_key(bytes: &[u8]) -> (info: Option<Vec<u8>>)
    ensures
        info is Some <==> key_info(bytes@) is Some,
        info matches Some(info) ==> Some(info@) == key_info(bytes@),
{
    if check_key_frame(bytes) {
        decode_key_info(bytes)
    } else {
        None
    }
}

} // verus!
