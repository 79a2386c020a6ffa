//! Route origin authorizations and the prefixes they list.

use vstd::prelude::*;
use vstd::string::*;
use crate::address::{ip_address, parse_ip_address, IpAddress};
use crate::error::Error;
use rpki::x509::Serial;
use crate::sigobj::SignedObjectEnvelope;
use crate::text::{chars_of, copy_range, decimal_u8, find_from, first_index, parse_u8};
use crate::validity::{period_end_fits, period_start, Validity};

verus! {

/// A prefix of a ROA: an address, the length of the prefix in bits, and the
/// greatest length of a route that the ROA allows for it, if it names one.
///
/// Nothing is required of how the three relate: the length may exceed the
/// bits of the address, bits after the prefix may be set, and the greatest
/// length may be smaller than the length.
#[derive(Clone, Copy, Debug, PartialEq, Eq, Structural)]
pub struct RoaPrefix {
    /// The address of the prefix.
    pub address: IpAddress,
    /// The length of the prefix.
    pub length: u8,
    /// The greatest length of a route, if one is given.
    pub max_length: Option<u8>,
}

/// What stands before the first hyphen of `s`: all of `s` if there is none.
pub open spec fn before_hyphen(s: Seq<char>) -> Seq<char> {
    s.subrange(0, first_index(s, '-'))
}

/// What stands after the first hyphen of `s`, if there is one.
pub open spec fn after_hyphen(s: Seq<char>) -> Option<Seq<char>> {
    if first_index(s, '-') < s.len() {
        Some(s.subrange(first_index(s, '-') + 1, s.len() as int))
    } else {
        None
    }
}

/// The prefix that `s` spells, if it spells one.
///
/// A prefix is written as an address, a slash and a length, which a hyphen
/// and a greatest length may follow. Everything after the first hyphen is
/// the greatest length; before it, everything after the first slash is the
/// length.
pub open spec fn roa_prefix(s: Seq<char>) -> Option<RoaPrefix> {
    let prefix = before_hyphen(s);
    let slash = first_index(prefix, '/');
    let address = ip_address(prefix.subrange(0, slash));
    let length = decimal_u8(prefix.subrange(slash + 1, prefix.len() as int));
    if slash >= prefix.len() || address is None || length is None {
        None
    } else {
        match after_hyphen(s) {
            Some(text) => match decimal_u8(text) {
                Some(max_length) => Some(
                    RoaPrefix {
                        address: address->0,
                        length: length->0,
                        max_length: Some(max_length),
                    },
                ),
                None => None,
            },
            None => Some(RoaPrefix { address: address->0, length: length->0, max_length: None }),
        }
    }
}

/// The diagnostic for a text that spells no prefix.
pub open spec fn invalid_prefix_message(s: Seq<char>) -> Seq<char> {
    "Invalid ROA prefix '"@ + s + "'"@
}

/// Makes the error for a text that spells no prefix.
fn invalid_prefix(s: &str) -> (err: Error)
    ensures
        err matches Error::InvalidRoaPrefix(message) && message@ == invalid_prefix_message(s@),
{
    let mut message: String = "Invalid ROA prefix '".to_owned();
    message.append(s);
    message.append("'");
    Error::InvalidRoaPrefix(message)
}

impl RoaPrefix {
    /// Whether the prefix is one of IPv4 addresses.
    pub fn v4(&self) -> (v4: bool)
        ensures
            v4 == (self.address is V4),
    {
        self.address.is_ipv4()
    }

    /// Reads a prefix from its text `<address>/<length>` or
    /// `<address>/<length>-<max-length>`.
    ///
    /// A text that spells no prefix gives an error that quotes the text.
    pub fn from_str(s: &str) -> (res: Result<RoaPrefix, Error>)
        ensures
            res is Ok <==> roa_prefix(s@) is Some,
            res matches Ok(prefix) ==> Some(prefix) == roa_prefix(s@),
            res matches Err(err) ==> err matches Error::InvalidRoaPrefix(message) && message@
                == invalid_prefix_message(s@),
    {
        let chars: Vec<char> = chars_of(s);
        let hyphen: usize = find_from(&chars, '-', 0);
        let prefix: Vec<char> = copy_range(&chars, 0, hyphen);
        let slash: usize = find_from(&prefix, '/', 0);
        if slash >= prefix.len() {
            return Err(invalid_prefix(s));
        }
        let address_text: Vec<char> = copy_range(&prefix, 0, slash);
        let length_text: Vec<char> = copy_range(&prefix, slash + 1, prefix.len());
        let address: IpAddress = match parse_ip_address(&address_text) {
            Some(address) => address,
            None => { return Err(invalid_prefix(s)); },
        };
        let length: u8 = match parse_u8(&length_text) {
            Some(length) => length,
            None => { return Err(invalid_prefix(s)); },
        };
        let max_length: Option<u8> = if hyphen < chars.len() {
            let max_text: Vec<char> = copy_range(&chars, hyphen + 1, chars.len());
            match parse_u8(&max_text) {
                Some(max_length) => Some(max_length),
                None => { return Err(invalid_prefix(s)); },
            }
        } else {
            None
        };
        Ok(RoaPrefix { address, length, max_length })
    }
}

/// The prefixes of IPv4 addresses among `prefixes`, in their order.
pub open spec fn v4_prefixes(prefixes: Seq<RoaPrefix>) -> Seq<RoaPrefix> {
    prefixes.filter(|prefix: RoaPrefix| prefix.address is V4)
}

/// The prefixes of IPv6 addresses among `prefixes`, in their order.
pub open spec fn v6_prefixes(prefixes: Seq<RoaPrefix>) -> Seq<RoaPrefix> {
    prefixes.filter(|prefix: RoaPrefix| prefix.address is V6)
}

/// The content of a ROA: an AS and the prefixes that it may announce, those
/// of IPv4 addresses apart from those of IPv6 addresses.
#[derive(Debug, PartialEq, Eq)]
pub struct RoaContent {
    /// The number of the AS.
    pub as_id: u32,
    /// The prefixes of IPv4 addresses.
    pub v4: Vec<RoaPrefix>,
    /// The prefixes of IPv6 addresses.
    pub v6: Vec<RoaPrefix>,
}

impl RoaContent {
    /// Puts together the content of a ROA. The prefixes are sorted into the
    /// two families; within each they keep their order, and none is left
    /// out, be it given twice.
    pub fn new(as_id: u32, prefixes: &Vec<RoaPrefix>) -> (content: RoaContent)
        ensures
            content.as_id == as_id,
            content.v4@ == v4_prefixes(prefixes@),
            content.v6@ == v6_prefixes(prefixes@),
    {
        let mut v4: Vec<RoaPrefix> = Vec::new();
        let mut v6: Vec<RoaPrefix> = Vec::new();
        let mut i: usize = 0;
        proof {
            reveal(Seq::filter);
        }
        while i < prefixes.len()
            invariant
                i <= prefixes@.len(),
                v4@ == v4_prefixes(prefixes@.subrange(0, i as int)),
                v6@ == v6_prefixes(prefixes@.subrange(0, i as int)),
            decreases prefixes@.len() - i,
        {
            let prefix: RoaPrefix = prefixes[i];
            proof {
                reveal(Seq::filter);
                assert(prefixes@.subrange(0, i + 1).drop_last() =~= prefixes@.subrange(
                    0,
                    i as int,
                ));
            }
            if prefix.v4() {
                v4.push(prefix);
            } else {
                v6.push(prefix);
            }
            i += 1;
        }
        assert(prefixes@.subrange(0, i as int) =~= prefixes@);
        RoaContent { as_id, v4, v6 }
    }
}

/// The options for a ROA.
#[derive(Debug)]
pub struct Roa {
    /// The serial number of the certificate of the ROA.
    pub serial: Serial,
    /// The start of the validity. Without it, the validity starts now.
    pub not_before: Option<i64>,
    /// The end of the validity.
    pub not_after: Option<i64>,
    /// The length of the validity in days.
    pub valid_days: Option<i64>,
    /// The URI of the CRL of the issuer.
    pub crl_uri: String,
    /// The URI of the certificate of the issuer.
    pub ca_issuer: String,
    /// The URI of the ROA itself.
    pub signed_object: String,
    /// The number of the AS.
    pub asn: u32,
    /// The prefixes.
    pub prefixes: Vec<RoaPrefix>,
}

/// What a ROA is made of.
#[derive(Debug, PartialEq)]
pub struct RoaObject {
    /// The content of the ROA.
    pub content: RoaContent,
    /// The envelope of the ROA.
    pub envelope: SignedObjectEnvelope,
}

impl Roa {
    /// Whether `roa` is the ROA that these options ask for at the time
    /// `now`.
    pub open spec fn asks_for(self, now: i64, roa: RoaObject) -> bool {
        &&& roa.content.as_id == self.asn
        &&& roa.content.v4@ == v4_prefixes(self.prefixes@)
        &&& roa.content.v6@ == v6_prefixes(self.prefixes@)
        &&& roa.envelope.serial_number == self.serial
        &&& Validity::resolved(now, self.not_before, self.not_after, self.valid_days) == Some(
            (roa.envelope.validity.not_before as int, roa.envelope.validity.not_after as int),
        )
        &&& roa.envelope.crl_uri == self.crl_uri
        &&& roa.envelope.ca_issuer == self.ca_issuer
        &&& roa.envelope.signed_object == self.signed_object
    }

    /// Puts together a ROA.
    ///
    /// There is no ROA if the options name neither the end of the validity
    /// nor its length.
    pub fn run(self, now: i64) -> (res: Result<RoaObject, Error>)
        requires
            period_end_fits(period_start(now, self.not_before), self.not_after, self.valid_days),
        ensures
            res is Err <==> self.not_after is None && self.valid_days is None,
            res matches Err(err) ==> err == Error::MissingValidityEnd,
            res matches Ok(roa) ==> self.asks_for(now, roa),
    {
        let content: RoaContent = RoaContent::new(self.asn, &self.prefixes);
        let validity: Validity = match Validity::resolve(
            now,
            self.not_before,
            self.not_after,
            self.valid_days,
        ) {
            Ok(validity) => validity,
            Err(err) => { return Err(err); },
        };
        let envelope = SignedObjectEnvelope::new(
            self.serial,
            validity,
            self.crl_uri,
            self.ca_issuer,
            self.signed_object,
        );
        Ok(RoaObject { content, envelope })
    }
}

} // verus!
