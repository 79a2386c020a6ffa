//! Certificate revocation lists.

use vstd::prelude::*;
use rpki::crl::CrlEntry;
use rpki::x509::Serial;
use crate::error::Error;
use crate::validity::{period_end_fits, period_start, UpdateTimes};

verus! {

/// An entry of a CRL, `rpki::crl::CrlEntry`: the serial number of a revoked
/// certificate and the time of its revocation. The library passes entries on
/// and never looks into one.
#[verifier::external_type_specification]
#[verifier::external_body]
pub struct ExCrlEntry(rpki::crl::CrlEntry);

/// The content of a CRL that is to be signed.
///
/// The issuer is given by its key: the name of the issuer and the authority
/// key identifier of the list are those of this key.
#[derive(Debug)]
pub struct TbsCertList {
    /// The public key of the issuer.
    pub issuer_key: Vec<u8>,
    /// The time of this list and of the next.
    pub times: UpdateTimes,
    /// The revoked certificates.
    pub revoked_certs: Vec<CrlEntry>,
    /// The number of the list.
    pub crl_number: Serial,
}

/// The options for a CRL.
#[derive(Debug)]
pub struct Crl {
    /// The time of this list. Without it, that is now.
    pub this_update: Option<i64>,
    /// The time of the next list.
    pub next_update: Option<i64>,
    /// The number of days until the next list.
    pub next_days: Option<i64>,
    /// The revoked certificates.
    pub revoked_certs: Vec<CrlEntry>,
    /// The number of the list.
    pub crl_number: Serial,
}

impl Crl {
    /// Whether `list` is the list that these options ask for, from the
    /// issuer with the key `issuer_key` and at the time `now`. The revoked
    /// certificates stand in the list as they were given.
    pub open spec fn asks_for(self, now: i64, issuer_key: Vec<u8>, list: TbsCertList) -> bool {
        &&& list.issuer_key == issuer_key
        &&& UpdateTimes::resolved(now, self.this_update, self.next_update, self.next_days) == Some(
            (list.times.this_update as int, list.times.next_update as int),
        )
        &&& list.revoked_certs == self.revoked_certs
        &&& list.crl_number == self.crl_number
    }

    /// Puts together a CRL from the issuer with the key `issuer_key`.
    ///
    /// There is no list if the options name neither the time of the next
    /// list nor the days until then.
    pub fn run(self, now: i64, issuer_key: Vec<u8>) -> (res: Result<TbsCertList, Error>)
        requires
            period_end_fits(period_start(now, self.this_update), self.next_update, self.next_days),
        ensures
            res is Err <==> self.next_update is None && self.next_days is None,
            res matches Err(err) ==> err == Error::MissingNextUpdate,
            res matches Ok(list) ==> self.asks_for(now, issuer_key, list),
    {
        let times: UpdateTimes = match UpdateTimes::resolve(
            now,
            self.this_update,
            self.next_update,
            self.next_days,
        ) {
            Ok(times) => times,
            Err(err) => { return Err(err); },
        };
        Ok(
            TbsCertList {
                issuer_key,
                times,
                revoked_certs: self.revoked_certs,
                crl_number: self.crl_number,
            },
        )
    }
}

} // verus!
