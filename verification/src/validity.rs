//! Validity periods and update times.
//!
//! A time is a number of seconds since the Unix epoch. The end of a period is
//! either given as such a time or as a number of days after its start.

use vstd::prelude::*;
use crate::error::Error;

verus! {

/// The time that lies `days` days after `start`.
pub open spec fn days_after(start: int, days: int) -> int {
    start + days * 86400
}

/// Whether the time `days` days after `start` can be held as a time.
pub open spec fn days_after_fits(start: i64, days: i64) -> bool {
    i64::MIN <= days_after(start as int, days as int) <= i64::MAX
}

/// The end of a period that starts at `start`: the time given for it, or
/// else the time the given number of days later. There is none if neither is
/// given.
pub open spec fn period_end(start: i64, end: Option<i64>, days: Option<i64>) -> Option<int> {
    match (end, days) {
        (Some(end), _) => Some(end as int),
        (None, Some(days)) => Some(days_after(start as int, days as int)),
        (None, None) => None,
    }
}

/// Whether the end of a period can be held as a time.
pub open spec fn period_end_fits(start: i64, end: Option<i64>, days: Option<i64>) -> bool {
    match period_end(start, end, days) {
        Some(end) => i64::MIN <= end <= i64::MAX,
        None => true,
    }
}

/// The start of a period: the time given for it, or else the current time.
pub open spec fn period_start(now: i64, start: Option<i64>) -> i64 {
    match start {
        Some(start) => start,
        None => now,
    }
}

/// Whether the end that is named for a period lies after its start: the time
/// given for the end does, or else the number of days is positive.
pub open spec fn end_follows_start(start: i64, end: Option<i64>, days: Option<i64>) -> bool {
    match (end, days) {
        (Some(end), _) => start < end,
        (None, Some(days)) => days > 0,
        (None, None) => false,
    }
}

/// A period whose end is named to lie after its start does end after its
/// start, and a period whose end is given as a time ends at that time,
/// whatever number of days is given with it.
pub proof fn lemma_period_is_ordered(start: i64, end: Option<i64>, days: Option<i64>)
    ensures
        end_follows_start(start, end, days) ==> period_end(start, end, days) is Some && start
            < period_end(start, end, days)->0,
        end matches Some(end) ==> period_end(start, Some(end), days) == Some(end as int),
        end is None && days is None <==> period_end(start, end, days) is None,
{
}

/// Computes the time `days` days after `start`, if it can be held as a time.
pub fn add_days(start: i64, days: i64) -> (end: Option<i64>)
    ensures
        end is Some <==> days_after_fits(start, days),
        end matches Some(end) ==> end == days_after(start as int, days as int),
{
    let offset: i128 = (days as i128) * 86400i128;
    let end: i128 = (start as i128) + offset;
    if end < (i64::MIN as i128) || end > (i64::MAX as i128) {
        None
    } else {
        Some(end as i64)
    }
}

/// The period of time during which a certificate is valid.
#[derive(Clone, Copy, Debug, PartialEq, Eq, Structural)]
pub struct Validity {
    /// The time from which on the certificate is valid.
    pub not_before: i64,
    /// The time until which the certificate is valid.
    pub not_after: i64,
}

impl Validity {
    /// Whether the period ends after it starts.
    pub open spec fn is_ordered(self) -> bool {
        self.not_before < self.not_after
    }

    /// The period that the options describe, if they name an end.
    pub open spec fn resolved(
        now: i64,
        not_before: Option<i64>,
        not_after: Option<i64>,
        valid_days: Option<i64>,
    ) -> Option<(int, int)> {
        let start = period_start(now, not_before);
        match period_end(start, not_after, valid_days) {
            Some(end) => Some((start as int, end)),
            None => None,
        }
    }

    /// Creates a period from its two ends.
    pub fn new(not_before: i64, not_after: i64) -> (validity: Validity)
        ensures
            validity.not_before == not_before,
            validity.not_after == not_after,
    {
        Validity { not_before, not_after }
    }

    /// Determines the validity of a certificate from the options given for
    /// it.
    ///
    /// The period starts at `not_before`, or at `now` if that is not given.
    /// It ends at `not_after` if that is given, whatever `valid_days` may
    /// be, and else `valid_days` days after its start. Without both there is
    /// no period.
    pub fn resolve(
        now: i64,
        not_before: Option<i64>,
        not_after: Option<i64>,
        valid_days: Option<i64>,
    ) -> (res: Result<Validity, Error>)
        requires
            period_end_fits(period_start(now, not_before), not_after, valid_days),
        ensures
            res is Err <==> not_after is None && valid_days is None,
            res matches Err(err) ==> err == Error::MissingValidityEnd,
            res matches Ok(validity) ==> Self::resolved(now, not_before, not_after, valid_days)
                == Some((validity.not_before as int, validity.not_after as int)),
            res matches Ok(validity) ==> validity.not_before == period_start(now, not_before),
            res matches Ok(validity) ==> (not_after matches Some(end) ==> validity.not_after
                == end),
            end_follows_start(period_start(now, not_before), not_after, valid_days) ==> (res
                matches Ok(validity) && validity.is_ordered()),
    {
        let start: i64 = match not_before {
            Some(start) => start,
            None => now,
        };
        match not_after {
            Some(end) => Ok(Validity::new(start, end)),
            None => match valid_days {
                Some(days) => match add_days(start, days) {
                    Some(end) => Ok(Validity::new(start, end)),
                    None => {
                        proof {
                            assert(false);
                        }
                        Err(Error::MissingValidityEnd)
                    },
                },
                None => Err(Error::MissingValidityEnd),
            },
        }
    }
}

/// The time at which a list was issued and the time by which the next one
/// will be.
#[derive(Clone, Copy, Debug, PartialEq, Eq, Structural)]
pub struct UpdateTimes {
    /// The time at which this list was issued.
    pub this_update: i64,
    /// The time by which the next list will have been issued.
    pub next_update: i64,
}

impl UpdateTimes {
    /// Whether the next update lies after this one.
    pub open spec fn is_ordered(self) -> bool {
        self.this_update < self.next_update
    }

    /// The update times that the options describe, if they name the next
    /// update.
    pub open spec fn resolved(
        now: i64,
        this_update: Option<i64>,
        next_update: Option<i64>,
        next_days: Option<i64>,
    ) -> Option<(int, int)> {
        Validity::resolved(now, this_update, next_update, next_days)
    }

    /// Determines the update times of a list from the options given for it.
    ///
    /// This update is `this_update`, or `now` if that is not given. The next
    /// update is `next_update` if that is given, whatever `next_days` may
    /// be, and else lies `next_days` days after this update. Without both
    /// there are no update times.
    pub fn resolve(
        now: i64,
        this_update: Option<i64>,
        next_update: Option<i64>,
        next_days: Option<i64>,
    ) -> (res: Result<UpdateTimes, Error>)
        requires
            period_end_fits(period_start(now, this_update), next_update, next_days),
        ensures
            res is Err <==> next_update is None && next_days is None,
            res matches Err(err) ==> err == Error::MissingNextUpdate,
            res matches Ok(times) ==> Self::resolved(now, this_update, next_update, next_days)
                == Some((times.this_update as int, times.next_update as int)),
            res matches Ok(times) ==> times.this_update == period_start(now, this_update),
            res matches Ok(times) ==> (next_update matches Some(end) ==> times.next_update == end),
            end_follows_start(period_start(now, this_update), next_update, next_days) ==> (res
                matches Ok(times) && times.is_ordered()),
    {
        let start: i64 = match this_update {
            Some(start) => start,
            None => now,
        };
        match next_update {
            Some(end) => Ok(UpdateTimes { this_update: start, next_update: end }),
            None => match next_days {
                Some(days) => match add_days(start, days) {
                    Some(end) => Ok(UpdateTimes { this_update: start, next_update: end }),
                    None => {
                        proof {
                            assert(false);
                        }
                        Err(Error::MissingNextUpdate)
                    },
                },
                None => Err(Error::MissingNextUpdate),
            },
        }
    }
}

} // verus!
