//! The paired account-creation and usage timestamps of a record, as
//! milliseconds since the Unix epoch, and their textual forms.

use crate::rng::draw_range;
use chrono::{DateTime, Utc};
use rand_xorshift::XorShiftRng;
use vstd::prelude::*;

verus! {

/// 2019-01-01T00:00:00Z: the earliest account creation.
pub const EARLIEST_MS: u64 = 1546300800000;

/// 2020-05-15T00:00:00Z: accounts are created before this instant.
pub const LATEST_CREATED_MS: u64 = 1589500800000;

/// 2020-05-28T00:00:00Z: usages take place before this instant.
pub const LATEST_USAGE_MS: u64 = 1590624000000;

/// The shortest usage duration, in milliseconds.
pub const MIN_USAGE_TIME: u64 = 3000;

/// The bound above every usage duration: one day, in milliseconds.
pub const MAX_USAGE_TIME: u64 = 86400000;

/// The RFC 3339 text that chrono gives for an instant in milliseconds.
pub uninterp spec fn rfc3339_text(ms: nat) -> Seq<char>;

/// The RFC 2822 text that chrono gives for an instant in milliseconds.
pub uninterp spec fn rfc2822_text(ms: nat) -> Seq<char>;

/// Relies on chrono's `DateTime::from_timestamp_millis` and
/// `DateTime::to_rfc3339`: the instant in RFC 3339 form. The instant is in
/// chrono's range for every `ms` of the window.
#[verifier::external_body]
pub(crate) fn rfc3339(ms: u64) -> (r: String)
    requires
        ms <= LATEST_USAGE_MS,
    ensures
        r@ == rfc3339_text(ms as nat),
{
    match DateTime::<Utc>::from_timestamp_millis(ms as i64) {
        Some(d) => d.to_rfc3339(),
        None => String::new(),
    }
}

/// Relies on chrono's `DateTime::from_timestamp_millis` and
/// `DateTime::to_rfc2822`: the instant in RFC 2822 form; its year has four
/// digits, so the call does not panic.
#[verifier::external_body]
pub(crate) fn rfc2822(ms: u64) -> (r: String)
    requires
        EARLIEST_MS <= ms <= LATEST_USAGE_MS,
    ensures
        r@ == rfc2822_text(ms as nat),
{
    match DateTime::<Utc>::from_timestamp_millis(ms as i64) {
        Some(d) => d.to_rfc2822(),
        None => String::new(),
    }
}

/// The creation and usage instants of a record and the usage duration.
pub struct UsageDates {
    pub created_on: u64,
    pub usage_date: u64,
    pub usage_time: u64,
}

impl UsageDates {
    /// The record's ordering invariant: the account exists before the usage,
    /// both lie in the window, and the duration is in range.
    pub open spec fn wf(&self) -> bool {
        &&& EARLIEST_MS <= self.created_on < LATEST_CREATED_MS
        &&& self.created_on <= self.usage_date < LATEST_USAGE_MS
        &&& MIN_USAGE_TIME <= self.usage_time < MAX_USAGE_TIME
    }

    /// Draws a creation instant, then a usage instant after it, then a
    /// duration: three draws.
    pub fn sample(rng: &mut XorShiftRng) -> (r: UsageDates)
        ensures
            r.wf(),
    {
        let c = draw_range(rng, 0, LATEST_CREATED_MS - EARLIEST_MS);
        let u = draw_range(rng, 0, LATEST_USAGE_MS - (EARLIEST_MS + c));
        let t = draw_range(rng, MIN_USAGE_TIME, MAX_USAGE_TIME);
        UsageDates::of(c, u, t)
    }

    /// The dates from the three draws: `c` milliseconds after the earliest
    /// instant for the creation, `u` after that for the usage, and the
    /// duration `t`.
    pub fn of(c: u64, u: u64, t: u64) -> (r: UsageDates)
        requires
            c < LATEST_CREATED_MS - EARLIEST_MS,
            u < LATEST_USAGE_MS - (EARLIEST_MS + c),
            MIN_USAGE_TIME <= t < MAX_USAGE_TIME,
        ensures
            r.created_on == EARLIEST_MS + c,
            r.usage_date == EARLIEST_MS + c + u,
            r.usage_time == t,
            r.wf(),
    {
        UsageDates { created_on: EARLIEST_MS + c, usage_date: EARLIEST_MS + c + u, usage_time: t }
    }
}

/// Whole seconds since the epoch, as chrono's `DateTime::timestamp` gives
/// them for an instant after the epoch.
pub fn epoch_seconds(ms: u64) -> (r: u64)
    ensures
        r == ms / 1000,
{
    ms / 1000
}

} // verus!
