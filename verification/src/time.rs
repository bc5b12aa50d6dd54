//! Moments in time, as the claims and orders record them.
//!
//! A [`Timestamp`] counts seconds since the Unix epoch and nanoseconds within
//! the second, in UTC. The calendar behind it is that of `chrono`.

use crate::text::is_digit;
use vstd::prelude::*;

verus! {

/// What a [`Timestamp`] stands for.
#[verifier::ext_equal]
pub struct Moment {
    /// Seconds since 1970-01-01T00:00:00Z.
    pub secs: int,
    /// Nanoseconds within the second. A leap second counts on past
    /// 999 999 999.
    pub nanos: int,
}

/// The first second of the calendar: year -262143.
pub const MIN_SECS: i64 = -8_334_601_228_800;

/// The last second of the calendar: year 262142.
pub const MAX_SECS: i64 = 8_210_266_876_799;

/// The moments that `chrono` can represent.
pub open spec fn representable(t: Moment) -> bool {
    &&& MIN_SECS <= t.secs <= MAX_SECS
    &&& 0 <= t.nanos < 2_000_000_000
    &&& t.nanos >= 1_000_000_000 ==> t.secs % 60 == 59
}

/// `a` comes before `b`.
pub open spec fn earlier(a: Moment, b: Moment) -> bool {
    a.secs < b.secs || (a.secs == b.secs && a.nanos < b.nanos)
}

/// `t`, `hours` hours later. A leap second is left behind by any step.
pub open spec fn hours_later(t: Moment, hours: int) -> Moment {
    if t.nanos < 1_000_000_000 || hours == 0 {
        Moment { secs: t.secs + 3600 * hours, nanos: t.nanos }
    } else if hours > 0 {
        Moment { secs: t.secs + 3600 * hours, nanos: t.nanos - 1_000_000_000 }
    } else {
        Moment { secs: t.secs + 3600 * hours + 1, nanos: t.nanos - 1_000_000_000 }
    }
}

/// The correction for a leap second between two times of day: a leap second
/// counts where the other end lies on the far side of it.
pub open spec fn leap_correction(a: Moment, b: Moment) -> int {
    if a.secs % 86400 > b.secs % 86400 && b.nanos >= 1_000_000_000 {
        1
    } else if a.secs % 86400 < b.secs % 86400 && a.nanos >= 1_000_000_000 {
        -1
    } else {
        0
    }
}

/// Nanoseconds from `b` to `a`.
pub open spec fn nanos_between(a: Moment, b: Moment) -> int {
    (a.secs - b.secs + leap_correction(a, b)) * 1_000_000_000 + (a.nanos - b.nanos)
}

/// Whole seconds from `b` to `a`, rounded toward zero.
pub open spec fn seconds_between(a: Moment, b: Moment) -> int {
    let n = nanos_between(a, b);
    if n >= 0 {
        n / 1_000_000_000
    } else {
        -((-n) / 1_000_000_000)
    }
}

/// The RFC 3339 text of a moment, as `chrono` writes it.
pub uninterp spec fn rfc3339(secs: int, nanos: int) -> Seq<char>;

/// The characters that an RFC 3339 text is made of.
pub open spec fn rfc3339_char(c: char) -> bool {
    is_digit(c) || c == '-' || c == '+' || c == ':' || c == '.' || c == 'T'
}

/// A moment in UTC.
#[derive(Clone, Copy, Debug, PartialEq, Eq, Structural)]
pub struct Timestamp {
    secs: i64,
    nanos: u32,
}

impl View for Timestamp {
    type V = Moment;

    closed spec fn view(&self) -> Moment {
        Moment { secs: self.secs as int, nanos: self.nanos as int }
    }
}

impl Timestamp {
    #[verifier::type_invariant]
    closed spec fn inv(self) -> bool {
        representable(self@)
    }

    /// The moment `secs` seconds and `nanos` nanoseconds after the epoch,
    /// where the calendar has it.
    pub fn new(secs: i64, nanos: u32) -> (t: Option<Timestamp>)
        ensures
            match t {
                Some(t) => t@ == (Moment { secs: secs as int, nanos: nanos as int })
                    && representable(t@),
                None => !representable(Moment { secs: secs as int, nanos: nanos as int }),
            },
    {
        if secs < MIN_SECS || secs > MAX_SECS || nanos >= 2_000_000_000 {
            return None;
        }
        if nanos >= 1_000_000_000 && ((secs - MIN_SECS) as u64) % 60 != 59 {
            return None;
        }
        Some(Timestamp { secs, nanos })
    }

    /// Seconds since the epoch.
    pub fn secs(&self) -> (n: i64)
        ensures
            n == self@.secs,
    {
        self.secs
    }

    /// Nanoseconds within the second.
    pub fn nanos(&self) -> (n: u32)
        ensures
            n == self@.nanos,
    {
        self.nanos
    }

    /// Whether this moment comes before `other`.
    pub fn is_before(&self, other: &Timestamp) -> (yes: bool)
        ensures
            yes == earlier(self@, other@),
    {
        self.secs < other.secs || (self.secs == other.secs && self.nanos < other.nanos)
    }

    /// Whether the calendar has this moment plus `hours` hours.
    pub fn can_add_hours(&self, hours: i64) -> (yes: bool)
        ensures
            yes == representable(hours_later(self@, hours as int)),
    {
        proof {
            use_type_invariant(self);
        }
        let leap: i128 = if self.nanos >= 1_000_000_000 && hours < 0 {
            1
        } else {
            0
        };
        let secs: i128 = self.secs as i128 + 3600 * (hours as i128) + leap;
        MIN_SECS as i128 <= secs && secs <= MAX_SECS as i128
    }

    /// The current time: `chrono::Utc::now`. Nothing is claimed of it but that
    /// the calendar has it.
    #[verifier::external_body]
    pub(crate) fn now() -> (t: Timestamp)
        ensures
            representable(t@),
    {
        let now = chrono::Utc::now();
        Timestamp { secs: now.timestamp(), nanos: now.timestamp_subsec_nanos() }
    }

    /// This moment plus `chrono::Duration::hours(hours)`. `chrono` panics
    /// where the sum leaves the calendar, so such sums are left out. The
    /// result is [`hours_later`]: 3600 seconds for each hour, and a leap
    /// second is left behind.
    #[verifier::external_body]
    pub(crate) fn plus_hours(&self, hours: i64) -> (t: Timestamp)
        requires
            representable(hours_later(self@, hours as int)),
        ensures
            t@ == hours_later(self@, hours as int),
            representable(t@),
    {
        let start = chrono::DateTime::from_timestamp(self.secs, self.nanos).unwrap();
        let sum = start + chrono::Duration::hours(hours);
        Timestamp { secs: sum.timestamp(), nanos: sum.timestamp_subsec_nanos() }
    }

    /// `chrono::DateTime::signed_duration_since` and
    /// `chrono::TimeDelta::num_seconds`: the whole seconds from `other` to
    /// this moment, rounded toward zero, as [`seconds_between`] counts them.
    #[verifier::external_body]
    pub(crate) fn seconds_since(&self, other: &Timestamp) -> (n: i64)
        ensures
            n == seconds_between(self@, other@),
    {
        let a = chrono::DateTime::from_timestamp(self.secs, self.nanos).unwrap();
        let b = chrono::DateTime::from_timestamp(other.secs, other.nanos).unwrap();
        a.signed_duration_since(b).num_seconds()
    }

    /// `chrono::DateTime::to_rfc3339`: a function of the moment alone, named
    /// [`rfc3339`]. It is written with digits and `-+:.T`.
    #[verifier::external_body]
    pub(crate) fn to_rfc3339(&self) -> (out: String)
        ensures
            out@ == rfc3339(self@.secs, self@.nanos),
            forall|i: int| 0 <= i < out@.len() ==> rfc3339_char(#[trigger] out@[i]),
    {
        chrono::DateTime::from_timestamp(self.secs, self.nanos).unwrap().to_rfc3339()
    }
}

/// The text that [`rfc3339`] gives for a moment.
pub open spec fn rfc3339_of(t: Moment) -> Seq<char> {
    rfc3339(t.secs, t.nanos)
}

} // verus!
