//! Points in time, held as whole seconds since the Unix epoch and the
//! nanoseconds past them, and written out as RFC 3339 text by `chrono`.

use vstd::prelude::*;

verus! {

/// The first second that `chrono` represents: January 1, 262143 BCE
/// (year -262143), 00:00:00 UTC.
pub open spec fn first_second() -> int {
    -8_334_601_228_800
}

/// The last second that `chrono` represents: December 31, 262142 CE,
/// 23:59:59 UTC.
pub open spec fn last_second() -> int {
    8_210_266_876_799
}

/// Whether `chrono::DateTime::<Utc>::from_timestamp(secs, nanos)` returns a
/// value: the day falls between chrono's first and last date, and the
/// nanoseconds are below one second, or below two on the 59th second of a
/// minute (a leap second).
pub open spec fn chrono_accepts(secs: i64, nanos: u32) -> bool {
    &&& first_second() <= secs <= last_second()
    &&& (nanos < 1_000_000_000 || (nanos < 2_000_000_000 && secs % 60 == 59))
}

/// The text that `to_rfc3339` gives for the instant
/// `DateTime::<Utc>::from_timestamp(secs, nanos)`.
pub uninterp spec fn rfc3339_text(secs: i64, nanos: u32) -> Seq<char>;

/// `DateTime::<Utc>::from_timestamp(secs, nanos).is_some()`: the day
/// `secs.div_euclid(86_400)` after the epoch must be a date of chrono's range
/// (`NaiveDate::MIN` to `NaiveDate::MAX`), and
/// `NaiveTime::from_num_seconds_from_midnight_opt` refuses nanoseconds of
/// 2e9 and more, and of 1e9 and more except on second 59.
#[verifier::external_body]
fn chrono_from_timestamp_ok(secs: i64, nanos: u32) -> (r: bool)
    ensures
        r == chrono_accepts(secs, nanos),
{
    chrono::DateTime::<chrono::Utc>::from_timestamp(secs, nanos).is_some()
}

/// `DateTime::<Utc>::to_rfc3339` of the instant built by `from_timestamp`,
/// which the `requires` makes succeed.
#[verifier::external_body]
fn chrono_to_rfc3339(secs: i64, nanos: u32) -> (r: String)
    requires
        chrono_accepts(secs, nanos),
    ensures
        r@ == rfc3339_text(secs, nanos),
{
    match chrono::DateTime::<chrono::Utc>::from_timestamp(secs, nanos) {
        Some(d) => d.to_rfc3339(),
        None => String::new(),
    }
}

/// `Utc::now()`, as its `timestamp()` and `timestamp_subsec_nanos()`; the
/// documentation of `from_timestamp` promises that these two read back.
#[verifier::external_body]
fn chrono_now() -> (r: (i64, u32))
    ensures
        chrono_accepts(r.0, r.1),
{
    let now = chrono::Utc::now();
    (now.timestamp(), now.timestamp_subsec_nanos())
}

/// An instant that `chrono` can represent.
#[derive(Clone, Copy, Debug)]
pub struct Timestamp {
    secs: i64,
    nanos: u32,
}

impl Timestamp {
    #[verifier::type_invariant]
    spec fn representable(self) -> bool {
        chrono_accepts(self.secs, self.nanos)
    }

    pub closed spec fn seconds(self) -> i64 {
        self.secs
    }

    pub closed spec fn subsec_nanos(self) -> u32 {
        self.nanos
    }

    /// The instant `secs` seconds and `nanos` nanoseconds after the epoch,
    /// if `chrono` can represent it.
    pub fn new(secs: i64, nanos: u32) -> (r: Option<Timestamp>)
        ensures
            r is Some <==> chrono_accepts(secs, nanos),
            r matches Some(t) ==> t.seconds() == secs && t.subsec_nanos() == nanos,
    {
        if chrono_from_timestamp_ok(secs, nanos) {
            Some(Timestamp { secs, nanos })
        } else {
            None
        }
    }

    /// The current instant.
    pub fn now() -> (r: Timestamp)
        ensures
            chrono_accepts(r.seconds(), r.subsec_nanos()),
    {
        let (secs, nanos) = chrono_now();
        Timestamp { secs, nanos }
    }

    pub fn secs(&self) -> (r: i64)
        ensures
            r == self.seconds(),
    {
        self.secs
    }

    pub fn nanos(&self) -> (r: u32)
        ensures
            r == self.subsec_nanos(),
    {
        self.nanos
    }

    pub open spec fn text(self) -> Seq<char> {
        rfc3339_text(self.seconds(), self.subsec_nanos())
    }

    /// The instant as RFC 3339 text.
    pub fn to_rfc3339(&self) -> (r: String)
        ensures
            r@ == self.text(),
    {
        proof {
            use_type_invariant(self);
        }
        chrono_to_rfc3339(self.secs, self.nanos)
    }
}

} // verus!
