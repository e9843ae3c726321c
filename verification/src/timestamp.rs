//! Points in time, carried as a UTC instant and exchanged with the platform
//! exclusively as RFC3339 text.
//!
//! The text form is read and written by chrono behind two trusted wrappers;
//! everything else in the crate works on the plain instant.

use vstd::prelude::*;

verus! {

/// The instant that given RFC3339 text denotes, normalized to UTC, as a pair
/// of whole seconds and subsecond nanoseconds since the epoch; `None` when the
/// text is not valid RFC3339.
pub uninterp spec fn rfc3339_instant(s: Seq<char>) -> Option<(i64, u32)>;

/// Whether an instant lies in the range that chrono can represent as a
/// date and time (roughly years -262143 to 262142).
pub uninterp spec fn rfc3339_representable(secs: i64, nanos: u32) -> bool;

/// Whether an instant falls in the years 0000 through 9999 — the only years
/// RFC3339 text can carry, since it writes exactly four year digits and no
/// sign. The bounds are the first second of year 0000 and of year 10000.
pub open spec fn rfc3339_four_digit_year(secs: i64) -> bool {
    -62167219200 <= secs && secs < 253402300800
}

/// A point in time: whole seconds since the Unix epoch, plus subsecond
/// nanoseconds, normalized to UTC.
#[derive(Clone, Copy, Debug, PartialEq, Eq, Structural, Hash)]
pub struct Timestamp {
    pub secs: i64,
    pub nanos: u32,
}

impl Timestamp {
    /// Well-formedness: the subsecond part is below two seconds worth of
    /// nanoseconds (values above one second encode a leap second), and the
    /// instant lies in chrono's representable range. Note that a parsed
    /// instant need not fall in the years 0000-9999: the text's own year
    /// has four digits, but an offset of up to ±23:59 can shift the
    /// UTC-normalized instant just past either boundary.
    pub open spec fn wf(self) -> bool {
        self.nanos < 2_000_000_000 && rfc3339_representable(self.secs, self.nanos)
    }

    /// Whether this instant falls in the years RFC3339 text can carry.
    pub fn in_text_range(&self) -> (r: bool)
        ensures
            r == rfc3339_four_digit_year(self.secs),
    {
        self.secs >= -62167219200 && self.secs < 253402300800
    }
}

/// Relies on chrono's `DateTime::parse_from_rfc3339`, normalized to UTC with
/// `with_timezone`, then read out with the `timestamp` and
/// `timestamp_subsec_nanos` accessors. The parsed instant is a function of
/// the text alone, its subsecond part is below 2,000,000,000, and chrono
/// documents that `DateTime::from_timestamp` reconstructs exactly the
/// instants read out this way, so every parsed instant is representable.
#[verifier::external_body]
pub fn parse_rfc3339(s: &str) -> (r: Option<Timestamp>)
    ensures
        r matches Some(t) ==> rfc3339_instant(s@) == Some((t.secs, t.nanos)) && t.wf(),
        r is None ==> rfc3339_instant(s@) is None,
{
    match chrono::DateTime::parse_from_rfc3339(s) {
        Ok(dt) => {
            let dt = dt.with_timezone(&chrono::Utc);
            Some(Timestamp { secs: dt.timestamp(), nanos: dt.timestamp_subsec_nanos() })
        }
        Err(_) => None,
    }
}

/// Relies on chrono's `DateTime::from_timestamp`, which succeeds exactly on
/// the representable range, and `to_rfc3339`. For an instant whose year has
/// four digits, the output is valid RFC3339 text of the same instant, so
/// parsing it back yields the instant again. Outside that range the writer
/// expands the year with a sign, a form the RFC3339 parser does not take,
/// so nothing is claimed of the text there.
#[verifier::external_body]
pub fn format_rfc3339(t: &Timestamp) -> (r: Option<String>)
    ensures
        rfc3339_four_digit_year(t.secs) ==> (r matches Some(s) ==> rfc3339_instant(s@) == Some(
            (t.secs, t.nanos),
        )),
        (r is Some) == rfc3339_representable(t.secs, t.nanos),
{
    chrono::DateTime::from_timestamp(t.secs, t.nanos).map(|dt| dt.to_rfc3339())
}

} // verus!
