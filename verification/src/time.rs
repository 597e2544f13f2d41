//! Moments and their RFC 3339 form, through `chrono`.

use crate::model::Moment;
use vstd::prelude::*;

verus! {

/// The first second of the year 1.
pub const FIRST_SECOND: i64 = -62_135_596_800;

/// The last second of the year 9999.
pub const LAST_SECOND: i64 = 253_402_300_799;

/// The nanoseconds of a second.
pub const NANOS_PER_SECOND: i128 = 1_000_000_000;

/// Whether a moment lies in the years from 1 to 9999, which are written with four digits, and is no
/// leap second.
pub open spec fn common_era(m: Moment) -> bool {
    FIRST_SECOND <= m.seconds <= LAST_SECOND && m.nanos < 1_000_000_000
}

/// The RFC 3339 form of a moment of UTC.
pub uninterp spec fn moment_text(seconds: int, nanos: int) -> Seq<char>;

/// The moment that a text denotes in the relaxed form of RFC 3339 that `chrono` reads.
pub uninterp spec fn text_moment(text: Seq<char>) -> Option<(int, int)>;

/// `chrono::DateTime::to_rfc3339_opts` with as many digits of the second as it needs and with `Z`,
/// which is how `chrono` serializes a moment. The text is named by `moment_text`, and reads back
/// as the same moment.
#[verifier::external_body]
pub(crate) fn format_moment(m: Moment) -> (r: String)
    requires
        common_era(m),
    ensures
        r@ == moment_text(m.seconds as int, m.nanos as int),
        text_moment(r@) == Some((m.seconds as int, m.nanos as int)),
{
    let t = chrono::DateTime::from_timestamp(m.seconds, m.nanos).unwrap_or_default();
    t.to_rfc3339_opts(chrono::SecondsFormat::AutoSi, true)
}

/// `str::parse` into a `chrono::DateTime<chrono::Utc>`: which texts denote a moment, and which, is
/// named by `text_moment`.
#[verifier::external_body]
pub(crate) fn parse_moment(text: &str) -> (r: Option<Moment>)
    ensures
        match r {
            Some(m) => text_moment(text@) == Some((m.seconds as int, m.nanos as int)),
            None => text_moment(text@) is None,
        },
{
    let t = text.parse::<chrono::DateTime<chrono::Utc>>().ok()?;
    Some(Moment { seconds: t.timestamp(), nanos: t.timestamp_subsec_nanos() })
}

/// The nanoseconds since the start of 1970, where they fit in 64 bits; zero otherwise.
pub open spec fn stamp(m: Moment) -> int {
    let all = m.seconds * 1_000_000_000 + m.nanos;
    if i64::MIN <= all <= i64::MAX {
        all
    } else {
        0
    }
}

/// Counts the nanoseconds since the start of 1970.
pub fn stamp_of(m: Moment) -> (r: i64)
    ensures
        r == stamp(m),
{
    let all: i128 = m.seconds as i128 * NANOS_PER_SECOND + m.nanos as i128;
    if i64::MIN as i128 <= all && all <= i64::MAX as i128 {
        all as i64
    } else {
        0
    }
}

} // verus!
