//! Instants of chat messages and log lines, and their RFC 3339 text.

use vstd::prelude::*;

verus! {

/// An instant: whole seconds since the Unix epoch and the nanoseconds past them.
#[derive(Clone, Copy, Debug, PartialEq, Eq, Structural)]
pub struct Timestamp {
    pub secs: i64,
    pub nanos: u32,
}

/// RFC 3339 text (whole seconds, `Z` for a zero offset) of the instant `secs`
/// seen at a fixed offset of `offset_secs` seconds east of UTC, as chrono
/// writes it; `None` when chrono cannot represent the instant, the offset, or
/// the local date and time that the offset gives.
pub uninterp spec fn rfc3339_text(secs: i64, offset_secs: i32) -> Option<Seq<char>>;

/// The current instant (`chrono::Utc::now`). It depends on the clock, so
/// nothing is stated of it but that the nanoseconds are below one second.
#[verifier::external_body]
pub(crate) fn now() -> (t: Timestamp)
    ensures
        t.nanos < 1_000_000_000,
{
    let now = chrono::Utc::now();
    Timestamp { secs: now.timestamp(), nanos: now.timestamp_subsec_nanos() }
}

/// The offset of the local time zone east of UTC, in seconds, as chrono
/// gives it for the current instant (`Local::now().offset()`). It depends on
/// the machine; chrono keeps every fixed offset strictly within one day.
#[verifier::external_body]
pub(crate) fn local_offset_secs() -> (o: i32)
    ensures
        -86_400 < o < 86_400,
{
    chrono::Offset::fix(chrono::Local::now().offset()).local_minus_utc()
}

/// `DateTime::to_rfc3339_opts(SecondsFormat::Secs, true)` of the instant
/// `secs` at the fixed offset `offset_secs` (`DateTime::from_timestamp`,
/// `FixedOffset::east_opt`, `with_timezone`). `to_rfc3339_opts` panics where
/// the offset pushes the local date and time out of chrono's range, so that
/// case is first told apart by `NaiveDateTime::checked_add_offset`, and gives
/// `None` like the other cases chrono refuses.
#[verifier::external_body]
pub(crate) fn rfc3339_secs(secs: i64, offset_secs: i32) -> (r: Option<String>)
    ensures
        match r {
            Some(s) => rfc3339_text(secs, offset_secs) == Some(s@),
            None => rfc3339_text(secs, offset_secs) is None,
        },
{
    let t = chrono::DateTime::from_timestamp(secs, 0)?;
    let o = chrono::FixedOffset::east_opt(offset_secs)?;
    let _local = t.naive_utc().checked_add_offset(o)?;
    Some(t.with_timezone(&o).to_rfc3339_opts(chrono::SecondsFormat::Secs, true))
}

} // verus!

verus! {

/// RFC 3339 text of an instant in UTC as `DateTime::<Utc>::to_rfc3339`
/// writes it (fractional seconds only when there are nanoseconds, `+00:00`);
/// `None` when chrono cannot represent the instant.
pub uninterp spec fn rfc3339_utc_text(secs: i64, nanos: u32) -> Option<Seq<char>>;

/// `DateTime::<Utc>::to_rfc3339` of the instant (`DateTime::from_timestamp`).
#[verifier::external_body]
pub(crate) fn rfc3339_utc(t: Timestamp) -> (r: Option<String>)
    ensures
        match r {
            Some(s) => rfc3339_utc_text(t.secs, t.nanos) == Some(s@),
            None => rfc3339_utc_text(t.secs, t.nanos) is None,
        },
{
    chrono::DateTime::from_timestamp(t.secs, t.nanos).map(|d| d.to_rfc3339())
}

} // verus!
