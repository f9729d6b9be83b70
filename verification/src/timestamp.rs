use vstd::prelude::*;

verus! {

/// An instant in time: seconds and subsecond nanoseconds since the Unix
/// epoch, interpreted as UTC.  This is the canonical timestamp of the
/// unified schema; native date strings are parsed into it and rendered
/// back out of it at the format boundaries.
#[derive(Clone, Copy, PartialEq, Eq, Structural, Debug)]
pub struct Timestamp {
    pub secs: i64,
    pub nanos: u32,
}

/// The UTC instant that an RFC 2822 date string denotes, if it denotes one.
/// Names the result of chrono's `DateTime::parse_from_rfc2822`, which is a
/// pure function of the input text.
pub uninterp spec fn rfc2822_date_of(s: Seq<char>) -> Option<Timestamp>;

/// The RFC 2822 rendering of a UTC instant.  Names the result of chrono's
/// `DateTime::to_rfc2822` on that instant, a pure function of it.
pub uninterp spec fn rfc2822_string_of(t: Timestamp) -> Seq<char>;

/// Relies on chrono's `DateTime::parse_from_rfc2822`: parsing is a pure
/// function of the input text, and the parsed instant is normalized to UTC
/// by `timestamp` / `timestamp_subsec_nanos`.
#[verifier::external_body]
pub fn parse_rfc2822(s: &str) -> (r: Option<Timestamp>)
    ensures
        r == rfc2822_date_of(s@),
{
    match chrono::DateTime::parse_from_rfc2822(s) {
        Ok(d) => Some(Timestamp { secs: d.timestamp(), nanos: d.timestamp_subsec_nanos() }),
        Err(_) => None,
    }
}

/// Relies on chrono's `DateTime::to_rfc2822`, a pure function of the
/// instant.  RFC 2822 covers only the years 0 through 9999 and chrono
/// panics beyond them, so instants chrono cannot construct or that fall
/// outside that range are rendered as the epoch instead, keeping the
/// function total and still a function of `t`.
#[verifier::external_body]
pub fn format_rfc2822(t: Timestamp) -> (r: String)
    ensures
        r@ == rfc2822_string_of(t),
{
    let epoch = chrono::DateTime::<chrono::Utc>::UNIX_EPOCH;
    let utc = chrono::DateTime::<chrono::Utc>::from_timestamp(t.secs, t.nanos).unwrap_or(epoch);
    let year = chrono::Datelike::year(&utc);
    if year < 0 || year > 9999 {
        epoch.to_rfc2822()
    } else {
        utc.to_rfc2822()
    }
}

/// Relies on chrono's `Utc::now` for the current wall-clock time.  Nothing
/// is assumed about the returned value: callers state what holds of every
/// outcome.
#[verifier::external_body]
pub fn now_utc() -> (r: Timestamp) {
    let n = chrono::Utc::now();
    Timestamp { secs: n.timestamp(), nanos: n.timestamp_subsec_nanos() }
}

} // verus!
