use vstd::prelude::*;

verus! {

/// The error that chrono reports for text it cannot read as a date and time.
#[verifier::external_type_specification]
#[verifier::external_body]
pub struct ExParseError(chrono::ParseError);

/// An instant on the UTC time scale: whole seconds since 1970-01-01T00:00:00Z
/// and the nanoseconds past that second.
#[derive(Debug, Clone, Copy, PartialEq, Eq, Structural)]
pub struct Timestamp {
    pub secs: i64,
    pub nanos: u32,
}

/// The instant that a text denotes when read as an RFC 3339 date and time
/// (seconds and nanoseconds as in [`Timestamp`]), or `None` where the text is
/// not such a date and time.
pub uninterp spec fn rfc3339_instant(text: Seq<char>) -> Option<(i64, u32)>;

/// Calls `chrono::DateTime::parse_from_rfc3339` and hands back the parsed
/// instant as `timestamp()` and `timestamp_subsec_nanos()` give it.
///
/// Trusted: the result is the instant named by [`rfc3339_instant`] for this
/// text, and an error comes back exactly where that names none.
#[verifier::external_body]
fn parse_rfc3339(text: &str) -> (r: Result<(i64, u32), chrono::ParseError>)
    ensures
        match r {
            Ok(instant) => rfc3339_instant(text@) == Some(instant),
            Err(_) => rfc3339_instant(text@).is_none(),
        },
{
    let parsed = chrono::DateTime::parse_from_rfc3339(text)?;
    Ok((parsed.timestamp(), parsed.timestamp_subsec_nanos()))
}

/// The RFC 3339 text of the instant `secs` seconds and `nanos` nanoseconds
/// after the epoch, in UTC and marked `Z`, with as many digits of the
/// fraction as it needs in groups of three; `None` where chrono has no date
/// and time for the instant.
pub uninterp spec fn rfc3339_text(secs: i64, nanos: u32) -> Option<Seq<char>>;

/// Calls `chrono::DateTime::from_timestamp` and, on the date and time it
/// gives, `to_rfc3339_opts` with `SecondsFormat::AutoSi` and `Z` for UTC.
///
/// Trusted: the result is the text named by [`rfc3339_text`] for this
/// instant, and nothing comes back exactly where that names none.
#[verifier::external_body]
fn format_rfc3339(secs: i64, nanos: u32) -> (r: Option<String>)
    ensures
        match r {
            Some(text) => rfc3339_text(secs, nanos) == Some(text@),
            None => rfc3339_text(secs, nanos).is_none(),
        },
{
    match chrono::DateTime::from_timestamp(secs, nanos) {
        Some(instant) => Some(instant.to_rfc3339_opts(chrono::SecondsFormat::AutoSi, true)),
        None => None,
    }
}

impl Timestamp {
    /// The timestamp that a parsed instant stands for.
    pub open spec fn of(instant: (i64, u32)) -> Timestamp {
        Timestamp { secs: instant.0, nanos: instant.1 }
    }

    /// The instant `secs` seconds and `nanos` nanoseconds after the epoch.
    pub fn new(secs: i64, nanos: u32) -> (r: Timestamp)
        ensures
            r == (Timestamp { secs, nanos }),
    {
        Timestamp { secs, nanos }
    }

    /// The instant as an RFC 3339 date and time in UTC, such as
    /// `2020-07-02T19:30:00Z`; none for an instant beyond the dates that can
    /// be written.
    pub fn to_rfc3339(&self) -> (r: Option<String>)
        ensures
            match r {
                Some(text) => rfc3339_text(self.secs, self.nanos) == Some(text@),
                None => rfc3339_text(self.secs, self.nanos).is_none(),
            },
    {
        format_rfc3339(self.secs, self.nanos)
    }

    /// Reads an RFC 3339 date and time, such as `2020-07-02T19:30:00Z` or
    /// `1996-12-19T16:39:57-08:00`.
    pub fn parse(text: &str) -> (r: Result<Timestamp, chrono::ParseError>)
        ensures
            r.is_ok() == rfc3339_instant(text@).is_some(),
            r.is_ok() ==> r.unwrap() == Timestamp::of(rfc3339_instant(text@).unwrap()),
    {
        match parse_rfc3339(text) {
            Ok(instant) => Ok(Timestamp { secs: instant.0, nanos: instant.1 }),
            Err(e) => Err(e),
        }
    }
}

} // verus!
