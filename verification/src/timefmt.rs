use vstd::prelude::*;

verus! {

/// The earliest second that `chrono::DateTime<Utc>` can hold
/// (`DateTime::<Utc>::MIN_UTC`, -262143-01-01T00:00:00Z).
pub const MIN_UTC_SECS: i64 = -8334601228800i64;

/// The latest second that `chrono::DateTime<Utc>` can hold
/// (`DateTime::<Utc>::MAX_UTC`, +262142-12-31T23:59:59Z).
pub const MAX_UTC_SECS: i64 = 8210266876799i64;

/// A UTC instant: seconds since the Unix epoch and the nanoseconds within the
/// second (up to two seconds' worth during a leap second, as chrono keeps them).
#[derive(Clone, Copy, Debug, PartialEq, Eq, Structural)]
pub struct UtcTime {
    pub secs: i64,
    pub nanos: u32,
}

impl UtcTime {
    /// The instant is one that `chrono::DateTime<Utc>` can represent.
    pub open spec fn valid(self) -> bool {
        &&& MIN_UTC_SECS <= self.secs <= MAX_UTC_SECS
        &&& (self.nanos < 1_000_000_000 || (self.nanos < 2_000_000_000 && self.secs % 60 == 59))
    }

    /// Whether `valid` holds.
    pub fn is_valid(&self) -> (r: bool)
        ensures
            r == self.valid(),
    {
        if self.secs < MIN_UTC_SECS || self.secs > MAX_UTC_SECS {
            return false;
        }
        if self.nanos < 1_000_000_000 {
            return true;
        }
        if self.nanos >= 2_000_000_000 {
            return false;
        }
        if self.secs >= 0 {
            let s: u64 = self.secs as u64;
            s % 60 == 59
        } else {
            let a: u64 = (-(self.secs + 1)) as u64;
            assert((self.secs as int) % 60 == 59 <==> (a as int) % 60 == 0);
            a % 60 == 0
        }
    }
}

/// `DateTime::to_rfc3339` of the instant (offset written `+00:00`).
pub uninterp spec fn rfc3339_text(secs: int, nanos: int) -> Seq<char>;

/// `DateTime::format("%Y%m%d")` of the instant.
pub uninterp spec fn compact_date_text(secs: int, nanos: int) -> Seq<char>;

/// `DateTime<Utc>`'s `Display` text of the instant (`2023-01-01 00:00:00 UTC`).
pub uninterp spec fn display_text(secs: int, nanos: int) -> Seq<char>;

/// `DateTime::to_rfc3339_opts(SecondsFormat::Micros, true)` of the instant.
pub uninterp spec fn rfc3339_micros_text(secs: int, nanos: int) -> Seq<char>;

/// The instant that `Utc.datetime_from_str(s, fmt)` reads, if it reads one.
pub uninterp spec fn parsed_utc(s: Seq<char>, fmt: Seq<char>) -> Option<(int, int)>;

/// Calls `chrono::DateTime::<Utc>::to_rfc3339` on the instant made by
/// `DateTime::from_timestamp` (which gives `Some` for every valid instant).
/// The contract claims only the named result.
#[verifier::external_body]
pub(crate) fn format_rfc3339(t: UtcTime) -> (r: String)
    requires
        t.valid(),
    ensures
        r@ == rfc3339_text(t.secs as int, t.nanos as int),
{
    chrono::DateTime::from_timestamp(t.secs, t.nanos).unwrap().to_rfc3339()
}

/// Calls `chrono::DateTime::<Utc>::format("%Y%m%d")` and renders it with
/// `to_string`, on the instant made by `DateTime::from_timestamp`.
/// The contract claims only the named result.
#[verifier::external_body]
pub(crate) fn format_compact_date(t: UtcTime) -> (r: String)
    requires
        t.valid(),
    ensures
        r@ == compact_date_text(t.secs as int, t.nanos as int),
{
    chrono::DateTime::from_timestamp(t.secs, t.nanos).unwrap().format("%Y%m%d").to_string()
}

/// Calls the `Display` impl of `chrono::DateTime<Utc>` (through `to_string`)
/// on the instant made by `DateTime::from_timestamp`.
/// The contract claims only the named result.
#[verifier::external_body]
pub(crate) fn format_display(t: UtcTime) -> (r: String)
    requires
        t.valid(),
    ensures
        r@ == display_text(t.secs as int, t.nanos as int),
{
    chrono::DateTime::from_timestamp(t.secs, t.nanos).unwrap().to_string()
}

/// Calls `chrono::DateTime::<Utc>::to_rfc3339_opts(SecondsFormat::Micros, true)`
/// on the instant made by `DateTime::from_timestamp`.
/// The contract claims only the named result.
#[verifier::external_body]
pub(crate) fn format_rfc3339_micros(t: UtcTime) -> (r: String)
    requires
        t.valid(),
    ensures
        r@ == rfc3339_micros_text(t.secs as int, t.nanos as int),
{
    chrono::DateTime::from_timestamp(t.secs, t.nanos).unwrap().to_rfc3339_opts(chrono::SecondsFormat::Micros, true)
}

/// Calls `chrono::TimeZone::datetime_from_str` for `Utc`, and takes the instant
/// apart with `timestamp` and `timestamp_subsec_nanos`; a parse error becomes
/// its `Display` text. The contract claims that the call succeeds exactly when
/// the named `parsed_utc` is `Some`, that the instant is that one, and that it
/// is valid (a `DateTime<Utc>` lies between `MIN_UTC` and `MAX_UTC`, and keeps
/// more than a second of nanoseconds only in the 59th second of a minute).
/// What the error message says is not stated.
#[verifier::external_body]
#[allow(deprecated)]
pub(crate) fn parse_utc(s: &str, fmt: &str) -> (r: Result<UtcTime, String>)
    ensures
        r is Ok <==> parsed_utc(s@, fmt@) is Some,
        r matches Ok(t) ==> t.valid() && parsed_utc(s@, fmt@) == Some((t.secs as int, t.nanos as int)),
{
    match chrono::TimeZone::datetime_from_str(&chrono::Utc, s, fmt) {
        Ok(dt) => Ok(UtcTime { secs: dt.timestamp(), nanos: dt.timestamp_subsec_nanos() }),
        Err(e) => Err(e.to_string()),
    }
}

/// The format with which the ingestor reads back the `Display` text of a time.
pub open spec fn display_format() -> Seq<char> {
    "%Y-%m-%d %H:%M:%S%.f %Z"@
}

/// Why a time could not be read back: chrono's message.
#[derive(Debug)]
pub struct TimeParseError {
    pub message: String,
}

/// What `reformat_display_text` gives for a text: the instant read from it
/// with the display format, written in RFC 3339 with microseconds.
pub open spec fn read_back(shown: Seq<char>) -> Option<Seq<char>> {
    match parsed_utc(shown, display_format()) {
        Some((s, n)) => Some(rfc3339_micros_text(s, n)),
        None => None,
    }
}

/// What `reformat_utc` gives for an instant.
pub open spec fn reformatted(t: UtcTime) -> Option<Seq<char>> {
    read_back(display_text(t.secs as int, t.nanos as int))
}

/// Reads a time from its `Display` text with the format
/// `"%Y-%m-%d %H:%M:%S%.f %Z"`, and writes it in RFC 3339 with microseconds
/// and a `Z` suffix.
pub fn reformat_display_text(shown: &str) -> (r: Result<String, TimeParseError>)
    ensures
        r is Ok <==> read_back(shown@) is Some,
        r matches Ok(s) ==> Some(s@) == read_back(shown@),
{
    match parse_utc(shown, "%Y-%m-%d %H:%M:%S%.f %Z") {
        Ok(read) => Ok(format_rfc3339_micros(read)),
        Err(message) => Err(TimeParseError { message }),
    }
}

/// Prints the instant with `Display`, reads the text back with the format
/// `"%Y-%m-%d %H:%M:%S%.f %Z"`, and writes what was read in RFC 3339 with
/// microseconds and a `Z` suffix.
pub fn reformat_utc(t: UtcTime) -> (r: Result<String, TimeParseError>)
    requires
        t.valid(),
    ensures
        r is Ok <==> reformatted(t) is Some,
        r matches Ok(s) ==> Some(s@) == reformatted(t),
{
    let shown = format_display(t);
    reformat_display_text(shown.as_str())
}

} // verus!
