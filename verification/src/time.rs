//! UTC instants as plain numbers, and their rendering through `chrono`.
use vstd::prelude::*;
use crate::text::push_str;

verus! {

/// The earliest second `chrono::DateTime<Utc>` can hold (1 January of year -262143).
pub const MIN_UNIX_SECS: i64 = -8334601228800i64;

/// The latest second `chrono::DateTime<Utc>` can hold (31 December of year 262142, 23:59:59).
pub const MAX_UNIX_SECS: i64 = 8210266876799i64;

/// Pattern of the time stamp printed in a report.
pub const REPORT_TIME_PATTERN: &'static str = "%Y-%m-%d %H:%M:%S UTC";

/// Pattern of the time stamp in the name of a report file.
pub const FILE_TIME_PATTERN: &'static str = "%Y%m%d-%H%M%S";

/// Whether `secs` seconds and `nanos` nanoseconds after the Unix epoch is an instant
/// `chrono` can represent: a second within its range, and nanoseconds below one
/// second, or below two on the last second of a minute (a leap second).
pub open spec fn valid_instant(secs: int, nanos: int) -> bool {
    &&& MIN_UNIX_SECS <= secs <= MAX_UNIX_SECS
    &&& nanos < 1_000_000_000 || (nanos < 2_000_000_000 && secs % 60 == 59)
}

/// The patterns this library formats instants with.
pub open spec fn known_pattern(pattern: Seq<char>) -> bool {
    pattern == REPORT_TIME_PATTERN@ || pattern == FILE_TIME_PATTERN@
}

/// What `chrono` prints for the UTC instant (`secs`, `nanos`) under `pattern`.
pub uninterp spec fn utc_format(secs: int, nanos: int, pattern: Seq<char>) -> Seq<char>;

/// Calls `chrono::DateTime::<Utc>::from_timestamp` and then `format(pattern)`.
/// `from_timestamp` returns `None` exactly outside the instants that `valid_instant`
/// describes (the contract states the direction callers need); the printed text is
/// named `utc_format`. Both patterns that `requires` admits are valid, so printing
/// does not fail.
#[verifier::external_body]
fn format_utc(secs: i64, nanos: u32, pattern: &str) -> (res: Option<String>)
    requires
        known_pattern(pattern@),
    ensures
        valid_instant(secs as int, nanos as int) ==> res is Some,
        res matches Some(s) ==> s@ == utc_format(secs as int, nanos as int, pattern@),
{
    match chrono::DateTime::from_timestamp(secs, nanos) {
        Some(dt) => Some(dt.format(pattern).to_string()),
        None => None,
    }
}

/// An instant in UTC, as seconds and nanoseconds since the Unix epoch.
#[derive(Clone, Copy, Debug)]
pub struct Timestamp {
    secs: i64,
    nanos: u32,
}

impl View for Timestamp {
    type V = (int, int);

    closed spec fn view(&self) -> (int, int) {
        (self.secs as int, self.nanos as int)
    }
}

impl Timestamp {
    #[verifier::type_invariant]
    closed spec fn wf(self) -> bool {
        valid_instant(self.secs as int, self.nanos as int)
    }

    /// The instant `secs` seconds and `nanos` nanoseconds after the epoch, if
    /// `chrono` can represent it.
    pub fn from_unix(secs: i64, nanos: u32) -> (res: Option<Timestamp>)
        ensures
            res is Some <==> valid_instant(secs as int, nanos as int),
            res matches Some(t) ==> t@ == (secs as int, nanos as int),
    {
        if secs < MIN_UNIX_SECS || secs > MAX_UNIX_SECS {
            return None;
        }
        let offset: u64 = (secs - MIN_UNIX_SECS) as u64;
        proof {
            let s = secs as int;
            assert(MIN_UNIX_SECS as int == -138910020480 * 60);
            assert((s - MIN_UNIX_SECS) % 60 == s % 60) by (nonlinear_arith)
                requires
                    MIN_UNIX_SECS as int == -138910020480 * 60,
            ;
        }
        if nanos < 1_000_000_000 || (nanos < 2_000_000_000 && offset % 60 == 59) {
            Some(Timestamp { secs, nanos })
        } else {
            None
        }
    }

    /// Seconds since the epoch.
    pub fn unix_secs(&self) -> (res: i64)
        ensures
            res as int == self@.0,
    {
        self.secs
    }

    /// Nanoseconds past the second.
    pub fn subsec_nanos(&self) -> (res: u32)
        ensures
            res as int == self@.1,
    {
        self.nanos
    }

    /// The instant printed under one of the library's patterns.
    pub fn format(&self, pattern: &str) -> (res: String)
        requires
            known_pattern(pattern@),
        ensures
            res@ == utc_format(self@.0, self@.1, pattern@),
    {
        proof {
            use_type_invariant(self);
        }
        match format_utc(self.secs, self.nanos, pattern) {
            Some(s) => s,
            None => {
                assert(false);
                String::new()
            },
        }
    }
}

/// The name of a report file: `report-`, the instant as `FILE_TIME_PATTERN`
/// prints it, then `extension` (such as `.md` or `.json`).
pub open spec fn report_file_name_spec(t: (int, int), extension: Seq<char>) -> Seq<char> {
    "report-"@ + utc_format(t.0, t.1, FILE_TIME_PATTERN@) + extension
}

/// Builds the name of a report file written at `at`.
pub fn report_file_name(at: &Timestamp, extension: &str) -> (res: String)
    ensures
        res@ == report_file_name_spec(at@, extension@),
{
    let mut s = String::new();
    push_str(&mut s, "report-");
    let stamp = at.format(FILE_TIME_PATTERN);
    push_str(&mut s, stamp.as_str());
    push_str(&mut s, extension);
    s
}

} // verus!
