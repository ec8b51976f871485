//! Timestamps in ISO 8601 form, as device states carry them, counted in nanoseconds since
//! the Unix epoch.

use vstd::prelude::*;

verus! {

/// An instant, as nanoseconds since the Unix epoch (negative before it).
#[derive(Debug, Clone, Copy, PartialEq, Eq, Structural)]
pub struct Timestamp {
    /// Nanoseconds since 1970-01-01T00:00:00Z.
    pub unix_nanos: i128,
}

/// Nanoseconds in a second.
pub const NANOS_PER_SEC: u32 = 1_000_000_000;

/// An instant as a distance from the Unix epoch: which side of it, how many whole
/// seconds, and how many nanoseconds beyond them.
#[derive(Debug, Clone, Copy, PartialEq, Eq, Structural)]
pub struct EpochOffset {
    /// Whether the instant lies before the epoch.
    pub before_epoch: bool,
    /// Whole seconds between the epoch and the instant.
    pub secs: u128,
    /// Nanoseconds beyond the whole seconds (below one second).
    pub subsec_nanos: u32,
}

/// The distance of `unix_nanos` from the epoch, in nanoseconds.
pub open spec fn nanos_magnitude(unix_nanos: i128) -> int {
    if unix_nanos < 0 {
        -unix_nanos
    } else {
        unix_nanos as int
    }
}

impl Timestamp {
    /// The instant as a side of the epoch, whole seconds and nanoseconds left over.
    pub fn epoch_offset(self) -> (r: EpochOffset)
        ensures
            r.before_epoch == (self.unix_nanos < 0),
            r.subsec_nanos < NANOS_PER_SEC,
            r.secs * NANOS_PER_SEC + r.subsec_nanos == nanos_magnitude(self.unix_nanos),
    {
        let n = self.unix_nanos;
        let magnitude: u128 = if n >= 0 {
            n as u128
        } else {
            let below: i128 = -(n + 1);
            (below as u128) + 1
        };
        let per_sec: u128 = 1_000_000_000;
        let secs: u128 = magnitude / per_sec;
        let rest: u128 = magnitude % per_sec;
        assert(secs * per_sec + rest == magnitude) by (nonlinear_arith)
            requires
                secs == magnitude / per_sec,
                rest == magnitude % per_sec,
                per_sec > 0,
        ;
        EpochOffset { before_epoch: n < 0, secs, subsec_nanos: rest as u32 }
    }

    /// The instant `secs` seconds and `subsec_nanos` nanoseconds after the epoch, or that far
    /// before it when `before_epoch` holds.
    pub fn from_epoch_offset(before_epoch: bool, secs: u64, subsec_nanos: u32) -> (r: Self)
        requires
            subsec_nanos < NANOS_PER_SEC,
        ensures
            r.unix_nanos == (if before_epoch {
                -(secs * NANOS_PER_SEC + subsec_nanos)
            } else {
                secs * NANOS_PER_SEC + subsec_nanos
            }),
    {
        let per_sec: i128 = 1_000_000_000;
        assert(secs * per_sec + subsec_nanos <= 18_446_744_073_709_551_615 * 1_000_000_000
            + 1_000_000_000) by (nonlinear_arith)
            requires
                secs <= 18_446_744_073_709_551_615,
                per_sec == 1_000_000_000,
                subsec_nanos < 1_000_000_000,
        ;
        let magnitude: i128 = (secs as i128) * per_sec + (subsec_nanos as i128);
        let unix_nanos: i128 = if before_epoch { -magnitude } else { magnitude };
        Timestamp { unix_nanos }
    }
}

/// Splitting an instant into its distance from the epoch and building it back from that
/// distance gives the instant again.
pub proof fn lemma_epoch_offset_round_trip(t: Timestamp, o: EpochOffset)
    requires
        o.before_epoch == (t.unix_nanos < 0),
        o.subsec_nanos < NANOS_PER_SEC,
        o.secs * NANOS_PER_SEC + o.subsec_nanos == nanos_magnitude(t.unix_nanos),
    ensures
        t.unix_nanos == (if o.before_epoch {
            -(o.secs * NANOS_PER_SEC + o.subsec_nanos)
        } else {
            o.secs * NANOS_PER_SEC + o.subsec_nanos
        }),
{
}

/// The ISO 8601 text that the `time` crate writes for the instant `unix_nanos` (UTC,
/// `Iso8601::DEFAULT`), or nothing when the instant is out of its range.
pub uninterp spec fn iso8601_text(unix_nanos: i128) -> Option<Seq<char>>;

/// The instant, in nanoseconds since the epoch, that the `time` crate reads from an
/// ISO 8601 date and time without offset taken as UTC, or nothing when it does not parse.
pub uninterp spec fn iso8601_instant(text: Seq<char>) -> Option<i128>;

/// Writes an instant in ISO 8601 form with the `time` crate
/// (`OffsetDateTime::from_unix_timestamp_nanos`, then `OffsetDateTime::format` with
/// `Iso8601::DEFAULT`). The result is claimed to be [`iso8601_text`] of the instant, that
/// is, to depend on the instant alone; `None` when either call fails.
#[verifier::external_body]
fn format_iso8601(unix_nanos: i128) -> (r: Option<String>)
    ensures
        match r {
            Some(s) => iso8601_text(unix_nanos) == Some(s@),
            None => iso8601_text(unix_nanos) is None,
        },
{
    let t = time::OffsetDateTime::from_unix_timestamp_nanos(unix_nanos).ok()?;
    t.format(&time::format_description::well_known::Iso8601::DEFAULT).ok()
}

/// Reads an ISO 8601 date and time with the `time` crate (`PrimitiveDateTime::parse` with
/// `Iso8601::DEFAULT`), takes it as UTC (`assume_utc`) and counts its nanoseconds since the
/// epoch (`unix_timestamp_nanos`). The result is claimed to be [`iso8601_instant`] of the
/// text; `None` when it does not parse.
#[verifier::external_body]
fn parse_iso8601(text: &str) -> (r: Option<i128>)
    ensures
        r == iso8601_instant(text@),
{
    let t = time::PrimitiveDateTime::parse(text, &time::format_description::well_known::Iso8601::DEFAULT).ok()?;
    Some(t.assume_utc().unix_timestamp_nanos())
}

/// Why a timestamp could not be written or read.
#[derive(Debug, Clone, Copy, PartialEq, Eq, Structural)]
pub enum TimestampError {
    /// The instant lies outside the range the format can write.
    OutOfRange,
    /// The text is no ISO 8601 date and time.
    Invalid,
}

/// The timestamp in ISO 8601 form.
pub fn format_timestamp(t: Timestamp) -> (r: Result<String, TimestampError>)
    ensures
        match iso8601_text(t.unix_nanos) {
            Some(s) => r matches Ok(x) && x@ == s,
            None => r == Err::<String, TimestampError>(TimestampError::OutOfRange),
        },
{
    match format_iso8601(t.unix_nanos) {
        Some(s) => Ok(s),
        None => Err(TimestampError::OutOfRange),
    }
}

/// The timestamp an ISO 8601 date and time stands for, taken as UTC.
pub fn parse_timestamp(text: &str) -> (r: Result<Timestamp, TimestampError>)
    ensures
        match iso8601_instant(text@) {
            Some(n) => r == Ok::<Timestamp, TimestampError>(Timestamp { unix_nanos: n }),
            None => r == Err::<Timestamp, TimestampError>(TimestampError::Invalid),
        },
{
    match parse_iso8601(text) {
        Some(n) => Ok(Timestamp { unix_nanos: n }),
        None => Err(TimestampError::Invalid),
    }
}

} // verus!
