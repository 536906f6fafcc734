//! The time field: formats the current time, adjusted by the configured
//! offset, per the configured format. The calls into the date and time
//! library stand behind trusted wrappers; everything around them is
//! verified.

use crate::config::{valid_offset, Config, TimeFormat, TimeOffset};
use std::fmt::Write;
use vstd::prelude::*;

verus! {

/// A failure of the rendering engine: a custom time pattern the formatter
/// rejects, or a fixed time offset of a day or more.
#[derive(Debug, Clone, Copy, PartialEq, Eq)]
pub enum FormatError {
    /// The configured custom time pattern cannot be formatted.
    InvalidTimePattern,
    /// The configured fixed time offset lies out of range.
    InvalidTimeOffset,
}

/// Whether the strftime formatter accepts the pattern. Acceptance depends
/// on the pattern alone: a malformed pattern produces an error item that
/// fails formatting whatever the date, and every well-formed item formats
/// for any real date and offset.
pub uninterp spec fn strftime_ok(p: Seq<char>) -> bool;

/// Whether the configured offset can be formatted: the local offset
/// always, a fixed one exactly when it is within range.
pub open spec fn offset_ok(o: TimeOffset) -> bool {
    match o {
        TimeOffset::Local => true,
        TimeOffset::Fixed(s) => valid_offset(s as int),
    }
}

/// Whether the configured time formats, whatever the clock says: the
/// offset must be formattable, and a custom pattern must be one the
/// formatter accepts.
pub open spec fn time_config_ok(c: Config) -> bool {
    &&& offset_ok(c.time_offset)
    &&& match c.time_format {
        TimeFormat::Custom(p) => strftime_ok(p@),
        _ => true,
    }
}

/// Relies on `chrono::Local::now` and `chrono::DateTime::to_rfc2822`:
/// formats the current local time in the RFC 2822 format, which is never
/// empty. Nothing more is promised of the text, which depends on the clock
/// and the time zone.
#[verifier::external_body]
fn now_rfc2822_local() -> (r: String)
    ensures
        r@.len() > 0,
{
    chrono::Local::now().to_rfc2822()
}

/// Relies on `chrono::Local::now` and `chrono::DateTime::to_rfc3339`:
/// formats the current local time in the RFC 3339 format, which is never
/// empty. Nothing more is promised of the text, which depends on the clock
/// and the time zone.
#[verifier::external_body]
fn now_rfc3339_local() -> (r: String)
    ensures
        r@.len() > 0,
{
    chrono::Local::now().to_rfc3339()
}

/// Relies on `chrono::DateTime::format` with strftime patterns: formats
/// the current local time with the given pattern. Whether formatting
/// succeeds depends on the pattern alone — a malformed pattern yields an
/// error item that fails the write, and an accepted one formats for any
/// real date — named here by [`strftime_ok`]. Nothing is promised of the
/// text, which depends on the clock and the time zone.
#[verifier::external_body]
fn now_custom_local(pattern: &str) -> (r: Option<String>)
    ensures
        r is Some <==> strftime_ok(pattern@),
{
    let mut s = String::new();
    match write!(s, "{}", chrono::Local::now().format(pattern)) {
        Ok(()) => Some(s),
        Err(_) => None,
    }
}

/// Relies on `chrono::FixedOffset::east_opt`, whose documentation promises
/// `Some` exactly for offsets strictly within one day of UTC, and on
/// `chrono::DateTime::to_rfc2822`, whose result is never empty. Nothing
/// more is promised of the text, which depends on the clock.
#[verifier::external_body]
fn now_rfc2822_fixed(secs: i32) -> (r: Option<String>)
    ensures
        r is Some <==> valid_offset(secs as int),
        r matches Some(t) ==> t@.len() > 0,
{
    let offset = chrono::FixedOffset::east_opt(secs)?;
    Some(chrono::Utc::now().with_timezone(&offset).to_rfc2822())
}

/// Relies on `chrono::FixedOffset::east_opt`, whose documentation promises
/// `Some` exactly for offsets strictly within one day of UTC, and on
/// `chrono::DateTime::to_rfc3339`, whose result is never empty. Nothing
/// more is promised of the text, which depends on the clock.
#[verifier::external_body]
fn now_rfc3339_fixed(secs: i32) -> (r: Option<String>)
    ensures
        r is Some <==> valid_offset(secs as int),
        r matches Some(t) ==> t@.len() > 0,
{
    let offset = chrono::FixedOffset::east_opt(secs)?;
    Some(chrono::Utc::now().with_timezone(&offset).to_rfc3339())
}

/// Relies on `chrono::FixedOffset::east_opt` and on
/// `chrono::DateTime::format` with strftime patterns: formats the current
/// time at the given offset with the given pattern. The call succeeds
/// exactly when the offset is within range and the formatter accepts the
/// pattern (see [`strftime_ok`]); nothing is promised of the text, which
/// depends on the clock.
#[verifier::external_body]
fn now_custom_fixed(pattern: &str, secs: i32) -> (r: Option<String>)
    ensures
        r is Some <==> (valid_offset(secs as int) && strftime_ok(pattern@)),
{
    let offset = chrono::FixedOffset::east_opt(secs)?;
    let mut s = String::new();
    match write!(s, "{}", chrono::Utc::now().with_timezone(&offset).format(pattern)) {
        Ok(()) => Some(s),
        Err(_) => None,
    }
}

/// Writes the current time, adjusted by the configured offset, in the
/// configured format. It succeeds exactly when the offset is formattable
/// and any custom pattern is one the formatter accepts; an out-of-range
/// offset and a rejected pattern each surface as their own error, never as
/// degraded output. The two fixed formats never yield an empty timestamp.
pub fn write_time(config: &Config) -> (r: Result<String, FormatError>)
    ensures
        r is Ok <==> time_config_ok(*config),
        r == Err::<String, FormatError>(FormatError::InvalidTimeOffset) <==> !offset_ok(
            config.time_offset,
        ),
        r == Err::<String, FormatError>(FormatError::InvalidTimePattern) <==> (offset_ok(
            config.time_offset,
        ) && (config.time_format matches TimeFormat::Custom(p) && !strftime_ok(p@))),
        config.time_format is Rfc2822 || config.time_format is Rfc3339 ==> (r matches Ok(t)
            ==> t@.len() > 0),
{
    match &config.time_format {
        TimeFormat::Rfc2822 => {
            match config.time_offset {
                TimeOffset::Local => Ok(now_rfc2822_local()),
                TimeOffset::Fixed(s) => {
                    match now_rfc2822_fixed(s) {
                        Some(t) => Ok(t),
                        None => Err(FormatError::InvalidTimeOffset),
                    }
                },
            }
        },
        TimeFormat::Rfc3339 => {
            match config.time_offset {
                TimeOffset::Local => Ok(now_rfc3339_local()),
                TimeOffset::Fixed(s) => {
                    match now_rfc3339_fixed(s) {
                        Some(t) => Ok(t),
                        None => Err(FormatError::InvalidTimeOffset),
                    }
                },
            }
        },
        TimeFormat::Custom(p) => {
            match config.time_offset {
                TimeOffset::Local => {
                    match now_custom_local(p.as_str()) {
                        Some(t) => Ok(t),
                        None => Err(FormatError::InvalidTimePattern),
                    }
                },
                TimeOffset::Fixed(s) => {
                    if !(-86400 < s && s < 86400) {
                        Err(FormatError::InvalidTimeOffset)
                    } else {
                        match now_custom_fixed(p.as_str(), s) {
                            Some(t) => Ok(t),
                            None => Err(FormatError::InvalidTimePattern),
                        }
                    }
                },
            }
        },
    }
}

} // verus!
