//! Times and durations from text. The grammar is that of the `ixdtf` crate;
//! this module hands the text to its parsers and takes plain records back.

use vstd::prelude::*;

use crate::error::{range_error, TemporalError};

verus! {

/// A parsed time of day: hour, minute, second, and the fraction of the second
/// in nanoseconds.
#[derive(Debug, Clone, Copy, PartialEq, Eq, Structural)]
pub struct TimeRecord {
    pub hour: u8,
    pub minute: u8,
    pub second: u8,
    pub nanosecond: u32,
}

/// The date part of a parsed duration.
#[derive(Debug, Clone, Copy, PartialEq, Eq, Structural)]
pub struct DateDurationRecord {
    pub years: u32,
    pub months: u32,
    pub weeks: u32,
    pub days: u32,
}

/// The time part of a parsed duration, named after its finest unit. The
/// fraction is that of the finest unit, in nanoseconds.
#[allow(inconsistent_fields)]
#[derive(Debug, Clone, Copy, PartialEq, Eq, Structural)]
pub enum TimeDurationRecord {
    Hours { hours: u32, fraction: u64 },
    Minutes { hours: u32, minutes: u32, fraction: u64 },
    Seconds { hours: u32, minutes: u32, seconds: u32, fraction: u32 },
}

/// A parsed duration.
#[derive(Debug, Clone, Copy, PartialEq, Eq, Structural)]
pub struct DurationRecord {
    /// -1 for a duration that runs backward, 1 for one that runs forward.
    pub sign: i8,
    pub date: Option<DateDurationRecord>,
    pub time: Option<TimeDurationRecord>,
}

/// Whether a character separates a number from its fraction.
pub open spec fn is_decimal_separator(c: char) -> bool {
    c == '.' || c == ','
}

/// Whether a character is one of the digits 0 to 9.
pub open spec fn is_digit(c: char) -> bool {
    48 <= c as u32 <= 57
}

/// Whether the `count` characters from `start` on are all there and all
/// digits.
pub open spec fn digits_at(text: Seq<char>, start: int, count: int) -> bool {
    forall|k: int|
        start <= k < start + count ==> 0 <= k < text.len() && is_digit(#[trigger] text[k])
}

/// Whether some decimal separator of the text is followed by ten digits: a
/// fraction finer than any that a time or a duration admits.
pub open spec fn has_long_fraction(text: Seq<char>) -> bool {
    exists|i: int|
        0 <= i < text.len() && is_decimal_separator(#[trigger] text[i]) && digits_at(
            text,
            i + 1,
            10,
        )
}

/// What `IxdtfParser::parse_time` makes of a text: the time, or nothing where
/// the text is no time.
pub uninterp spec fn parsed_time(source: Seq<char>) -> Option<TimeRecord>;

/// What `IxdtfParser::parse` makes of a text: the time of a date and time, or
/// nothing where the text is no date and time or gives no time.
pub uninterp spec fn parsed_date_time(source: Seq<char>) -> Option<TimeRecord>;

/// What `IsoDurationParser::parse` makes of a text: the duration, or nothing
/// where the text is no duration.
pub uninterp spec fn parsed_duration(source: Seq<char>) -> Option<DurationRecord>;

/// Parses a time with `ixdtf::parsers::IxdtfParser::parse_time`, and hands out
/// the time of its record; nothing where the parser fails. The parser is not
/// called on a fraction of ten digits.
#[verifier::external_body]
fn ixdtf_parse_time(source: &str) -> (parsed: Option<TimeRecord>)
    requires
        !has_long_fraction(source@),
    ensures
        parsed == parsed_time(source@),
{
    let record = ixdtf::parsers::IxdtfParser::from_str(source).parse_time().ok()?;
    let time = record.time?;
    Some(
        TimeRecord {
            hour: time.hour,
            minute: time.minute,
            second: time.second,
            nanosecond: time.nanosecond,
        },
    )
}

/// Parses a date and time with `ixdtf::parsers::IxdtfParser::parse`, and
/// hands out the time of its record; nothing where the parser fails or the
/// record has no time. The parser is not called on a fraction of ten digits.
#[verifier::external_body]
fn ixdtf_parse_date_time(source: &str) -> (parsed: Option<TimeRecord>)
    requires
        !has_long_fraction(source@),
    ensures
        parsed == parsed_date_time(source@),
{
    let record = ixdtf::parsers::IxdtfParser::from_str(source).parse().ok()?;
    let time = record.time?;
    Some(
        TimeRecord {
            hour: time.hour,
            minute: time.minute,
            second: time.second,
            nanosecond: time.nanosecond,
        },
    )
}

/// Parses a duration with `ixdtf::parsers::IsoDurationParser::parse`, and
/// hands out its record field by field; nothing where the parser fails. The
/// parser is not called on a fraction of ten digits.
#[verifier::external_body]
fn ixdtf_parse_duration(source: &str) -> (parsed: Option<DurationRecord>)
    requires
        !has_long_fraction(source@),
    ensures
        parsed == parsed_duration(source@),
{
    let record = ixdtf::parsers::IsoDurationParser::from_str(source).parse().ok()?;
    let date = record.date.map(
        |d| DateDurationRecord { years: d.years, months: d.months, weeks: d.weeks, days: d.days },
    );
    let time = record.time.map(|t| match t {
        ixdtf::parsers::records::TimeDurationRecord::Hours { hours, fraction } =>
            TimeDurationRecord::Hours { hours, fraction },
        ixdtf::parsers::records::TimeDurationRecord::Minutes { hours, minutes, fraction } =>
            TimeDurationRecord::Minutes { hours, minutes, fraction },
        ixdtf::parsers::records::TimeDurationRecord::Seconds { hours, minutes, seconds, fraction } =>
            TimeDurationRecord::Seconds { hours, minutes, seconds, fraction },
    });
    Some(DurationRecord { sign: record.sign as i8, date, time })
}

/// Whether the ten characters from `start` on are all there and all digits.
fn ten_digits_at(source: &str, length: usize, start: usize) -> (yes: bool)
    requires
        length == source@.len(),
        start <= length,
    ensures
        yes == digits_at(source@, start as int, 10),
{
    if length - start < 10 {
        proof {
            if digits_at(source@, start as int, 10) {
                assert(is_digit(source@[start + 9]));
            }
        }
        return false;
    }
    let mut count: usize = 0;
    while count < 10
        invariant
            length == source@.len(),
            start + 10 <= length,
            count <= 10,
            digits_at(source@, start as int, count as int),
        decreases 10 - count,
    {
        let code: u32 = source.get_char(start + count) as u32;
        if !(48 <= code && code <= 57) {
            return false;
        }
        count = count + 1;
    }
    true
}

/// Whether some decimal separator of the text is followed by ten digits.
pub fn contains_long_fraction(source: &str) -> (yes: bool)
    ensures
        yes == has_long_fraction(source@),
{
    let length: usize = source.unicode_len();
    let mut index: usize = 0;
    while index < length
        invariant
            length == source@.len(),
            index <= length,
            forall|i: int|
                0 <= i < index ==> !(is_decimal_separator(#[trigger] source@[i]) && digits_at(
                    source@,
                    i + 1,
                    10,
                )),
        decreases length - index,
    {
        let c: char = source.get_char(index);
        if (c == '.' || c == ',') && ten_digits_at(source, length, index + 1) {
            return true;
        }
        index = index + 1;
    }
    false
}

/// The time that two parses of one text give: that of the text read as a
/// time, or else that of the text read as a date and time. A range error
/// where both fail.
pub open spec fn time_of_parses(
    as_time: Option<TimeRecord>,
    as_date_time: Option<TimeRecord>,
) -> Result<TimeRecord, TemporalError> {
    match as_time {
        Some(time) => Ok(time),
        None => match as_date_time {
            Some(time) => Ok(time),
            None => Err(range_error()),
        },
    }
}

/// The time that a text gives: a range error where a decimal separator is
/// followed by ten digits, and else what its two parses give.
pub open spec fn time_of_text(source: Seq<char>) -> Result<TimeRecord, TemporalError> {
    if has_long_fraction(source) {
        Err(range_error())
    } else {
        time_of_parses(parsed_time(source), parsed_date_time(source))
    }
}

/// The duration that a text gives: nothing where a decimal separator is
/// followed by ten digits, and else what its parse gives.
pub open spec fn duration_of_text(source: Seq<char>) -> Option<DurationRecord> {
    if has_long_fraction(source) {
        None
    } else {
        parsed_duration(source)
    }
}

/// Picks the time that two parses of one text give.
pub fn select_time(as_time: Option<TimeRecord>, as_date_time: Option<TimeRecord>) -> (result:
    Result<TimeRecord, TemporalError>)
    ensures
        result == time_of_parses(as_time, as_date_time),
{
    match as_time {
        Some(time) => Ok(time),
        None => match as_date_time {
            Some(time) => Ok(time),
            None => Err(TemporalError::range()),
        },
    }
}

/// Reads a time of day from a text that holds a time, or a date and time.
pub fn parse_time(source: &str) -> (result: Result<TimeRecord, TemporalError>)
    ensures
        result == time_of_text(source@),
{
    if contains_long_fraction(source) {
        return Err(TemporalError::range());
    }
    let as_time: Option<TimeRecord> = ixdtf_parse_time(source);
    if as_time.is_some() {
        return select_time(as_time, None);
    }
    select_time(as_time, ixdtf_parse_date_time(source))
}

/// Reads the record of a duration from a text.
pub fn parse_duration(source: &str) -> (result: Option<DurationRecord>)
    ensures
        result == duration_of_text(source@),
{
    if contains_long_fraction(source) {
        return None;
    }
    ixdtf_parse_duration(source)
}

} // verus!
