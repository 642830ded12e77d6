//! Reads the stamp at the start of a line.
//!
//! A stamped line starts with `[`, and a `]` follows somewhere in it. What
//! stands between the `[` and the first `]` is the stamp, whatever comes
//! after. The stamp is then read as an RFC 3339 date and time with its
//! offset from UTC.

use vstd::prelude::*;
use vstd::string::StrSliceExecFns;

verus! {

/// Why a line gave no time.
#[derive(Debug, Clone, Copy, PartialEq, Eq, Structural)]
pub enum ExtractError {
    /// The line does not start with `[`, or no `]` follows in it.
    Unmatched,
    /// The line starts with a stamp in brackets, but the stamp is no date
    /// and time.
    MalformedTimestamp,
}

/// The line starts with `[`, and its first `]` stands at place `end`.
pub open spec fn closes_at(line: Seq<char>, end: int) -> bool {
    &&& 1 <= end < line.len()
    &&& line[0] == '['
    &&& line[end] == ']'
    &&& forall|i: int| 1 <= i < end ==> line[i] != ']'
}

/// The stamp of the line: the text between the `[` that the line starts
/// with and the first `]` after it. A line that does not start with `[`,
/// or in which no `]` follows, has none.
pub open spec fn stamp_of(line: Seq<char>) -> Option<Seq<char>> {
    if exists|end: int| closes_at(line, end) {
        Some(line.subrange(1, choose|end: int| closes_at(line, end)))
    } else {
        None
    }
}

/// Finds the stamp at the start of the line. The time it takes grows with
/// the length of the line and no faster.
pub fn bracketed_stamp<'a>(line: &'a str) -> (stamp: Option<&'a str>)
    ensures
        match stamp {
            Some(text) => stamp_of(line@) == Some(text@),
            None => stamp_of(line@) is None,
        },
{
    let len: usize = line.unicode_len();
    let mut at: usize = 0;
    for c in it: line.chars()
        invariant
            len == line@.len(),
            it.seq() == line@,
            at == it.index(),
            at > 0 ==> line@[0] == '[',
            forall|i: int| 1 <= i < at ==> line@[i] != ']',
    {
        if at == 0 {
            if c != '[' {
                return None;
            }
        } else if c == ']' {
            assert(closes_at(line@, at as int));
            return Some(line.substring_char(1, at));
        }
        at = at + 1;
    }
    None
}

/// `chrono::ParseError`, the error of chrono's parsers. Nothing is read
/// from it.
#[verifier::external_type_specification]
#[verifier::external_body]
pub struct ExParseError(chrono::ParseError);

/// The time that `text` stands for when chrono reads it as an RFC 3339
/// date and time, in milliseconds since the epoch; `None` where chrono
/// does not take `text` for one.
pub uninterp spec fn rfc3339_millis(text: Seq<char>) -> Option<i64>;

/// Calls `chrono::DateTime::parse_from_rfc3339` on `text` and, where that
/// gives a date and time, `DateTime::timestamp_millis` on it. The contract
/// claims that both depend on the text alone, and gives their result the
/// name `rfc3339_millis`. It says nothing of which texts are accepted.
#[verifier::external_body]
fn parse_rfc3339_millis(text: &str) -> (parsed: Result<i64, chrono::ParseError>)
    ensures
        match parsed {
            Ok(millis) => rfc3339_millis(text@) == Some(millis),
            Err(_) => rfc3339_millis(text@) is None,
        },
{
    match chrono::DateTime::parse_from_rfc3339(text) {
        Ok(moment) => Ok(moment.timestamp_millis()),
        Err(error) => Err(error),
    }
}

/// What a line gives: the time of its stamp, or the reason why it gives
/// none.
pub open spec fn timestamp_of(line: Seq<char>) -> Result<i64, ExtractError> {
    match stamp_of(line) {
        None => Err(ExtractError::Unmatched),
        Some(stamp) => match rfc3339_millis(stamp) {
            Some(millis) => Ok(millis),
            None => Err(ExtractError::MalformedTimestamp),
        },
    }
}

/// Reads the time stamped at the start of the line, in milliseconds since
/// the epoch.
pub fn extract_timestamp(line: &str) -> (extracted: Result<i64, ExtractError>)
    ensures
        extracted == timestamp_of(line@),
{
    match bracketed_stamp(line) {
        None => Err(ExtractError::Unmatched),
        Some(stamp) => match parse_rfc3339_millis(stamp) {
            Ok(millis) => Ok(millis),
            Err(_) => Err(ExtractError::MalformedTimestamp),
        },
    }
}

/// Where the first `]` of a line that starts with `[` stands at place
/// `end`, the stamp is the text from place 1 up to `end`.
pub proof fn law_stamp_is_between_brackets(line: Seq<char>, end: int)
    requires
        closes_at(line, end),
    ensures
        stamp_of(line) == Some(line.subrange(1, end)),
{
    let chosen = choose|e: int| closes_at(line, e);
    assert(chosen == end);
}

/// Some `]` stands in the line at a place from 1 up to `upto`, so the
/// first of them stands at the place that comes back.
proof fn first_close(line: Seq<char>, upto: int) -> (end: int)
    requires
        1 <= upto < line.len(),
        line[upto] == ']',
    ensures
        1 <= end <= upto,
        line[end] == ']',
        forall|i: int| 1 <= i < end ==> line[i] != ']',
    decreases upto,
{
    if exists|i: int| 1 <= i < upto && line[i] == ']' {
        let earlier = choose|i: int| 1 <= i < upto && line[i] == ']';
        first_close(line, earlier)
    } else {
        upto
    }
}

/// A line has a stamp exactly where it starts with `[` and a `]` follows
/// somewhere in it. So a line gives `Unmatched` exactly where it does not
/// start with `[`, or no `]` follows.
pub proof fn law_stamp_needs_both_brackets(line: Seq<char>)
    ensures
        stamp_of(line) is Some <==> line.len() > 0 && line[0] == '[' && exists|i: int|
            1 <= i < line.len() && line[i] == ']',
        timestamp_of(line) == Err::<i64, ExtractError>(ExtractError::Unmatched) <==> stamp_of(
            line,
        ) is None,
{
    if line.len() > 0 && line[0] == '[' && exists|i: int| 1 <= i < line.len() && line[i] == ']' {
        let some = choose|i: int| 1 <= i < line.len() && line[i] == ']';
        let end = first_close(line, some);
        assert(closes_at(line, end));
    }
    if stamp_of(line) is Some {
        let end = choose|e: int| closes_at(line, e);
        assert(1 <= end < line.len() && line[end] == ']');
    }
}

/// What follows the first `]` has no part in the stamp, nor in the time
/// that the line gives: a line keeps both when the text after its first
/// `]` is replaced by any other.
pub proof fn law_text_after_the_stamp_is_ignored(line: Seq<char>, end: int, rest: Seq<char>)
    requires
        closes_at(line, end),
    ensures
        stamp_of(line.subrange(0, end + 1) + rest) == stamp_of(line),
        timestamp_of(line.subrange(0, end + 1) + rest) == timestamp_of(line),
{
    let other = line.subrange(0, end + 1) + rest;
    assert(closes_at(other, end));
    law_stamp_is_between_brackets(line, end);
    law_stamp_is_between_brackets(other, end);
    assert(other.subrange(1, end) == line.subrange(1, end));
}

} // verus!
