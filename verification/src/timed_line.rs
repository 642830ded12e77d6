//! A line of the log and the time stamped on it.

use vstd::prelude::*;

verus! {

/// A stamped line as the contracts speak of it: the time in milliseconds
/// since the epoch, and the text of the line.
pub struct Stamped {
    pub time: int,
    pub line: Seq<char>,
}

/// The stamped line with the given time and text.
pub open spec fn stamped(time: int, line: Seq<char>) -> Stamped {
    Stamped { time, line }
}

/// A line of the log together with the time that its stamp gives, in
/// milliseconds since the epoch.
#[derive(Debug, PartialEq, Eq)]
pub struct TimedLine {
    pub time: i64,
    pub line: String,
}

impl View for TimedLine {
    type V = Stamped;

    open spec fn view(&self) -> Stamped {
        stamped(self.time as int, self.line@)
    }
}

/// The view of what a slot holds, if it holds anything.
pub open spec fn slot_view<T: View>(slot: Option<T>) -> Option<T::V> {
    match slot {
        Some(held) => Some(held@),
        None => None,
    }
}

/// The time from one stamp to another, in milliseconds: above zero where
/// `to` is the later of the two. It is taken in 128 bits, so that no two
/// stamps overflow.
pub fn millis_between(from: i64, to: i64) -> (gap: i128)
    ensures
        gap == to - from,
{
    (to as i128) - (from as i128)
}

} // verus!
