//! Every hole over a threshold, reported as it is found.

use vstd::prelude::*;
use crate::timed_line::{Stamped, TimedLine, millis_between, slot_view, stamped};

verus! {

/// A report as the contracts speak of it: the text of the line on which
/// the hole was found, and the text of the line before it.
pub struct HoleView {
    pub line: Seq<char>,
    pub previous: Seq<char>,
}

/// The report with the given texts.
pub open spec fn hole_view(line: Seq<char>, previous: Seq<char>) -> HoleView {
    HoleView { line, previous }
}

/// A hole over the threshold: the line on which it was found, and the
/// line before it.
#[derive(Debug, PartialEq, Eq)]
pub struct HoleReport {
    pub line: String,
    pub previous: String,
}

impl View for HoleReport {
    type V = HoleView;

    open spec fn view(&self) -> HoleView {
        hole_view(self.line@, self.previous@)
    }
}

/// What the reporter retains: the last line seen, and the threshold in
/// milliseconds.
pub struct ThresholdState {
    pub last: Option<Stamped>,
    pub threshold: int,
}

impl ThresholdState {
    /// The state before any line.
    pub open spec fn start(threshold: int) -> ThresholdState {
        ThresholdState { last: None, threshold }
    }

    /// Whether `incoming` is reported. The hole is measured from the new
    /// line back to the last one seen, the time of the last line minus
    /// the time of the new one: it is over the threshold only where the
    /// new line is stamped that much earlier than the one before it.
    pub open spec fn fires(self, incoming: Stamped) -> bool {
        self.last is Some && self.last->0.time - incoming.time > self.threshold
    }

    /// The report that `incoming` gives rise to, if any.
    pub open spec fn report(self, incoming: Stamped) -> Option<HoleView> {
        if self.fires(incoming) {
            Some(hole_view(incoming.line, self.last->0.line))
        } else {
            None
        }
    }

    /// The state after one more line: that line is now the last one seen.
    pub open spec fn step(self, incoming: Stamped) -> ThresholdState {
        ThresholdState { last: Some(incoming), ..self }
    }
}

/// The state after the lines of `history`, in the order in which they
/// arrived.
pub open spec fn replay(threshold: int, history: Seq<Stamped>) -> ThresholdState
    decreases history.len(),
{
    if history.len() == 0 {
        ThresholdState::start(threshold)
    } else {
        replay(threshold, history.drop_last()).step(history.last())
    }
}

/// Reports every line that is stamped earlier than the line before it by
/// more than a threshold.
pub struct ThreshHole {
    last: Option<TimedLine>,
    threshold: i64,
}

impl View for ThreshHole {
    type V = ThresholdState;

    closed spec fn view(&self) -> ThresholdState {
        ThresholdState { last: slot_view(self.last), threshold: self.threshold as int }
    }
}

impl ThreshHole {
    /// A reporter with the given threshold in milliseconds that has seen
    /// no line.
    pub fn new(threshold: i64) -> (fresh: ThreshHole)
        ensures
            fresh@ == ThresholdState::start(threshold as int),
    {
        ThreshHole { last: None, threshold }
    }

    /// Takes in the next stamped line of the stream, and hands back the
    /// report where the line gives rise to one.
    pub fn update(self, time: i64, line: String) -> (out: (ThreshHole, Option<HoleReport>))
        ensures
            out.0@ == self@.step(stamped(time as int, line@)),
            slot_view(out.1) == self@.report(stamped(time as int, line@)),
    {
        let report = match self.last {
            Some(last) => {
                if millis_between(time, last.time) > self.threshold as i128 {
                    Some(HoleReport { line: line.clone(), previous: last.line })
                } else {
                    None
                }
            },
            None => None,
        };
        (ThreshHole { last: Some(TimedLine { time, line }), threshold: self.threshold }, report)
    }
}

/// The reporter holds the last line that it was given and nothing else of
/// the stream, and its threshold stays as it was set.
pub proof fn law_holds_last_line(threshold: int, history: Seq<Stamped>)
    ensures
        replay(threshold, history).threshold == threshold,
        replay(threshold, history).last == if history.len() == 0 {
            None
        } else {
            Some(history.last())
        },
    decreases history.len(),
{
    if history.len() > 0 {
        law_holds_last_line(threshold, history.drop_last());
    }
}

/// Every line of a stream but the first is judged against the line just
/// before it: it is reported where that line is stamped later by more than
/// the threshold, and only there. The first line is never reported.
pub proof fn law_each_line_is_judged(threshold: int, history: Seq<Stamped>, k: int)
    requires
        0 <= k < history.len(),
    ensures
        replay(threshold, history.take(k)).report(history[k]) == if k > 0 && history[k - 1].time
            - history[k].time > threshold {
            Some(hole_view(history[k].line, history[k - 1].line))
        } else {
            None
        },
{
    law_holds_last_line(threshold, history.take(k));
}

/// With a threshold of zero or more, a line that is not stamped earlier
/// than the line before it is never reported.
pub proof fn law_forward_time_is_silent(state: ThresholdState, incoming: Stamped)
    requires
        state.threshold >= 0,
        state.last is Some ==> state.last->0.time <= incoming.time,
    ensures
        state.report(incoming) is None,
{
}

/// With a threshold of zero or more, the same line fed twice in a row is
/// not reported the second time, and leaves the state as the first
/// feeding left it.
pub proof fn law_repeated_line_is_silent(state: ThresholdState, incoming: Stamped)
    requires
        state.threshold >= 0,
    ensures
        state.step(incoming).report(incoming) is None,
        state.step(incoming).step(incoming) == state.step(incoming),
{
}

} // verus!
