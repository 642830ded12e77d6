//! Drives one tracker over the lines of a log, and counts the lines that
//! had to be skipped.
//!
//! A line is skipped where it could not be read, where it does not start
//! with a stamp, and where its stamp is no date and time. None of the
//! three ends the scan.

use vstd::prelude::*;
use crate::extract::{extract_timestamp, timestamp_of, ExtractError};
use crate::max_hole::{self, MaxGapState, MaxHole};
use crate::thresh_hole::{self, HoleReport, HoleView, ThreshHole, ThresholdState};
use crate::timed_line::{Stamped, TimedLine, slot_view, stamped};

verus! {

/// The threshold in milliseconds of a scan for which holes over a
/// threshold were asked for and no threshold was given.
pub const DEFAULT_THRESHOLD_MS: i64 = 500;

/// The threshold that a scan starts with: none where the widest hole was
/// asked for, the given one otherwise, and the default where none was
/// given.
pub fn threshold_for(widest: bool, threshold_ms: Option<i64>) -> (chosen: Option<i64>)
    ensures
        widest ==> chosen is None,
        !widest && threshold_ms is Some ==> chosen == threshold_ms,
        !widest && threshold_ms is None ==> chosen == Some(DEFAULT_THRESHOLD_MS),
{
    if widest {
        None
    } else {
        match threshold_ms {
            Some(limit) => Some(limit),
            None => Some(DEFAULT_THRESHOLD_MS),
        }
    }
}

/// The state of the tracker that a scan runs.
pub enum HoleState {
    Thresh(ThresholdState),
    Max(MaxGapState),
}

impl HoleState {
    /// The tracker that a scan starts with: the reporter where a threshold
    /// is given, and the tracker of the widest hole where none is.
    pub open spec fn start(threshold_ms: Option<i64>) -> HoleState {
        match threshold_ms {
            Some(limit) => HoleState::Thresh(ThresholdState::start(limit as int)),
            None => HoleState::Max(MaxGapState::empty()),
        }
    }

    /// The state after one more stamped line.
    pub open spec fn step(self, incoming: Stamped) -> HoleState {
        match self {
            HoleState::Thresh(state) => HoleState::Thresh(state.step(incoming)),
            HoleState::Max(state) => HoleState::Max(state.step(incoming)),
        }
    }

    /// The report that `incoming` gives rise to, if any. Only the reporter
    /// of holes over a threshold reports while the scan goes on.
    pub open spec fn report(self, incoming: Stamped) -> Option<HoleView> {
        match self {
            HoleState::Thresh(state) => state.report(incoming),
            HoleState::Max(_) => None,
        }
    }
}

/// The tracker that a scan runs: one of the two, chosen before the first
/// line.
pub enum Hole {
    Thresh(ThreshHole),
    Max(MaxHole),
}

impl View for Hole {
    type V = HoleState;

    open spec fn view(&self) -> HoleState {
        match self {
            Hole::Thresh(reporter) => HoleState::Thresh(reporter@),
            Hole::Max(tracker) => HoleState::Max(tracker@),
        }
    }
}

impl Hole {
    /// The tracker for the given threshold in milliseconds, or for the
    /// widest hole where there is none.
    pub fn new(threshold_ms: Option<i64>) -> (fresh: Hole)
        ensures
            fresh@ == HoleState::start(threshold_ms),
    {
        match threshold_ms {
            Some(limit) => Hole::Thresh(ThreshHole::new(limit)),
            None => Hole::Max(MaxHole::new()),
        }
    }

    /// Takes in the next stamped line, and hands back the report where
    /// the line gives rise to one.
    pub fn update(self, time: i64, line: String) -> (out: (Hole, Option<HoleReport>))
        ensures
            out.0@ == self@.step(stamped(time as int, line@)),
            slot_view(out.1) == self@.report(stamped(time as int, line@)),
    {
        match self {
            Hole::Thresh(reporter) => {
                let (next, report) = reporter.update(time, line);
                (Hole::Thresh(next), report)
            },
            Hole::Max(tracker) => (Hole::Max(tracker.update(time, line)), None),
        }
    }
}

/// What a scan ends with, as the contracts speak of it.
pub enum FindingView {
    Reported,
    Widest(Stamped, Stamped),
    InsufficientData,
}

/// The state of a scan: the state of its tracker, and the number of lines
/// skipped so far. The number stops at the largest `u64`.
pub struct ScanState {
    pub tracker: HoleState,
    pub skipped: u64,
}

impl ScanState {
    /// The state before any line.
    pub open spec fn start(threshold_ms: Option<i64>) -> ScanState {
        ScanState { tracker: HoleState::start(threshold_ms), skipped: 0 }
    }

    /// The state after a line that is skipped: one more is counted, and
    /// the tracker is left as it is.
    pub open spec fn skip(self) -> ScanState {
        ScanState { skipped: self.skipped.saturating_add(1), ..self }
    }

    /// The state after a line of which the extraction is known: the
    /// tracker takes the line in where it gave a time, and the line is
    /// skipped where it gave none.
    pub open spec fn record(
        self,
        extraction: Result<i64, ExtractError>,
        line: Seq<char>,
    ) -> ScanState {
        match extraction {
            Ok(time) => ScanState {
                tracker: self.tracker.step(stamped(time as int, line)),
                ..self
            },
            Err(_) => self.skip(),
        }
    }

    /// The report that a line gives rise to, the extraction of which is
    /// known.
    pub open spec fn report(
        self,
        extraction: Result<i64, ExtractError>,
        line: Seq<char>,
    ) -> Option<HoleView> {
        match extraction {
            Ok(time) => self.tracker.report(stamped(time as int, line)),
            Err(_) => None,
        }
    }

    /// The state after one more line of the log; `None` stands for a line
    /// that could not be read.
    pub open spec fn feed(self, reading: Option<Seq<char>>) -> ScanState {
        match reading {
            Some(line) => self.record(timestamp_of(line), line),
            None => self.skip(),
        }
    }

    /// The report that one more line of the log gives rise to.
    pub open spec fn feed_report(self, reading: Option<Seq<char>>) -> Option<HoleView> {
        match reading {
            Some(line) => self.report(timestamp_of(line), line),
            None => None,
        }
    }

    /// What the scan has found if it ends in this state.
    pub open spec fn finding(self) -> FindingView {
        match self.tracker {
            HoleState::Thresh(_) => FindingView::Reported,
            HoleState::Max(state) => match state.best() {
                Some((earlier, later)) => FindingView::Widest(earlier, later),
                None => FindingView::InsufficientData,
            },
        }
    }
}

/// What a scan ends with.
#[derive(Debug, PartialEq, Eq)]
pub enum Finding {
    /// Every hole over the threshold was reported when it was found.
    Reported,
    /// The two lines around the widest hole, the earlier one first.
    Widest(TimedLine, TimedLine),
    /// The widest hole was asked for, and fewer than two lines carried a
    /// stamp.
    InsufficientData,
}

impl View for Finding {
    type V = FindingView;

    open spec fn view(&self) -> FindingView {
        match self {
            Finding::Reported => FindingView::Reported,
            Finding::Widest(earlier, later) => FindingView::Widest(earlier@, later@),
            Finding::InsufficientData => FindingView::InsufficientData,
        }
    }
}

/// The end of a scan: what was found, and how many lines were skipped.
#[derive(Debug, PartialEq, Eq)]
pub struct Summary {
    pub finding: Finding,
    pub skipped: u64,
}

/// A scan of a log, fed line by line.
pub struct Scanner {
    tracker: Hole,
    skipped: u64,
}

impl View for Scanner {
    type V = ScanState;

    closed spec fn view(&self) -> ScanState {
        ScanState { tracker: self.tracker@, skipped: self.skipped }
    }
}

impl Scanner {
    /// A scan that has seen no line. With a threshold in milliseconds it
    /// reports every hole over the threshold; without one it keeps the
    /// widest hole.
    pub fn new(threshold_ms: Option<i64>) -> (fresh: Scanner)
        ensures
            fresh@ == ScanState::start(threshold_ms),
    {
        Scanner { tracker: Hole::new(threshold_ms), skipped: 0 }
    }

    /// The number of lines skipped so far.
    pub fn skipped(&self) -> (count: u64)
        ensures
            count == self@.skipped,
    {
        self.skipped
    }

    /// Counts one more skipped line.
    fn skip(self) -> (next: Scanner)
        ensures
            next@ == self@.skip(),
    {
        Scanner { tracker: self.tracker, skipped: self.skipped.saturating_add(1) }
    }

    /// Takes in a line of which the extraction is known, and hands back
    /// the report where the line gives rise to one.
    pub fn record(self, extraction: Result<i64, ExtractError>, line: String) -> (out: (
        Scanner,
        Option<HoleReport>,
    ))
        ensures
            out.0@ == self@.record(extraction, line@),
            slot_view(out.1) == self@.report(extraction, line@),
    {
        match extraction {
            Ok(time) => {
                let (tracker, report) = self.tracker.update(time, line);
                (Scanner { tracker, skipped: self.skipped }, report)
            },
            Err(_) => (self.skip(), None),
        }
    }

    /// Takes in the next line of the log, `None` where the line could not
    /// be read, and hands back the report where the line gives rise to
    /// one.
    pub fn feed(self, reading: Option<String>) -> (out: (Scanner, Option<HoleReport>))
        ensures
            out.0@ == self@.feed(slot_view(reading)),
            slot_view(out.1) == self@.feed_report(slot_view(reading)),
    {
        match reading {
            Some(line) => {
                let extraction = extract_timestamp(line.as_str());
                self.record(extraction, line)
            },
            None => (self.skip(), None),
        }
    }

    /// Ends the scan.
    pub fn finish(self) -> (summary: Summary)
        ensures
            summary.finding@ == self@.finding(),
            summary.skipped == self@.skipped,
    {
        let finding = match self.tracker {
            Hole::Thresh(_) => Finding::Reported,
            Hole::Max(tracker) => match tracker.into_best() {
                Some((earlier, later)) => Finding::Widest(earlier, later),
                None => Finding::InsufficientData,
            },
        };
        Summary { finding, skipped: self.skipped }
    }
}

/// Whether a line of the log is skipped: it could not be read, or it
/// gave no time.
pub open spec fn is_skipped(reading: Option<Seq<char>>) -> bool {
    match reading {
        Some(line) => timestamp_of(line) is Err,
        None => true,
    }
}

/// The number of lines among `readings` that are skipped.
pub open spec fn skipped_count(readings: Seq<Option<Seq<char>>>) -> nat
    decreases readings.len(),
{
    if readings.len() == 0 {
        0
    } else {
        skipped_count(readings.drop_last()) + if is_skipped(readings.last()) {
            1nat
        } else {
            0nat
        }
    }
}

/// The lines among `readings` that gave a time, with their times, in the
/// order of the log.
pub open spec fn parsed_lines(readings: Seq<Option<Seq<char>>>) -> Seq<Stamped>
    decreases readings.len(),
{
    if readings.len() == 0 {
        Seq::empty()
    } else if is_skipped(readings.last()) {
        parsed_lines(readings.drop_last())
    } else {
        parsed_lines(readings.drop_last()).push(
            stamped(timestamp_of(readings.last()->0)->Ok_0 as int, readings.last()->0),
        )
    }
}

/// The state of a scan that went from `start` through `readings`.
pub open spec fn scan(start: ScanState, readings: Seq<Option<Seq<char>>>) -> ScanState
    decreases readings.len(),
{
    if readings.len() == 0 {
        start
    } else {
        scan(start, readings.drop_last()).feed(readings.last())
    }
}

/// Every line of the log is either skipped or handed to the tracker.
pub proof fn law_skipped_or_parsed(readings: Seq<Option<Seq<char>>>)
    ensures
        skipped_count(readings) + parsed_lines(readings).len() == readings.len(),
    decreases readings.len(),
{
    if readings.len() > 0 {
        law_skipped_or_parsed(readings.drop_last());
    }
}

/// The count of a scan is the number of lines that could not be read or
/// gave no time, as long as that number fits; from there on it stays at
/// the largest `u64`.
pub proof fn law_skipped_is_counted(threshold_ms: Option<i64>, readings: Seq<Option<Seq<char>>>)
    ensures
        skipped_count(readings) <= u64::MAX ==> scan(
            ScanState::start(threshold_ms),
            readings,
        ).skipped == skipped_count(readings),
        skipped_count(readings) > u64::MAX ==> scan(
            ScanState::start(threshold_ms),
            readings,
        ).skipped == u64::MAX,
    decreases readings.len(),
{
    if readings.len() > 0 {
        law_skipped_is_counted(threshold_ms, readings.drop_last());
    }
}

/// As long as the count has not reached the largest `u64`, the count and
/// the number of lines handed to the tracker add up to the number of
/// lines read.
pub proof fn law_count_and_parsed_add_up(
    threshold_ms: Option<i64>,
    readings: Seq<Option<Seq<char>>>,
)
    requires
        skipped_count(readings) <= u64::MAX,
    ensures
        scan(ScanState::start(threshold_ms), readings).skipped + parsed_lines(readings).len()
            == readings.len(),
{
    law_skipped_is_counted(threshold_ms, readings);
    law_skipped_or_parsed(readings);
}

/// A line that does not start with `[` gives no time: the scan counts it
/// as skipped, reports nothing, and leaves the tracker as it is.
pub proof fn law_line_without_bracket_is_skipped(state: ScanState, line: Seq<char>)
    requires
        line.len() == 0 || line[0] != '[',
    ensures
        timestamp_of(line) == Err::<i64, ExtractError>(ExtractError::Unmatched),
        state.feed(Some(line)) == state.skip(),
        state.feed(Some(line)).tracker == state.tracker,
        state.feed_report(Some(line)) is None,
{
}

/// Skipped lines leave no trace in the tracker: it is in the state that
/// the lines that gave a time bring it to.
pub proof fn law_skipped_lines_leave_no_trace(
    threshold_ms: Option<i64>,
    readings: Seq<Option<Seq<char>>>,
)
    ensures
        scan(ScanState::start(threshold_ms), readings).tracker == match threshold_ms {
            Some(limit) => HoleState::Thresh(
                thresh_hole::replay(limit as int, parsed_lines(readings)),
            ),
            None => HoleState::Max(max_hole::replay(parsed_lines(readings))),
        },
    decreases readings.len(),
{
    if readings.len() > 0 {
        law_skipped_lines_leave_no_trace(threshold_ms, readings.drop_last());
        if !is_skipped(readings.last()) {
            let parsed = parsed_lines(readings);
            assert(parsed.drop_last() == parsed_lines(readings.drop_last()));
        }
    }
}

/// A scan for the widest hole ends with "insufficient data" where fewer
/// than two lines of the log gave a time, and only there.
pub proof fn law_insufficient_data(readings: Seq<Option<Seq<char>>>)
    ensures
        parsed_lines(readings).len() < 2 <==> scan(
            ScanState::start(None),
            readings,
        ).finding() is InsufficientData,
{
    law_skipped_lines_leave_no_trace(None, readings);
    max_hole::law_pair_from_second_line(parsed_lines(readings));
}

} // verus!
