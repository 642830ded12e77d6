//! The widest hole of a stream, kept in constant space.

use vstd::prelude::*;
use crate::timed_line::{Stamped, TimedLine, millis_between, slot_view, stamped};

verus! {

/// What the tracker retains of the lines it has seen: the two lines around
/// the widest hole so far, and the last line seen where it is not the
/// later of those two.
pub struct MaxGapState {
    pub earlier: Option<Stamped>,
    pub later: Option<Stamped>,
    pub candidate: Option<Stamped>,
}

impl MaxGapState {
    /// The state before any line.
    pub open spec fn empty() -> MaxGapState {
        MaxGapState { earlier: None, later: None, candidate: None }
    }

    /// The slots fill in order: `earlier`, then `later`, then `candidate`.
    pub open spec fn wf(self) -> bool {
        &&& self.later is Some ==> self.earlier is Some
        &&& self.candidate is Some ==> self.later is Some
    }

    /// The two lines around the widest hole, once two lines have been seen.
    pub open spec fn best(self) -> Option<(Stamped, Stamped)> {
        match (self.earlier, self.later) {
            (Some(earlier), Some(later)) => Some((earlier, later)),
            _ => None,
        }
    }

    /// The width of the widest hole, in milliseconds. It means something
    /// only where `best` is `Some`.
    pub open spec fn best_gap(self) -> int
        recommends
            self.best() is Some,
    {
        self.later->0.time - self.earlier->0.time
    }

    /// The line that arrived last.
    pub open spec fn last_seen(self) -> Option<Stamped> {
        if self.candidate is Some {
            self.candidate
        } else if self.later is Some {
            self.later
        } else {
            self.earlier
        }
    }

    /// The state after one more line. The first two lines make the first
    /// pair. After that the hole between the last line seen and the new
    /// one takes the place of the pair if it is strictly wider; if it is
    /// not, the new line is only remembered as the last one seen.
    pub open spec fn step(self, incoming: Stamped) -> MaxGapState {
        if self.earlier is None {
            MaxGapState { earlier: Some(incoming), ..self }
        } else if self.later is None {
            MaxGapState { later: Some(incoming), ..self }
        } else if incoming.time - self.last_seen()->0.time > self.best_gap() {
            MaxGapState { earlier: self.last_seen(), later: Some(incoming), candidate: None }
        } else {
            MaxGapState { candidate: Some(incoming), ..self }
        }
    }
}

/// The state after the lines of `history`, in the order in which they
/// arrived.
pub open spec fn replay(history: Seq<Stamped>) -> MaxGapState
    decreases history.len(),
{
    if history.len() == 0 {
        MaxGapState::empty()
    } else {
        replay(history.drop_last()).step(history.last())
    }
}

/// The hole between line `k` of `history` and the line after it, in
/// milliseconds.
pub open spec fn gap_at(history: Seq<Stamped>, k: int) -> int
    recommends
        0 <= k < history.len() - 1,
{
    history[k + 1].time - history[k].time
}

/// Line `j` and the line after it are around the widest hole of `history`,
/// and no hole before that one is as wide.
pub open spec fn first_widest(history: Seq<Stamped>, j: int) -> bool {
    &&& 0 <= j < history.len() - 1
    &&& forall|k: int| 0 <= k < j ==> #[trigger] gap_at(history, k) < gap_at(history, j)
    &&& forall|k: int|
        j <= k < history.len() - 1 ==> #[trigger] gap_at(history, k) <= gap_at(history, j)
}

/// What the tracker holds when the widest hole of `history` is the one
/// after line `j`: the two lines around that hole, and the last line of
/// all unless it is the later of the two.
pub open spec fn holding(history: Seq<Stamped>, j: int) -> MaxGapState {
    MaxGapState {
        earlier: Some(history[j]),
        later: Some(history[j + 1]),
        candidate: if j + 2 == history.len() {
            None
        } else {
            Some(history.last())
        },
    }
}

/// Tracks the widest hole between two lines that arrive one after the
/// other.
pub struct MaxHole {
    earlier: Option<TimedLine>,
    later: Option<TimedLine>,
    candidate: Option<TimedLine>,
}

impl View for MaxHole {
    type V = MaxGapState;

    closed spec fn view(&self) -> MaxGapState {
        MaxGapState {
            earlier: slot_view(self.earlier),
            later: slot_view(self.later),
            candidate: slot_view(self.candidate),
        }
    }
}

impl MaxHole {
    #[verifier::type_invariant]
    spec fn slots_fill_in_order(self) -> bool {
        self@.wf()
    }

    /// A tracker that has seen no line.
    pub fn new() -> (fresh: MaxHole)
        ensures
            fresh@ == MaxGapState::empty(),
    {
        MaxHole { earlier: None, later: None, candidate: None }
    }

    /// Takes in the next stamped line of the stream.
    pub fn update(self, timems: i64, line: String) -> (next: MaxHole)
        ensures
            next@ == self@.step(stamped(timems as int, line@)),
            next@.wf(),
    {
        proof {
            use_type_invariant(&self);
        }
        let incoming = TimedLine { time: timems, line };
        match (self.earlier, self.later, self.candidate) {
            (None, _, _) => MaxHole { earlier: Some(incoming), later: None, candidate: None },
            (Some(earlier), None, _) => MaxHole {
                earlier: Some(earlier),
                later: Some(incoming),
                candidate: None,
            },
            (Some(earlier), Some(later), None) => {
                if millis_between(later.time, timems) > millis_between(earlier.time, later.time) {
                    MaxHole { earlier: Some(later), later: Some(incoming), candidate: None }
                } else {
                    MaxHole {
                        earlier: Some(earlier),
                        later: Some(later),
                        candidate: Some(incoming),
                    }
                }
            },
            (Some(earlier), Some(later), Some(candidate)) => {
                if millis_between(candidate.time, timems) > millis_between(
                    earlier.time,
                    later.time,
                ) {
                    MaxHole { earlier: Some(candidate), later: Some(incoming), candidate: None }
                } else {
                    MaxHole {
                        earlier: Some(earlier),
                        later: Some(later),
                        candidate: Some(incoming),
                    }
                }
            },
        }
    }

    /// Ends the stream: the two lines around the widest hole, the earlier
    /// one first, or `None` where fewer than two lines were seen.
    pub fn into_best(self) -> (best: Option<(TimedLine, TimedLine)>)
        ensures
            match best {
                Some((earlier, later)) => self@.best() == Some((earlier@, later@)),
                None => self@.best() is None,
            },
    {
        match (self.earlier, self.later) {
            (Some(earlier), Some(later)) => Some((earlier, later)),
            _ => None,
        }
    }
}

/// A pair is held from the second line on, and not before.
pub proof fn law_pair_from_second_line(history: Seq<Stamped>)
    ensures
        replay(history).wf(),
        replay(history).best() is Some <==> history.len() >= 2,
        history.len() == 0 ==> replay(history) == MaxGapState::empty(),
        history.len() == 1 ==> replay(history) == MaxGapState::empty().step(history[0]),
    decreases history.len(),
{
    if history.len() > 0 {
        law_pair_from_second_line(history.drop_last());
    }
}

/// One more line never narrows the widest hole, and never takes the pair
/// away.
pub proof fn law_best_gap_never_shrinks(state: MaxGapState, incoming: Stamped)
    requires
        state.best() is Some,
    ensures
        state.step(incoming).best() is Some,
        state.step(incoming).best_gap() >= state.best_gap(),
{
}

/// After two lines or more the tracker holds the widest hole between two
/// lines that arrived one after the other, and the first such hole where
/// several are equally wide. The result is the index of its earlier line.
pub proof fn law_holds_first_widest(history: Seq<Stamped>) -> (j: int)
    requires
        history.len() >= 2,
    ensures
        first_widest(history, j),
        replay(history) == holding(history, j),
    decreases history.len(),
{
    let before = history.drop_last();
    if history.len() == 2 {
        law_pair_from_second_line(before);
        0
    } else {
        let i = law_holds_first_widest(before);
        let last = history.len() - 2;
        assert forall|k: int| 0 <= k < last implies #[trigger] gap_at(history, k) == gap_at(
            before,
            k,
        ) by {}
        if gap_at(history, last) > gap_at(history, i) {
            last
        } else {
            i
        }
    }
}

/// The widest hole that the tracker holds at the end of a stream is at
/// least as wide as the hole between any line of the stream and the line
/// after it.
pub proof fn law_best_gap_is_widest(history: Seq<Stamped>, k: int)
    requires
        0 <= k < history.len() - 1,
    ensures
        replay(history).best() is Some,
        replay(history).best_gap() >= gap_at(history, k),
{
    law_holds_first_widest(history);
}

/// The widest hole held after the first `n` lines of a stream is no wider
/// than the one held at its end.
pub proof fn law_best_gap_grows_along_stream(history: Seq<Stamped>, n: int)
    requires
        2 <= n <= history.len(),
    ensures
        replay(history.take(n)).best() is Some,
        replay(history).best() is Some,
        replay(history.take(n)).best_gap() <= replay(history).best_gap(),
{
    let i = law_holds_first_widest(history.take(n));
    law_best_gap_is_widest(history, i);
}

} // verus!
