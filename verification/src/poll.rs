//! The per-cycle decisions of the polling loop.
//!
//! The loop itself lives outside this crate: a background task that each
//! cycle re-enumerates the attached controllers, captures a fresh snapshot
//! of each, and publishes the produced events through the event channel.
//! What it decides per controller stands here, verified: keeping one
//! (previous, current) snapshot pair per controller in enumeration order,
//! seeding the pair for a newly seen controller so that its first cycle
//! cannot emit, rotating the pair on every later cycle, skipping the diff
//! when the sample timestamp has not advanced, and otherwise handing the
//! pair to the diff engine.

use vstd::prelude::*;
use crate::event::EventType;
use crate::snapshot::{diff_spec, Snapshot, SnapshotView};

verus! {

/// The double-buffered pair kept for one controller: the snapshot of the
/// previous cycle and the current one.
#[derive(Debug)]
pub struct ReadingPair {
    pub previous: Snapshot,
    pub current: Snapshot,
}

/// Mathematical image of a [`ReadingPair`].
#[verifier::ext_equal]
pub ghost struct ReadingPairView {
    pub previous: SnapshotView,
    pub current: SnapshotView,
}

impl View for ReadingPair {
    type V = ReadingPairView;

    open spec fn view(&self) -> ReadingPairView {
        ReadingPairView { previous: self.previous@, current: self.current@ }
    }
}

/// The polling loop's state: one snapshot pair per known controller,
/// indexed positionally in enumeration order.
#[derive(Debug)]
pub struct PollState {
    pub pairs: Vec<ReadingPair>,
}

impl View for PollState {
    type V = Seq<ReadingPairView>;

    open spec fn view(&self) -> Seq<ReadingPairView> {
        self.pairs@.map_values(|p: ReadingPair| p@)
    }
}

impl PollState {
    pub fn new() -> (s: PollState)
        ensures
            s@ == Seq::<ReadingPairView>::empty(),
    {
        let s = PollState { pairs: Vec::new() };
        proof {
            assert(s@ =~= Seq::<ReadingPairView>::empty());
        }
        s
    }

    /// How many controllers currently have a pair.
    pub fn len(&self) -> (n: usize)
        ensures
            n == self@.len(),
    {
        self.pairs.len()
    }

    /// Whether a fresh capture has the shape the pair at `index` was built
    /// with, and so can be diffed against it. Capability counts do not
    /// change for a live handle, so this only fails when enumeration order
    /// shifted under the loop.
    pub fn shape_matches(&self, index: usize, capture: &Snapshot) -> (r: bool)
        requires
            index < self@.len(),
        ensures
            r == self.pairs@[index as int].current.same_shape(*capture),
    {
        let pair = &self.pairs[index];
        pair.current.axes.len() == capture.axes.len() && pair.current.buttons.len()
            == capture.buttons.len() && pair.current.switches.len() == capture.switches.len()
    }

    /// Seed the pair for a controller first enumerated at `index`: both
    /// halves are the freshly captured snapshot, so the first cycle for a
    /// new controller cannot itself emit any diff events. A controller that
    /// already has a pair is left untouched.
    pub fn ensure_pair(&mut self, index: usize, fresh: Snapshot)
        requires
            index <= old(self)@.len(),
        ensures
            index < old(self)@.len() ==> final(self)@ == old(self)@,
            index == old(self)@.len() ==> final(self)@ == old(self)@.push(
                ReadingPairView { previous: fresh@, current: fresh@ },
            ),
    {
        if index == self.pairs.len() {
            let copy = fresh.duplicate();
            self.pairs.push(ReadingPair { previous: copy, current: fresh });
            proof {
                assert(self@ =~= old(self)@.push(
                    ReadingPairView { previous: fresh@, current: fresh@ },
                ));
            }
        } else {
            proof {
                assert(self@ =~= old(self)@);
            }
        }
    }

    /// One poll step for the controller at `index`: the snapshot that was
    /// current becomes the previous one and `capture` takes its place. If
    /// both carry the same sample timestamp there is no new hardware data
    /// (not a lack-of-change signal) and no event is produced; otherwise
    /// the diff engine runs on the rotated pair and its events are returned
    /// in order.
    pub fn advance(&mut self, index: usize, capture: Snapshot) -> (events: Vec<EventType>)
        requires
            index < old(self)@.len(),
            old(self).pairs@[index as int].current.same_shape(capture),
        ensures
            final(self)@ == old(self)@.update(
                index as int,
                ReadingPairView {
                    previous: old(self)@[index as int].current,
                    current: capture@,
                },
            ),
            old(self)@[index as int].current.time == capture@.time ==> events@ == Seq::<
                EventType,
            >::empty(),
            old(self)@[index as int].current.time != capture@.time ==> events@ == diff_spec(
                old(self)@[index as int].current,
                capture@,
            ),
    {
        let pair = self.pairs.remove(index);
        let rotated = ReadingPair { previous: pair.current, current: capture };
        let events: Vec<EventType> = if rotated.previous.time == rotated.current.time {
            Vec::new()
        } else {
            rotated.previous.events_from_differences(&rotated.current)
        };
        self.pairs.insert(index, rotated);
        proof {
            assert(self@ =~= old(self)@.update(
                index as int,
                ReadingPairView {
                    previous: old(self)@[index as int].current,
                    current: capture@,
                },
            ));
        }
        events
    }
}

} // verus!
