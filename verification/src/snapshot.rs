//! Snapshots and the diff engine.
//!
//! A snapshot is one timestamped capture of all axis, button and switch
//! values of a controller. The diff engine compares two snapshots of equal
//! shape and produces the ordered sequence of discrete events between them,
//! axes before buttons.

use vstd::prelude::*;
use crate::ev_code::{EvCode, EvCodeKind};
use crate::event::EventType;

verus! {

/// One captured axis sample.
///
/// The capture layer outside this crate reads a normalized real-valued
/// sample from the native API and hands it over in two forms: `bits` is the
/// exact encoding of the raw sample and drives change detection (equality
/// is exact, not threshold-based: two samples count as equal exactly when
/// their stored encodings match), while `value` is the sample already
/// remapped by that layer onto the full-range signed integer axis scale,
/// centered at the midpoint, and is what an axis-change event carries.
#[derive(Copy, Clone, Debug, PartialEq, Eq, Structural)]
pub struct AxisReading {
    pub bits: u64,
    pub value: i32,
}

/// Mathematical image of a [`Snapshot`].
#[verifier::ext_equal]
pub ghost struct SnapshotView {
    pub axes: Seq<AxisReading>,
    pub buttons: Seq<bool>,
    pub switches: Seq<i32>,
    pub time: u64,
}

/// An ordered, fixed-shape capture of one controller's state: axis samples,
/// button states, switch positions, and the monotonic sample timestamp the
/// native device attached to the reading. The three sequence lengths are
/// fixed for the lifetime of the controller's handle; two snapshots are
/// diff-comparable only if their lengths match.
#[derive(Debug)]
pub struct Snapshot {
    pub axes: Vec<AxisReading>,
    pub buttons: Vec<bool>,
    pub switches: Vec<i32>,
    pub time: u64,
}

impl View for Snapshot {
    type V = SnapshotView;

    open spec fn view(&self) -> SnapshotView {
        SnapshotView {
            axes: self.axes@,
            buttons: self.buttons@,
            switches: self.switches@,
            time: self.time,
        }
    }
}

/// The axis-change events among the first `n` axis indices, in index order:
/// one event for each index whose stored sample encoding differs, carrying
/// the new remapped value and the code (Axis, index).
pub open spec fn axis_events_upto(old: Seq<AxisReading>, new: Seq<AxisReading>, n: int) -> Seq<
    EventType,
>
    decreases n,
{
    if n <= 0 {
        Seq::empty()
    } else {
        axis_events_upto(old, new, n - 1) + if old[n - 1].bits != new[n - 1].bits {
            seq![
                EventType::AxisValueChanged(
                    new[n - 1].value,
                    EvCode { kind: EvCodeKind::Axis, index: (n - 1) as u32 },
                ),
            ]
        } else {
            Seq::empty()
        }
    }
}

/// The button-change events among the first `n` button indices, in index
/// order: a press when the new state is down, a release when it is up.
pub open spec fn button_events_upto(old: Seq<bool>, new: Seq<bool>, n: int) -> Seq<EventType>
    decreases n,
{
    if n <= 0 {
        Seq::empty()
    } else {
        button_events_upto(old, new, n - 1) + if old[n - 1] != new[n - 1] {
            seq![
                if new[n - 1] {
                    EventType::ButtonPressed(
                        EvCode { kind: EvCodeKind::Button, index: (n - 1) as u32 },
                    )
                } else {
                    EventType::ButtonReleased(
                        EvCode { kind: EvCodeKind::Button, index: (n - 1) as u32 },
                    )
                },
            ]
        } else {
            Seq::empty()
        }
    }
}

/// Everything the diff engine produces for a pair of snapshots: all axis
/// changes in index order, then all button changes in index order.
pub open spec fn diff_spec(old: SnapshotView, new: SnapshotView) -> Seq<EventType> {
    axis_events_upto(old.axes, new.axes, new.axes.len() as int) + button_events_upto(
        old.buttons,
        new.buttons,
        new.buttons.len() as int,
    )
}

impl Snapshot {
    /// Two snapshots can be diffed only when all three sequences agree in
    /// length.
    pub open spec fn same_shape(self, other: Snapshot) -> bool {
        &&& self.axes@.len() == other.axes@.len()
        &&& self.buttons@.len() == other.buttons@.len()
        &&& self.switches@.len() == other.switches@.len()
    }

    /// A copy of this snapshot with the same contents.
    pub fn duplicate(&self) -> (r: Snapshot)
        ensures
            r@ == self@,
    {
        let axes = self.axes.clone();
        let buttons = self.buttons.clone();
        let switches = self.switches.clone();
        proof {
            assert(axes@ =~= self.axes@);
            assert(buttons@ =~= self.buttons@);
            assert(switches@ =~= self.switches@);
        }
        Snapshot { axes, buttons, switches, time: self.time }
    }

    /// The diff engine: the ordered sequence of discrete events that lead
    /// from this snapshot to `new_reading`, axes before buttons. The caller
    /// is responsible for the identical-timestamp check; this comparison is
    /// purely by contents.
    pub fn events_from_differences(&self, new_reading: &Snapshot) -> (events: Vec<EventType>)
        requires
            self.same_shape(*new_reading),
        ensures
            events@ == diff_spec(self@, new_reading@),
    {
        let mut changed: Vec<EventType> = Vec::new();

        let axis_len: usize = new_reading.axes.len();
        let mut index: usize = 0;
        while index < axis_len
            invariant
                axis_len == new_reading.axes@.len(),
                self.axes@.len() == new_reading.axes@.len(),
                index <= axis_len,
                changed@ == axis_events_upto(self.axes@, new_reading.axes@, index as int),
            decreases axis_len - index,
        {
            if self.axes[index].bits != new_reading.axes[index].bits {
                let value: i32 = new_reading.axes[index].value;
                changed.push(
                    EventType::AxisValueChanged(
                        value,
                        EvCode { kind: EvCodeKind::Axis, index: index as u32 },
                    ),
                );
            }
            proof {
                assert(changed@ =~= axis_events_upto(
                    self.axes@,
                    new_reading.axes@,
                    index as int + 1,
                ));
            }
            index += 1;
        }

        let ghost all_axis = axis_events_upto(
            self.axes@,
            new_reading.axes@,
            new_reading.axes@.len() as int,
        );

        let button_len: usize = new_reading.buttons.len();
        let mut bindex: usize = 0;
        proof {
            assert(changed@ =~= all_axis + button_events_upto(
                self.buttons@,
                new_reading.buttons@,
                0,
            ));
        }
        while bindex < button_len
            invariant
                button_len == new_reading.buttons@.len(),
                self.buttons@.len() == new_reading.buttons@.len(),
                bindex <= button_len,
                all_axis == axis_events_upto(
                    self.axes@,
                    new_reading.axes@,
                    new_reading.axes@.len() as int,
                ),
                changed@ == all_axis + button_events_upto(
                    self.buttons@,
                    new_reading.buttons@,
                    bindex as int,
                ),
            decreases button_len - bindex,
        {
            if self.buttons[bindex] != new_reading.buttons[bindex] {
                let event = if new_reading.buttons[bindex] {
                    EventType::ButtonPressed(
                        EvCode { kind: EvCodeKind::Button, index: bindex as u32 },
                    )
                } else {
                    EventType::ButtonReleased(
                        EvCode { kind: EvCodeKind::Button, index: bindex as u32 },
                    )
                };
                changed.push(event);
            }
            proof {
                assert(changed@ =~= all_axis + button_events_upto(
                    self.buttons@,
                    new_reading.buttons@,
                    bindex as int + 1,
                ));
            }
            bindex += 1;
        }

        changed
    }
}

/// Whether an event is an axis-value change for axis index `i`.
pub open spec fn is_axis_change_for(e: EventType, i: int) -> bool {
    match e {
        EventType::AxisValueChanged(_, c) => c.kind == EvCodeKind::Axis && c.index as int == i,
        _ => false,
    }
}

/// How many axis-value changes for axis index `i` a sequence of events holds.
pub open spec fn count_axis_changes_for(s: Seq<EventType>, i: int) -> nat
    decreases s.len(),
{
    if s.len() == 0 {
        0
    } else {
        count_axis_changes_for(s.drop_last(), i) + if is_axis_change_for(s.last(), i) {
            1nat
        } else {
            0nat
        }
    }
}

proof fn lemma_count_axis_concat(a: Seq<EventType>, b: Seq<EventType>, i: int)
    ensures
        count_axis_changes_for(a + b, i) == count_axis_changes_for(a, i) + count_axis_changes_for(
            b,
            i,
        ),
    decreases b.len(),
{
    if b.len() == 0 {
        assert(a + b =~= a);
    } else {
        lemma_count_axis_concat(a, b.drop_last(), i);
        assert((a + b).drop_last() =~= a + b.drop_last());
        assert((a + b).last() == b.last());
    }
}

proof fn lemma_axis_count_upto(old: Seq<AxisReading>, new: Seq<AxisReading>, n: int, i: int)
    requires
        0 <= n <= new.len(),
        new.len() < 0x1_0000_0000,
    ensures
        count_axis_changes_for(axis_events_upto(old, new, n), i) == if 0 <= i < n && old[i].bits
            != new[i].bits {
            1nat
        } else {
            0nat
        },
    decreases n,
{
    if n > 0 {
        lemma_axis_count_upto(old, new, n - 1, i);
        let prev = axis_events_upto(old, new, n - 1);
        if old[n - 1].bits != new[n - 1].bits {
            let e = EventType::AxisValueChanged(
                new[n - 1].value,
                EvCode { kind: EvCodeKind::Axis, index: (n - 1) as u32 },
            );
            lemma_count_axis_concat(prev, seq![e], i);
            assert(seq![e].drop_last() =~= Seq::<EventType>::empty());
            assert(count_axis_changes_for(Seq::<EventType>::empty(), i) == 0);
            assert(seq![e].last() == e);
            assert(count_axis_changes_for(seq![e], i) == if is_axis_change_for(e, i) {
                1nat
            } else {
                0nat
            });
            assert(((n - 1) as u32) as int == n - 1);
        } else {
            assert(axis_events_upto(old, new, n) =~= prev);
        }
    }
}

proof fn lemma_button_events_no_axis_changes(old: Seq<bool>, new: Seq<bool>, n: int, i: int)
    requires
        0 <= n,
    ensures
        count_axis_changes_for(button_events_upto(old, new, n), i) == 0,
    decreases n,
{
    if n > 0 {
        lemma_button_events_no_axis_changes(old, new, n - 1, i);
        let prev = button_events_upto(old, new, n - 1);
        if old[n - 1] != new[n - 1] {
            let e = if new[n - 1] {
                EventType::ButtonPressed(EvCode { kind: EvCodeKind::Button, index: (n - 1) as u32 })
            } else {
                EventType::ButtonReleased(
                    EvCode { kind: EvCodeKind::Button, index: (n - 1) as u32 },
                )
            };
            lemma_count_axis_concat(prev, seq![e], i);
            assert(seq![e].drop_last() =~= Seq::<EventType>::empty());
            assert(count_axis_changes_for(Seq::<EventType>::empty(), i) == 0);
            assert(seq![e].last() == e);
            assert(count_axis_changes_for(seq![e], i) == 0);
        } else {
            assert(button_events_upto(old, new, n) =~= prev);
        }
    }
}

/// Diff completeness: for every axis index `i` of an equal-shape snapshot
/// pair, the diff holds exactly one axis-value change for `i` when the
/// stored samples at `i` differ, and none at all when they are equal or
/// when `i` is out of range.
pub proof fn lemma_diff_completeness(old: SnapshotView, new: SnapshotView, i: int)
    requires
        old.axes.len() == new.axes.len(),
        new.axes.len() < 0x1_0000_0000,
    ensures
        count_axis_changes_for(diff_spec(old, new), i) == if 0 <= i < new.axes.len()
            && old.axes[i].bits != new.axes[i].bits {
            1nat
        } else {
            0nat
        },
{
    let a = axis_events_upto(old.axes, new.axes, new.axes.len() as int);
    let b = button_events_upto(old.buttons, new.buttons, new.buttons.len() as int);
    lemma_count_axis_concat(a, b, i);
    lemma_axis_count_upto(old.axes, new.axes, new.axes.len() as int, i);
    if new.buttons.len() as int >= 0 {
        lemma_button_events_no_axis_changes(old.buttons, new.buttons, new.buttons.len() as int, i);
    }
}

} // verus!
