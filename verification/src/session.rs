//! The session and its identity resolver.
//!
//! A session keeps one descriptor per physical controller ever observed,
//! in an append-only table whose positions are the session device ids.
//! Resolution maps an incoming hardware-scoped event to its session id by
//! a linear scan over the persistent native identifiers, appending a new
//! descriptor on first sight; a reconnecting controller is recognized by
//! its identifier and reuses its existing descriptor and id, so no id is
//! ever reused for two different physical devices.

use vstd::prelude::*;
use crate::event::{Event, EventType};
use crate::gamepad::{gamepad_new_spec, Gamepad, GamepadInfo, GamepadView};

verus! {

/// Element-wise equality of two persistent native identifiers (sequences
/// of wide-character code units).
fn ids_equal(a: &Vec<u16>, b: &Vec<u16>) -> (r: bool)
    ensures
        r == (a@ == b@),
{
    if a.len() != b.len() {
        return false;
    }
    let mut i: usize = 0;
    while i < a.len()
        invariant
            a@.len() == b@.len(),
            i <= a@.len(),
            forall|j: int| 0 <= j < i as int ==> a@[j] == b@[j],
        decreases a@.len() - i,
    {
        if a[i] != b[i] {
            return false;
        }
        i += 1;
    }
    proof {
        assert(a@ =~= b@);
    }
    true
}

fn clone_id(a: &Vec<u16>) -> (r: Vec<u16>)
    ensures
        r@ == a@,
{
    let r = a.clone();
    proof {
        assert(r@ =~= a@);
    }
    r
}

/// The position of the first descriptor carrying `nid`, scanning the table
/// front to back; None when no descriptor carries it.
pub open spec fn find_gamepad_spec(table: Seq<GamepadView>, nid: Seq<u16>) -> Option<int>
    decreases table.len(),
{
    if table.len() == 0 {
        None
    } else if table[0].non_roamable_id == nid {
        Some(0int)
    } else {
        match find_gamepad_spec(table.drop_first(), nid) {
            Option::Some(i) => Some(i + 1),
            Option::None => None,
        }
    }
}

/// What a successful or failed scan means: a hit is in range, carries the
/// identifier, and nothing before it does; a miss means nothing does.
pub proof fn lemma_find_gamepad_props(table: Seq<GamepadView>, nid: Seq<u16>)
    ensures
        match find_gamepad_spec(table, nid) {
            Option::Some(i) => 0 <= i < table.len() && table[i].non_roamable_id == nid && forall|
                j: int,
            | 0 <= j < i ==> table[j].non_roamable_id != nid,
            Option::None => forall|j: int|
                0 <= j < table.len() ==> table[j].non_roamable_id != nid,
        },
    decreases table.len(),
{
    if table.len() == 0 {
    } else if table[0].non_roamable_id == nid {
    } else {
        let rest = table.drop_first();
        lemma_find_gamepad_props(rest, nid);
        match find_gamepad_spec(rest, nid) {
            Option::Some(i) => {
                assert(rest[i] == table[i + 1]);
                assert forall|j: int| 0 <= j < i + 1 implies table[j].non_roamable_id != nid by {
                    if j > 0 {
                        assert(rest[j - 1] == table[j]);
                    }
                }
            },
            Option::None => {
                assert forall|j: int|
                    0 <= j < table.len() implies table[j].non_roamable_id != nid by {
                    if j > 0 {
                        assert(rest[j - 1] == table[j]);
                    }
                }
            },
        }
    }
}

/// The scan finds exactly the position characterized by "carries the
/// identifier and nothing before it does".
pub proof fn lemma_find_gamepad_at(table: Seq<GamepadView>, nid: Seq<u16>, i: int)
    requires
        0 <= i < table.len(),
        table[i].non_roamable_id == nid,
        forall|j: int| 0 <= j < i ==> table[j].non_roamable_id != nid,
    ensures
        find_gamepad_spec(table, nid) == Some(i),
    decreases table.len(),
{
    if i == 0 {
    } else {
        let rest = table.drop_first();
        assert(rest[i - 1] == table[i]);
        assert forall|j: int| 0 <= j < i - 1 implies rest[j].non_roamable_id != nid by {
            assert(rest[j] == table[j + 1]);
        }
        lemma_find_gamepad_at(rest, nid, i - 1);
    }
}

/// Two tables whose descriptors carry the same identifiers position for
/// position scan alike.
pub proof fn lemma_find_gamepad_same_ids(
    t1: Seq<GamepadView>,
    t2: Seq<GamepadView>,
    nid: Seq<u16>,
)
    requires
        t1.len() == t2.len(),
        forall|j: int| 0 <= j < t1.len() ==> t1[j].non_roamable_id == t2[j].non_roamable_id,
    ensures
        find_gamepad_spec(t1, nid) == find_gamepad_spec(t2, nid),
    decreases t1.len(),
{
    if t1.len() == 0 {
    } else {
        let r1 = t1.drop_first();
        let r2 = t2.drop_first();
        assert forall|j: int|
            0 <= j < r1.len() implies r1[j].non_roamable_id == r2[j].non_roamable_id by {
            assert(r1[j] == t1[j + 1]);
            assert(r2[j] == t2[j + 1]);
        }
        lemma_find_gamepad_same_ids(r1, r2, nid);
    }
}

/// A descriptor with its connection flag set to `c` and everything else
/// unchanged.
pub open spec fn with_connected(g: GamepadView, c: bool) -> GamepadView {
    GamepadView {
        id: g.id,
        name: g.name,
        uuid: g.uuid,
        is_connected: c,
        non_roamable_id: g.non_roamable_id,
        wireless: g.wireless,
        has_mapped_gamepad: g.has_mapped_gamepad,
        has_ff_motor: g.has_ff_motor,
        axes: g.axes,
        buttons: g.buttons,
    }
}

/// The side effect resolution has on the resolved descriptor: a
/// connection-state payload flips its connection flag, every other
/// payload leaves it unchanged.
pub open spec fn connection_applied_spec(g: GamepadView, event: EventType) -> GamepadView {
    match event {
        EventType::Connected => with_connected(g, true),
        EventType::Disconnected => with_connected(g, false),
        _ => g,
    }
}

/// The session id an event with identifier `nid` resolves to: the position
/// of the descriptor carrying it, or the prior count of descriptors when
/// it has never been seen.
pub open spec fn resolved_id_spec(table: Seq<GamepadView>, nid: Seq<u16>) -> int {
    match find_gamepad_spec(table, nid) {
        Option::Some(i) => i,
        Option::None => table.len() as int,
    }
}

/// The descriptor table after resolving one event: grown by the freshly
/// built descriptor when the identifier is new, and with the connection
/// flag of the resolved descriptor updated by the payload.
pub open spec fn resolve_table_spec(
    table: Seq<GamepadView>,
    nid: Seq<u16>,
    fresh: GamepadView,
    event: EventType,
) -> Seq<GamepadView> {
    let grown = match find_gamepad_spec(table, nid) {
        Option::Some(_) => table,
        Option::None => table.push(fresh),
    };
    let i = resolved_id_spec(table, nid);
    grown.update(i, connection_applied_spec(grown[i], event))
}

/// The session state: the append-only descriptor table. Only the
/// single-threaded consumer mutates it, at resolution time.
#[derive(Debug)]
pub struct Gilrs {
    pub gamepads: Vec<Gamepad>,
}

impl View for Gilrs {
    type V = Seq<GamepadView>;

    open spec fn view(&self) -> Seq<GamepadView> {
        self.gamepads@.map_values(|g: Gamepad| g@)
    }
}

impl Gilrs {
    /// Well-formedness of the descriptor table: every descriptor's session
    /// id is its stable position, and no two descriptors carry the same
    /// persistent native identifier, so identifier and session id are in
    /// bijection over the distinct physical controllers ever seen. Since
    /// resolution only appends descriptors and flips connection flags, a
    /// session id once assigned never changes meaning.
    pub open spec fn wf(self) -> bool {
        &&& forall|i: int| #![auto] 0 <= i < self@.len() ==> self@[i].id == i as u32
        &&& forall|i: int, j: int| #![auto]
            0 <= i < j < self@.len() ==> self@[i].non_roamable_id != self@[j].non_roamable_id
    }

    /// A session over the descriptors built at startup enumeration.
    pub fn new(gamepads: Vec<Gamepad>) -> (s: Gilrs)
        ensures
            s@ == gamepads@.map_values(|g: Gamepad| g@),
    {
        Gilrs { gamepads }
    }

    fn find_gamepad(&self, nid: &Vec<u16>) -> (r: Option<usize>)
        ensures
            match r {
                Option::Some(i) => find_gamepad_spec(self@, nid@) == Some(i as int),
                Option::None => find_gamepad_spec(self@, nid@) == None::<int>,
            },
    {
        let mut i: usize = 0;
        while i < self.gamepads.len()
            invariant
                i <= self.gamepads@.len(),
                forall|j: int| 0 <= j < i as int ==> self@[j].non_roamable_id != nid@,
            decreases self.gamepads@.len() - i,
        {
            if ids_equal(&self.gamepads[i].non_roamable_id, nid) {
                proof {
                    lemma_find_gamepad_at(self@, nid@, i as int);
                }
                return Some(i);
            }
            i += 1;
        }
        proof {
            lemma_find_gamepad_props(self@, nid@);
        }
        None
    }

    /// Resolve one hardware-scoped event to a session-scoped one: look the
    /// persistent native identifier up in the table, appending a
    /// descriptor freshly built from `info` (with session id equal to the
    /// prior descriptor count) when the identifier has never been seen; a
    /// connection-state payload also flips the resolved descriptor's
    /// connection flag before the event is returned.
    pub fn resolve_event(
        &mut self,
        non_roamable_id: &Vec<u16>,
        info: GamepadInfo,
        event: EventType,
        time: u64,
    ) -> (ev: Event)
        requires
            old(self)@.len() < 0xFFFF_FFFFusize,
        ensures
            final(self)@ == resolve_table_spec(
                old(self)@,
                non_roamable_id@,
                gamepad_new_spec(old(self)@.len() as u32, non_roamable_id@, info@),
                event,
            ),
            ev.id as int == resolved_id_spec(old(self)@, non_roamable_id@),
            ev.event == event,
            ev.time == time,
            old(self).wf() ==> final(self).wf(),
    {
        let ghost fresh = gamepad_new_spec(
            old(self)@.len() as u32,
            non_roamable_id@,
            info@,
        );
        proof {
            lemma_find_gamepad_props(old(self)@, non_roamable_id@);
        }
        let id: usize = match self.find_gamepad(non_roamable_id) {
            Option::Some(i) => i,
            Option::None => {
                let next = self.gamepads.len();
                let g = Gamepad::new(next as u32, clone_id(non_roamable_id), info);
                self.gamepads.push(g);
                proof {
                    assert(self@ =~= old(self)@.push(fresh));
                }
                next
            },
        };
        let ghost grown = self@;
        match event {
            EventType::Connected => {
                let mut g = self.gamepads.remove(id);
                g.is_connected = true;
                self.gamepads.insert(id, g);
                proof {
                    assert(self@ =~= grown.update(
                        id as int,
                        with_connected(grown[id as int], true),
                    ));
                }
            },
            EventType::Disconnected => {
                let mut g = self.gamepads.remove(id);
                g.is_connected = false;
                self.gamepads.insert(id, g);
                proof {
                    assert(self@ =~= grown.update(
                        id as int,
                        with_connected(grown[id as int], false),
                    ));
                }
            },
            _ => {
                proof {
                    assert(self@ =~= grown.update(
                        id as int,
                        connection_applied_spec(grown[id as int], event),
                    ));
                }
            },
        }
        proof {
            assert(self@ =~= resolve_table_spec(old(self)@, non_roamable_id@, fresh, event));
        }
        Event { id, event, time }
    }

    /// The descriptor with session id `id`, while it exists.
    pub fn gamepad(&self, id: usize) -> (r: Option<&Gamepad>)
        ensures
            match r {
                Option::Some(g) => id < self@.len() && g@ == self@[id as int],
                Option::None => id >= self@.len(),
            },
    {
        if id < self.gamepads.len() {
            Some(&self.gamepads[id])
        } else {
            None
        }
    }

    /// One past the highest session id handed out so far.
    pub fn last_gamepad_hint(&self) -> (n: usize)
        ensures
            n == self@.len(),
    {
        self.gamepads.len()
    }
}

/// Identity stability: resolving a Disconnected event and then a Connected
/// event carrying the same persistent native identifier yields the same
/// session id both times, whatever descriptors the freshly built records
/// would hold (each carries the event's identifier); the descriptor's
/// connection flag is false after the first resolution and true after the
/// second.
pub proof fn lemma_identity_stability(
    table: Seq<GamepadView>,
    nid: Seq<u16>,
    fresh1: GamepadView,
    fresh2: GamepadView,
)
    requires
        fresh1.non_roamable_id == nid,
        fresh2.non_roamable_id == nid,
    ensures
        ({
            let i1 = resolved_id_spec(table, nid);
            let t1 = resolve_table_spec(table, nid, fresh1, EventType::Disconnected);
            let i2 = resolved_id_spec(t1, nid);
            let t2 = resolve_table_spec(t1, nid, fresh2, EventType::Connected);
            &&& i2 == i1
            &&& t1[i1].is_connected == false
            &&& t2[i1].is_connected == true
        }),
{
    let i1 = resolved_id_spec(table, nid);
    let t1 = resolve_table_spec(table, nid, fresh1, EventType::Disconnected);
    lemma_find_gamepad_props(table, nid);
    match find_gamepad_spec(table, nid) {
        Option::Some(i) => {
            assert(t1 =~= table.update(i, with_connected(table[i], false)));
            assert(forall|j: int|
                0 <= j < t1.len() ==> t1[j].non_roamable_id == table[j].non_roamable_id);
            lemma_find_gamepad_same_ids(t1, table, nid);
        },
        Option::None => {
            let grown = table.push(fresh1);
            assert(t1 =~= grown.update(i1, with_connected(fresh1, false)));
            assert(t1[i1].non_roamable_id == nid);
            assert(forall|j: int| 0 <= j < i1 ==> t1[j] == table[j]);
            lemma_find_gamepad_at(t1, nid, i1);
        },
    }
    assert(find_gamepad_spec(t1, nid) == Some(i1));
    let t2 = resolve_table_spec(t1, nid, fresh2, EventType::Connected);
    assert(t2 =~= t1.update(i1, with_connected(t1[i1], true)));
}

/// New-device append: resolving an event whose identifier has never been
/// seen appends exactly one descriptor, leaves every existing one's
/// identity untouched, and resolves to the session id equal to the prior
/// count of known descriptors.
pub proof fn lemma_new_device_append(
    table: Seq<GamepadView>,
    nid: Seq<u16>,
    fresh: GamepadView,
    event: EventType,
)
    requires
        find_gamepad_spec(table, nid) == None::<int>,
    ensures
        resolved_id_spec(table, nid) == table.len(),
        resolve_table_spec(table, nid, fresh, event).len() == table.len() + 1,
        forall|j: int|
            0 <= j < table.len() ==> resolve_table_spec(table, nid, fresh, event)[j] == table[j],
        resolve_table_spec(table, nid, fresh, event)[table.len() as int]
            == connection_applied_spec(fresh, event),
{
    let t = resolve_table_spec(table, nid, fresh, event);
    assert(t =~= table.push(fresh).update(
        table.len() as int,
        connection_applied_spec(fresh, event),
    ));
}

} // verus!
