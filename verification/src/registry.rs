//! The room registry: which sessions are attached to which room.
//!
//! The registry is a plain value with exclusive access through `&mut`. A
//! server shares one registry between its connections behind a lock that is
//! held for one operation at a time, so every concurrent history is some
//! sequence of the operations below.

use std::collections::HashMap;
use vstd::prelude::*;
use vstd::std_specs::hash::*;

verus! {

broadcast use vstd::std_specs::hash::group_hash_axioms;

/// The sessions attached to `room`: those of its entry, or none where it has
/// no entry.
pub open spec fn sessions_in(rooms: Map<u128, Set<u64>>, room: u128) -> Set<u64> {
    if rooms.contains_key(room) {
        rooms[room]
    } else {
        Set::empty()
    }
}

/// The entries after `session` has joined `room`.
pub open spec fn joined(rooms: Map<u128, Set<u64>>, room: u128, session: u64) -> Map<
    u128,
    Set<u64>,
> {
    rooms.insert(room, sessions_in(rooms, room).insert(session))
}

/// The entries after `session` has left `room`: the entry goes with its last
/// session.
pub open spec fn departed(rooms: Map<u128, Set<u64>>, room: u128, session: u64) -> Map<
    u128,
    Set<u64>,
> {
    let rest = sessions_in(rooms, room).remove(session);
    if rest == Set::<u64>::empty() {
        rooms.remove(room)
    } else {
        rooms.insert(room, rest)
    }
}

/// No entry is empty: a room has an entry only while a session is attached.
pub open spec fn no_empty_room(rooms: Map<u128, Set<u64>>) -> bool {
    forall|room: u128| #[trigger]
        rooms.contains_key(room) ==> exists|session: u64| rooms[room].contains(session)
}

/// One change to the registry.
#[derive(Clone, Copy, Debug)]
pub enum RoomEvent {
    Join { room: u128, session: u64 },
    Leave { room: u128, session: u64 },
}

/// The entries after one event.
pub open spec fn step(rooms: Map<u128, Set<u64>>, event: RoomEvent) -> Map<u128, Set<u64>> {
    match event {
        RoomEvent::Join { room, session } => joined(rooms, room, session),
        RoomEvent::Leave { room, session } => departed(rooms, room, session),
    }
}

/// The entries after a sequence of events, applied in order to `start`.
pub open spec fn replay(start: Map<u128, Set<u64>>, events: Seq<RoomEvent>) -> Map<
    u128,
    Set<u64>,
>
    decreases events.len(),
{
    if events.len() == 0 {
        start
    } else {
        step(replay(start, events.drop_last()), events.last())
    }
}

/// Whether `session` is attached to `room` once `events` have happened: the
/// last event about the pair decides, and `initially` where there is none.
pub open spec fn attached_after(
    initially: bool,
    events: Seq<RoomEvent>,
    room: u128,
    session: u64,
) -> bool
    decreases events.len(),
{
    if events.len() == 0 {
        initially
    } else if events.last() == (RoomEvent::Join { room, session }) {
        true
    } else if events.last() == (RoomEvent::Leave { room, session }) {
        false
    } else {
        attached_after(initially, events.drop_last(), room, session)
    }
}

/// Joining attaches the session to its room and changes no other membership.
pub proof fn lemma_joined_membership(
    rooms: Map<u128, Set<u64>>,
    room: u128,
    session: u64,
    other_room: u128,
    other: u64,
)
    ensures
        sessions_in(joined(rooms, room, session), other_room).contains(other) == ((other_room
            == room && other == session) || sessions_in(rooms, other_room).contains(other)),
{
}

/// Leaving detaches the session from its room and changes no other
/// membership.
pub proof fn lemma_departed_membership(
    rooms: Map<u128, Set<u64>>,
    room: u128,
    session: u64,
    other_room: u128,
    other: u64,
)
    ensures
        sessions_in(departed(rooms, room, session), other_room).contains(other) == (!(other_room
            == room && other == session) && sessions_in(rooms, other_room).contains(other)),
{
    let rest = sessions_in(rooms, room).remove(session);
    if rest == Set::<u64>::empty() {
        assert(!rest.contains(other));
    }
}

/// After any sequence of joins and leaves, a session is attached to a room
/// exactly if the last event about that session and room was a join (or, with
/// no such event, if it was attached at the start).
pub proof fn lemma_replay_membership(
    start: Map<u128, Set<u64>>,
    events: Seq<RoomEvent>,
    room: u128,
    session: u64,
)
    ensures
        sessions_in(replay(start, events), room).contains(session) == attached_after(
            sessions_in(start, room).contains(session),
            events,
            room,
            session,
        ),
    decreases events.len(),
{
    if events.len() > 0 {
        let earlier = replay(start, events.drop_last());
        lemma_replay_membership(start, events.drop_last(), room, session);
        match events.last() {
            RoomEvent::Join { room: r, session: s } => {
                lemma_joined_membership(earlier, r, s, room, session);
            },
            RoomEvent::Leave { room: r, session: s } => {
                lemma_departed_membership(earlier, r, s, room, session);
            },
        }
    }
}

/// Whether an event is about `session` in `room`.
pub open spec fn concerns(event: RoomEvent, room: u128, session: u64) -> bool {
    event == (RoomEvent::Join { room, session }) || event == (RoomEvent::Leave { room, session })
}

/// The events about `session` in `room`, in their order.
pub open spec fn history(events: Seq<RoomEvent>, room: u128, session: u64) -> Seq<RoomEvent>
    decreases events.len(),
{
    if events.len() == 0 {
        Seq::empty()
    } else if concerns(events.last(), room, session) {
        history(events.drop_last(), room, session).push(events.last())
    } else {
        history(events.drop_last(), room, session)
    }
}

/// Whether a session is attached to a room after some events depends on the
/// events about that session and room alone.
pub proof fn lemma_attached_by_own_history(
    initially: bool,
    events: Seq<RoomEvent>,
    room: u128,
    session: u64,
)
    ensures
        attached_after(initially, events, room, session) == attached_after(
            initially,
            history(events, room, session),
            room,
            session,
        ),
    decreases events.len(),
{
    if events.len() > 0 {
        lemma_attached_by_own_history(initially, events.drop_last(), room, session);
        if concerns(events.last(), room, session) {
            let own = history(events.drop_last(), room, session).push(events.last());
            assert(own.last() == events.last());
        }
    }
}

/// The registry does not depend on how the events of different sessions are
/// interleaved. Two sequences of events in which each session's joins and
/// leaves of each room come in the same order lead from one registry to the
/// same registry: the one that replaying either sequence gives.
pub proof fn lemma_interleaving_is_irrelevant(
    start: Map<u128, Set<u64>>,
    first: Seq<RoomEvent>,
    second: Seq<RoomEvent>,
)
    requires
        no_empty_room(start),
        forall|room: u128, session: u64| #[trigger]
            history(first, room, session) == history(second, room, session),
    ensures
        replay(start, first) == replay(start, second),
{
    let a = replay(start, first);
    let b = replay(start, second);
    lemma_replay_no_empty_room(start, first);
    lemma_replay_no_empty_room(start, second);
    assert forall|room: u128, session: u64|
        sessions_in(a, room).contains(session) == sessions_in(b, room).contains(session) by {
        let initially = sessions_in(start, room).contains(session);
        lemma_replay_membership(start, first, room, session);
        lemma_replay_membership(start, second, room, session);
        lemma_attached_by_own_history(initially, first, room, session);
        lemma_attached_by_own_history(initially, second, room, session);
        assert(history(first, room, session) == history(second, room, session));
    }
    assert forall|room: u128| a.contains_key(room) == b.contains_key(room) by {
        lemma_entry_iff_occupied(a, room);
        lemma_entry_iff_occupied(b, room);
        if a.contains_key(room) {
            let attached = choose|x: u64| sessions_in(a, room).contains(x);
            assert(sessions_in(b, room).contains(attached));
        }
        if b.contains_key(room) {
            let attached = choose|x: u64| sessions_in(b, room).contains(x);
            assert(sessions_in(a, room).contains(attached));
        }
    }
    assert forall|room: u128| a.contains_key(room) implies a[room] =~= b[room] by {
        assert forall|x: u64| a[room].contains(x) == b[room].contains(x) by {
            assert(sessions_in(a, room).contains(x) == sessions_in(b, room).contains(x));
        }
    }
    assert(a =~= b);
}

/// One event keeps the registry free of empty entries.
pub proof fn lemma_step_no_empty_room(rooms: Map<u128, Set<u64>>, event: RoomEvent)
    requires
        no_empty_room(rooms),
    ensures
        no_empty_room(step(rooms, event)),
{
    let after = step(rooms, event);
    assert forall|room: u128| #[trigger] after.contains_key(room) implies exists|session: u64|
        after[room].contains(session) by {
        match event {
            RoomEvent::Join { room: r, session: s } => {
                if room == r {
                    assert(after[room].contains(s));
                } else {
                    assert(rooms.contains_key(room));
                    let kept = choose|x: u64| rooms[room].contains(x);
                    assert(after[room].contains(kept));
                }
            },
            RoomEvent::Leave { room: r, session: s } => {
                let rest = sessions_in(rooms, r).remove(s);
                if room == r {
                    assert(rest != Set::<u64>::empty());
                    if forall|x: u64| !rest.contains(x) {
                        assert(rest =~= Set::<u64>::empty());
                    }
                    let kept = choose|x: u64| rest.contains(x);
                    assert(after[room].contains(kept));
                } else {
                    assert(rooms.contains_key(room));
                    let kept = choose|x: u64| rooms[room].contains(x);
                    assert(after[room].contains(kept));
                }
            },
        }
    }
}

/// After any sequence of joins and leaves no room has an empty entry.
pub proof fn lemma_replay_no_empty_room(start: Map<u128, Set<u64>>, events: Seq<RoomEvent>)
    requires
        no_empty_room(start),
    ensures
        no_empty_room(replay(start, events)),
    decreases events.len(),
{
    if events.len() > 0 {
        lemma_replay_no_empty_room(start, events.drop_last());
        lemma_step_no_empty_room(replay(start, events.drop_last()), events.last());
    }
}

/// In a registry without empty entries a room has an entry exactly if at
/// least one session is attached to it.
pub proof fn lemma_entry_iff_occupied(rooms: Map<u128, Set<u64>>, room: u128)
    requires
        no_empty_room(rooms),
    ensures
        rooms.contains_key(room) <==> exists|session: u64|
            sessions_in(rooms, room).contains(session),
{
    if rooms.contains_key(room) {
        let attached = choose|x: u64| rooms[room].contains(x);
        assert(sessions_in(rooms, room).contains(attached));
    }
}

/// Whether `items` holds `wanted`.
pub fn holds(items: &Vec<u64>, wanted: u64) -> (found: bool)
    ensures
        found == items@.contains(wanted),
{
    let mut i: usize = 0;
    while i < items.len()
        invariant
            i <= items.len(),
            forall|k: int| 0 <= k < i ==> items@[k] != wanted,
        decreases items.len() - i,
    {
        if items[i] == wanted {
            return true;
        }
        i += 1;
    }
    false
}

/// The items of `items` other than `dropped`, in their order.
pub fn without(items: &Vec<u64>, dropped: u64) -> (rest: Vec<u64>)
    ensures
        forall|x: u64| rest@.contains(x) <==> (items@.contains(x) && x != dropped),
        rest@.to_set() == items@.to_set().remove(dropped),
        items@.no_duplicates() ==> rest@.no_duplicates(),
{
    let mut rest: Vec<u64> = Vec::new();
    let mut i: usize = 0;
    while i < items.len()
        invariant
            i <= items.len(),
            items@.no_duplicates() ==> rest@.no_duplicates(),
            forall|j: int|
                0 <= j < rest@.len() ==> rest@[j] != dropped && exists|k: int|
                    0 <= k < i && items@[k] == #[trigger] rest@[j],
            forall|k: int| 0 <= k < i && #[trigger] items@[k] != dropped ==> rest@.contains(items@[k]),
        decreases items.len() - i,
    {
        let item = items[i];
        if item != dropped {
            let ghost before = rest@;
            proof {
                if items@.no_duplicates() {
                    assert forall|j: int| 0 <= j < before.len() implies before[j] != item by {
                        let k = choose|k: int| 0 <= k < i && items@[k] == before[j];
                        assert(items@[k] != items@[i as int]);
                    }
                }
            }
            rest.push(item);
            proof {
                assert forall|k: int| 0 <= k <= i && #[trigger] items@[k] != dropped implies rest@.contains(
                    items@[k],
                ) by {
                    if k < i {
                        let j = choose|j: int| 0 <= j < before.len() && before[j] == items@[k];
                        assert(rest@[j] == items@[k]);
                    } else {
                        assert(rest@[before.len() as int] == items@[k]);
                    }
                }
                assert forall|j: int| 0 <= j < rest@.len() implies rest@[j] != dropped && exists|k: int|
                    0 <= k < i + 1 && items@[k] == #[trigger] rest@[j] by {
                    if j < before.len() {
                        let k = choose|k: int| 0 <= k < i && items@[k] == before[j];
                        assert(items@[k] == rest@[j]);
                    } else {
                        assert(items@[i as int] == rest@[j]);
                    }
                }
            }
        }
        i += 1;
    }
    proof {
        assert forall|x: u64| rest@.contains(x) <==> (items@.contains(x) && x != dropped) by {
            if rest@.contains(x) {
                let j = choose|j: int| 0 <= j < rest@.len() && rest@[j] == x;
                let k = choose|k: int| 0 <= k < i && items@[k] == rest@[j];
                assert(items@[k] == x);
            }
            if items@.contains(x) && x != dropped {
                let k = choose|k: int| 0 <= k < items@.len() && items@[k] == x;
                assert(rest@.contains(items@[k]));
            }
        }
        assert(rest@.to_set() =~= items@.to_set().remove(dropped));
    }
    rest
}

/// The rooms with their attached sessions.
pub struct RoomRegistry {
    rooms: HashMap<u128, Vec<u64>>,
}

impl View for RoomRegistry {
    type V = Map<u128, Set<u64>>;

    /// For each room with an entry, the set of its sessions.
    closed spec fn view(&self) -> Map<u128, Set<u64>> {
        Map::new(
            |room: u128| self.rooms@.contains_key(room),
            |room: u128| self.rooms@[room]@.to_set(),
        )
    }
}

impl RoomRegistry {
    /// What holds of every registry: every entry lists at least one session,
    /// and none twice.
    #[verifier::type_invariant]
    pub closed spec fn wf(&self) -> bool {
        forall|room: u128| #[trigger]
            self.rooms@.contains_key(room) ==> self.rooms@[room]@.len() > 0
                && self.rooms@[room]@.no_duplicates()
    }

    /// The sessions attached to `room`.
    pub open spec fn sessions(&self, room: u128) -> Set<u64> {
        sessions_in(self@, room)
    }

    /// A registry whose entries all list a session has no empty entry.
    proof fn lemma_no_empty_room(&self)
        requires
            self.wf(),
        ensures
            no_empty_room(self@),
    {
        assert forall|room: u128| #[trigger] self@.contains_key(room) implies exists|session: u64|
            self@[room].contains(session) by {
            let members = self.rooms@[room]@;
            assert(members.contains(members[0]));
            assert(self@[room].contains(members[0]));
        }
    }

    /// A registry without rooms.
    pub fn new() -> (registry: Self)
        ensures
            registry@ == Map::<u128, Set<u64>>::empty(),
            no_empty_room(registry@),
    {
        let registry = RoomRegistry { rooms: HashMap::new() };
        assert(registry@ =~= Map::<u128, Set<u64>>::empty());
        registry
    }

    /// Attaches `session` to `room`, creating the room's entry if it has none.
    pub fn join(&mut self, room: u128, session: u64)
        ensures
            final(self)@ == joined(old(self)@, room, session),
            no_empty_room(final(self)@),
    {
        proof {
            use_type_invariant(&*self);
        }
        let mut rooms: HashMap<u128, Vec<u64>> = HashMap::new();
        std::mem::swap(&mut self.rooms, &mut rooms);
        let mut members = match rooms.remove(&room) {
            Some(members) => members,
            None => Vec::new(),
        };
        let ghost before = members@;
        assert(before.to_set() =~= sessions_in(old(self)@, room));
        if !holds(&members, session) {
            members.push(session);
            assert(members@.to_set() =~= before.to_set().insert(session)) by {
                assert forall|x: u64| members@.contains(x) <==> (before.contains(x) || x == session) by {
                    if before.contains(x) {
                        let j = choose|j: int| 0 <= j < before.len() && before[j] == x;
                        assert(members@[j] == x);
                    }
                    if x == session {
                        assert(members@[before.len() as int] == x);
                    }
                }
            }
        } else {
            assert(members@.to_set() =~= before.to_set().insert(session));
        }
        rooms.insert(room, members);
        std::mem::swap(&mut self.rooms, &mut rooms);
        assert(self@ =~= joined(old(self)@, room, session));
        proof {
            self.lemma_no_empty_room();
        }
    }

    /// Detaches `session` from `room`, deleting the room's entry when its
    /// last session leaves. A session that is not attached leaves nothing
    /// changed.
    pub fn leave(&mut self, room: u128, session: u64)
        ensures
            final(self)@ == departed(old(self)@, room, session),
            no_empty_room(final(self)@),
    {
        proof {
            use_type_invariant(&*self);
        }
        let mut rooms: HashMap<u128, Vec<u64>> = HashMap::new();
        std::mem::swap(&mut self.rooms, &mut rooms);
        let ghost remaining = sessions_in(old(self)@, room).remove(session);
        match rooms.remove(&room) {
            None => {
                assert(remaining =~= Set::<u64>::empty());
                std::mem::swap(&mut self.rooms, &mut rooms);
                assert(self@ =~= old(self)@.remove(room));
            },
            Some(members) => {
                let rest = without(&members, session);
                assert(members@.to_set() == sessions_in(old(self)@, room));
                assert(rest@.to_set() == remaining);
                if rest.len() > 0 {
                    assert(rest@.contains(rest@[0]));
                    assert(remaining.contains(rest@[0]));
                    assert(remaining != Set::<u64>::empty());
                    rooms.insert(room, rest);
                    std::mem::swap(&mut self.rooms, &mut rooms);
                    assert(self@ =~= old(self)@.insert(room, remaining));
                } else {
                    assert(remaining =~= Set::<u64>::empty());
                    std::mem::swap(&mut self.rooms, &mut rooms);
                    assert(self@ =~= old(self)@.remove(room));
                }
            },
        }
        proof {
            self.lemma_no_empty_room();
        }
    }

    /// The sessions attached to `room` at this moment, each once.
    pub fn snapshot(&self, room: u128) -> (sessions: Vec<u64>)
        ensures
            sessions@.no_duplicates(),
            sessions@.to_set() == self.sessions(room),
    {
        proof {
            use_type_invariant(self);
        }
        match self.rooms.get(&room) {
            None => {
                let sessions: Vec<u64> = Vec::new();
                assert(sessions@.to_set() =~= self.sessions(room));
                sessions
            },
            Some(members) => {
                let mut sessions: Vec<u64> = Vec::new();
                let mut i: usize = 0;
                while i < members.len()
                    invariant
                        i <= members.len(),
                        sessions@ == members@.subrange(0, i as int),
                    decreases members.len() - i,
                {
                    sessions.push(members[i]);
                    assert(sessions@ =~= members@.subrange(0, i + 1));
                    i += 1;
                }
                assert(sessions@ =~= members@);
                sessions
            },
        }
    }

    /// The sessions that a message from `origin` in `room` goes to: every
    /// session attached to the room but `origin` itself.
    pub fn peers(&self, room: u128, origin: u64) -> (recipients: Vec<u64>)
        ensures
            recipients@.no_duplicates(),
            recipients@.to_set() == self.sessions(room).remove(origin),
    {
        let attached = self.snapshot(room);
        without(&attached, origin)
    }

    /// Applies `events` in order.
    pub fn apply(&mut self, events: &Vec<RoomEvent>)
        ensures
            final(self)@ == replay(old(self)@, events@),
            no_empty_room(final(self)@),
    {
        proof {
            use_type_invariant(&*self);
            self.lemma_no_empty_room();
        }
        let mut i: usize = 0;
        while i < events.len()
            invariant
                i <= events.len(),
                no_empty_room(self@),
                self@ == replay(old(self)@, events@.subrange(0, i as int)),
            decreases events.len() - i,
        {
            proof {
                let next = events@.subrange(0, i + 1);
                assert(next.drop_last() =~= events@.subrange(0, i as int));
                assert(next.last() == events@[i as int]);
            }
            match events[i] {
                RoomEvent::Join { room, session } => self.join(room, session),
                RoomEvent::Leave { room, session } => self.leave(room, session),
            }
            i += 1;
        }
        assert(events@.subrange(0, i as int) =~= events@);
    }

    /// Whether `room` has an entry.
    pub fn has_room(&self, room: u128) -> (present: bool)
        ensures
            present == self@.contains_key(room),
    {
        self.rooms.contains_key(&room)
    }

    /// The number of rooms that have an entry.
    pub fn room_count(&self) -> (count: usize)
        ensures
            count == self@.dom().len(),
    {
        assert(self@.dom() =~= self.rooms@.dom());
        self.rooms.len()
    }
}

} // verus!
