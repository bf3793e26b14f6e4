//! The room mutation serializer: one lock per room, made on first use.
//!
//! The serializer decides who may mutate a room; it never waits. A caller that
//! is refused suspends until the room is released and asks again, so every
//! sequence of `acquire` and `release` calls, however the callers interleave,
//! is a sequence of the steps specified here.

use vstd::prelude::*;

verus! {

/// Proof of exclusive access to one room, handed out by
/// [`RoomMutationSerializer::acquire`] and given back to
/// [`RoomMutationSerializer::release`]. It cannot be copied.
#[derive(Debug)]
pub struct RoomGuard {
    room_id: String,
}

impl RoomGuard {
    /// The room that the guard gives access to.
    pub closed spec fn room(&self) -> Seq<char> {
        self.room_id@
    }

    /// The room that the guard gives access to.
    pub fn room_id(&self) -> (res: String)
        ensures
            res@ == self.room(),
    {
        self.room_id.clone()
    }
}

struct RoomMutex {
    room_id: String,
    locked: bool,
}

/// The locks of all rooms that were ever asked for.
pub struct RoomMutationSerializer {
    rooms: Vec<RoomMutex>,
}

/// Whether the guard of `room` is out.
pub open spec fn is_held(locks: Map<Seq<char>, bool>, room: Seq<char>) -> bool {
    locks.contains_key(room) && locks[room]
}

/// What [`RoomMutationSerializer::acquire`] does: the locks afterwards, and
/// whether the guard was granted. The lock of a room is made when the room is
/// first asked for; a guard is granted exactly when none is out.
pub open spec fn acquire_spec(locks: Map<Seq<char>, bool>, room: Seq<char>) -> (
    Map<Seq<char>, bool>,
    bool,
) {
    if is_held(locks, room) {
        (locks, false)
    } else {
        (locks.insert(room, true), true)
    }
}

/// What [`RoomMutationSerializer::release`] does to the locks.
pub open spec fn release_spec(locks: Map<Seq<char>, bool>, room: Seq<char>) -> Map<
    Seq<char>,
    bool,
> {
    if locks.contains_key(room) {
        locks.insert(room, false)
    } else {
        locks
    }
}

impl View for RoomMutationSerializer {
    type V = Map<Seq<char>, bool>;

    /// The rooms that have a lock, each with whether its guard is out.
    closed spec fn view(&self) -> Map<Seq<char>, bool> {
        Map::new(
            |room: Seq<char>| self.has(room),
            |room: Seq<char>| self.rooms@[self.find(room)].locked,
        )
    }
}

impl RoomMutationSerializer {
    /// No room has two locks.
    pub closed spec fn wf(&self) -> bool {
        forall|i: int, j: int|
            0 <= i < j < self.rooms@.len() ==> self.rooms@[i].room_id@ != self.rooms@[j].room_id@
    }

    spec fn has(&self, room: Seq<char>) -> bool {
        exists|i: int| 0 <= i < self.rooms@.len() && self.rooms@[i].room_id@ == room
    }

    spec fn find(&self, room: Seq<char>) -> int {
        choose|i: int| 0 <= i < self.rooms@.len() && self.rooms@[i].room_id@ == room
    }

    proof fn lemma_find(&self, i: int)
        requires
            self.wf(),
            0 <= i < self.rooms@.len(),
        ensures
            self.has(self.rooms@[i].room_id@),
            self.find(self.rooms@[i].room_id@) == i,
    {
        let room = self.rooms@[i].room_id@;
        let k = self.find(room);
        assert(0 <= k < self.rooms@.len() && self.rooms@[k].room_id@ == room);
        if k < i {
            assert(self.rooms@[k].room_id@ != self.rooms@[i].room_id@);
        }
        if i < k {
            assert(self.rooms@[i].room_id@ != self.rooms@[k].room_id@);
        }
    }

    /// A serializer that has no lock yet.
    pub fn new() -> (res: RoomMutationSerializer)
        ensures
            res.wf(),
            res@ == Map::<Seq<char>, bool>::empty(),
    {
        let res = RoomMutationSerializer { rooms: Vec::new() };
        assert(res@ =~= Map::<Seq<char>, bool>::empty());
        res
    }

    fn position(&self, room_id: &String) -> (res: Option<usize>)
        requires
            self.wf(),
        ensures
            match res {
                Some(i) => i < self.rooms@.len() && self.rooms@[i as int].room_id@ == room_id@
                    && self@.contains_key(room_id@) && self@[room_id@]
                    == self.rooms@[i as int].locked,
                None => !self@.contains_key(room_id@),
            },
    {
        let mut i: usize = 0;
        while i < self.rooms.len()
            invariant
                self.wf(),
                i <= self.rooms@.len(),
                forall|j: int| 0 <= j < i ==> self.rooms@[j].room_id@ != room_id@,
            decreases self.rooms@.len() - i,
        {
            if self.rooms[i].room_id == *room_id {
                proof {
                    self.lemma_find(i as int);
                }
                return Some(i);
            }
            i += 1;
        }
        None
    }

    fn put(&mut self, room_id: String, locked: bool)
        requires
            old(self).wf(),
        ensures
            final(self).wf(),
            final(self)@ == old(self)@.insert(room_id@, locked),
    {
        let ghost room = room_id@;
        match self.position(&room_id) {
            Some(i) => {
                self.rooms.set(i, RoomMutex { room_id, locked });
                assert(self.wf());
                proof {
                    self.lemma_find(i as int);
                }
            },
            None => {
                self.rooms.push(RoomMutex { room_id, locked });
                let ghost n = old(self).rooms@.len() as int;
                assert(self.wf()) by {
                    assert forall|i: int, j: int| 0 <= i < j < self.rooms@.len() implies self.rooms@[i].room_id@
                        != self.rooms@[j].room_id@ by {
                        if j == n {
                            assert(old(self).rooms@[i].room_id@ == self.rooms@[i].room_id@);
                            assert(!old(self).has(room));
                        }
                    }
                }
                proof {
                    self.lemma_find(n);
                }
            },
        }
        assert forall|r: Seq<char>| self.has(r) == (old(self).has(r) || r == room) by {
            if old(self).has(r) {
                let k = old(self).find(r);
                assert(self.rooms@[k].room_id@ == r);
            }
            if self.has(r) && r != room {
                let k = self.find(r);
                assert(old(self).rooms@[k].room_id@ == r);
            }
        }
        assert forall|r: Seq<char>| self.has(r) implies self.rooms@[self.find(r)].locked == (if r
            == room {
            locked
        } else {
            old(self).rooms@[old(self).find(r)].locked
        }) by {
            let k = self.find(r);
            self.lemma_find(k);
            if r != room {
                old(self).lemma_find(k);
            }
        }
        assert(self@ =~= old(self)@.insert(room, locked));
    }

    /// Whether the guard of `room_id` is out.
    pub fn is_locked(&self, room_id: &str) -> (res: bool)
        requires
            self.wf(),
        ensures
            res == is_held(self@, room_id@),
    {
        let key = room_id.to_owned();
        match self.position(&key) {
            Some(i) => self.rooms[i].locked,
            None => false,
        }
    }

    /// Asks for the guard of `room_id`. It is granted exactly when it is not
    /// out; the caller that gets `None` waits for the release and asks again.
    /// The room's lock is made here if this is the first time the room is
    /// asked for. No other room is touched.
    pub fn acquire(&mut self, room_id: &str) -> (res: Option<RoomGuard>)
        requires
            old(self).wf(),
        ensures
            final(self).wf(),
            final(self)@ == acquire_spec(old(self)@, room_id@).0,
            res is Some == acquire_spec(old(self)@, room_id@).1,
            res matches Some(guard) ==> guard.room() == room_id@,
    {
        if self.is_locked(room_id) {
            None
        } else {
            self.put(room_id.to_owned(), true);
            Some(RoomGuard { room_id: room_id.to_owned() })
        }
    }

    /// Takes the guard back: its room can be acquired again. No other room is
    /// touched.
    pub fn release(&mut self, guard: RoomGuard)
        requires
            old(self).wf(),
        ensures
            final(self).wf(),
            final(self)@ == release_spec(old(self)@, guard.room()),
    {
        match self.position(&guard.room_id) {
            Some(_) => {
                self.put(guard.room_id, false);
            },
            None => {},
        }
    }
}

/// One step of a caller: it asks for a room's guard, or gives one back.
pub enum LockOp {
    Acquire(Seq<char>),
    Release(Seq<char>),
}

/// The locks after `op`.
pub open spec fn after_op(locks: Map<Seq<char>, bool>, op: LockOp) -> Map<Seq<char>, bool> {
    match op {
        LockOp::Acquire(room) => acquire_spec(locks, room).0,
        LockOp::Release(room) => release_spec(locks, room),
    }
}

/// The locks after `ops`, made one after the other.
pub open spec fn after_ops(locks: Map<Seq<char>, bool>, ops: Seq<LockOp>) -> Map<Seq<char>, bool>
    decreases ops.len(),
{
    if ops.len() == 0 {
        locks
    } else {
        after_ops(after_op(locks, ops[0]), ops.drop_first())
    }
}

/// A guard is granted only for a room whose guard is not out, and is out from
/// then on; while it is out, asking again is refused and changes nothing.
pub proof fn lemma_one_guard_per_room(locks: Map<Seq<char>, bool>, room: Seq<char>)
    ensures
        acquire_spec(locks, room).1 <==> !is_held(locks, room),
        is_held(acquire_spec(locks, room).0, room),
        !acquire_spec(acquire_spec(locks, room).0, room).1,
        is_held(locks, room) ==> acquire_spec(locks, room).0 == locks,
{
}

/// While nobody releases `room`, whatever else the callers do in whatever
/// order, its guard stays out and no second one is granted.
pub proof fn lemma_exclusive_until_released(
    locks: Map<Seq<char>, bool>,
    ops: Seq<LockOp>,
    room: Seq<char>,
)
    requires
        is_held(locks, room),
        forall|i: int| 0 <= i < ops.len() ==> ops[i] != LockOp::Release(room),
    ensures
        is_held(after_ops(locks, ops), room),
        !acquire_spec(after_ops(locks, ops), room).1,
    decreases ops.len(),
{
    if ops.len() > 0 {
        let next = after_op(locks, ops[0]);
        assert(ops[0] != LockOp::Release(room));
        assert(is_held(next, room));
        assert forall|i: int| 0 <= i < ops.drop_first().len() implies ops.drop_first()[i]
            != LockOp::Release(room) by {
            assert(ops.drop_first()[i] == ops[i + 1]);
        }
        lemma_exclusive_until_released(next, ops.drop_first(), room);
    }
}

/// Rooms do not get in each other's way: what is done to one room changes
/// neither whether another room's guard is out nor whether it would be
/// granted, and two rooms can be acquired in either order with the same
/// outcome.
pub proof fn lemma_rooms_are_independent(locks: Map<Seq<char>, bool>, op: LockOp, other: Seq<char>)
    requires
        op != LockOp::Acquire(other),
        op != LockOp::Release(other),
    ensures
        is_held(after_op(locks, op), other) == is_held(locks, other),
        acquire_spec(after_op(locks, op), other).1 == acquire_spec(locks, other).1,
        after_op(after_op(locks, op), LockOp::Acquire(other)) == after_op(
            after_op(locks, LockOp::Acquire(other)),
            op,
        ),
{
    assert(after_op(after_op(locks, op), LockOp::Acquire(other)) =~= after_op(
        after_op(locks, LockOp::Acquire(other)),
        op,
    ));
}

} // verus!
