use vstd::prelude::*;

verus! {

use crate::token_map::TokenMap;

/// The single authoritative directory of live rooms: room id to the live
/// handle `H` (in the running system, the room's command endpoint and
/// broadcast endpoint). A room id is discoverable here exactly while its
/// actor is alive.
pub struct RoomManager<H> {
    rooms: TokenMap<H>,
    idle: u64,
}

impl<H> View for RoomManager<H> {
    type V = Map<Seq<char>, H>;

    closed spec fn view(&self) -> Map<Seq<char>, H> {
        self.rooms@
    }
}

impl<H> RoomManager<H> {
    /// The inactivity window handed to every room actor this registry
    /// supervises.
    pub closed spec fn idle_window(&self) -> u64 {
        self.idle
    }

    pub closed spec fn wf(&self) -> bool {
        self.rooms.wf()
    }

    /// An empty registry whose rooms will close after `idle` ticks without
    /// traffic.
    pub fn build(idle: u64) -> (r: RoomManager<H>)
        ensures
            r.wf(),
            r@ == Map::<Seq<char>, H>::empty(),
            r.idle_window() == idle,
    {
        RoomManager { rooms: TokenMap::new(), idle }
    }

    /// Make a newly created room discoverable under `room_id`. Called on
    /// the create path before the durable write, so the room is joinable
    /// at once; a failed durable write must be followed by `delete_room`
    /// on the same id, which restores the registry exactly.
    pub fn register_room(&mut self, room_id: String, handle: H)
        requires
            old(self).wf(),
        ensures
            final(self).wf(),
            final(self).idle_window() == old(self).idle_window(),
            final(self)@ == old(self)@.insert(room_id@, handle),
    {
        self.rooms.insert(room_id, handle);
    }

    /// Hand back the live handles of `room_id`, or nothing when no such
    /// room is alive; never creates a room as a side effect.
    pub fn join(&self, room_id: &str) -> (r: Option<&H>)
        requires
            self.wf(),
        ensures
            r is Some <==> self@.contains_key(room_id@),
            match r {
                Some(h) => *h == self@[room_id@],
                None => true,
            },
    {
        let key: String = room_id.to_owned();
        self.rooms.get(&key)
    }

    /// Drop `room_id` from the registry, handing back its handle so the
    /// caller can emit the final `Close` envelope to the room's
    /// subscribers. Called by a room actor on its own termination, and by
    /// the create path to roll a failed creation back. Removing an
    /// already-removed room is a no-op, not an error.
    pub fn delete_room(&mut self, room_id: &str) -> (r: Option<H>)
        requires
            old(self).wf(),
        ensures
            final(self).wf(),
            final(self).idle_window() == old(self).idle_window(),
            final(self)@ == old(self)@.remove(room_id@),
            match r {
                Some(h) => old(self)@.contains_key(room_id@) && h == old(self)@[room_id@],
                None => !old(self)@.contains_key(room_id@),
            },
    {
        let key: String = room_id.to_owned();
        self.rooms.remove(&key)
    }
}

/// A reaped room is gone for good: once a room id is removed from the
/// registry state, a join of that id answers "not alive" (by `join`'s
/// contract, which returns a handle exactly for ids in the registry view).
/// Together with the actor's timer contract this is the idle-room law: a
/// room with no traffic for a whole window is closed by its timer check,
/// its actor removes it here, and every later join of its id fails.
pub proof fn lemma_removed_room_not_alive<H>(m: Map<Seq<char>, H>, id: Seq<char>)
    ensures
        !m.remove(id).contains_key(id),
{
}

/// A failed creation leaves no trace. Creating a room inserts a fresh id
/// and, when the durable write fails, removes that id again: for an id
/// that was not registered before, the removal restores the registry state
/// exactly, so the failed attempt leaks no live room.
pub proof fn lemma_failed_create_leaves_no_trace<H>(m: Map<Seq<char>, H>, id: Seq<char>, h: H)
    requires
        !m.contains_key(id),
    ensures
        m.insert(id, h).remove(id) == m,
{
    assert(m.insert(id, h).remove(id) =~= m);
}

} // verus!
