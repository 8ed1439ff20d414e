//! The ephemeral voice-room registry and its event rules.
//!
//! A move event carries what the member left and what they entered. Two
//! independent checks run: a vacate check — a tracked temporary room that
//! is not the lobby and is now empty is deleted, and its record removed —
//! and a spawn check — entering the lobby spawns a fresh private room for
//! the member. The lobby is never deleted, an untracked room is never
//! deleted, and once a room's record is gone a second event for the same
//! room does nothing. The platform calls (create, delete, move) are the
//! host's; it reports the spawned room back via [`RoomRegistry::record_spawn`].

use std::collections::HashMap;
use vstd::prelude::*;

verus! {

broadcast use vstd::std_specs::hash::group_hash_axioms;

/// One row of the temporary-room table, as the store keeps it.
#[derive(Debug, Clone)]
pub struct VoiceChannels {
    pub channel_id: i64,
    pub owner_id: i64,
    pub deletion_marker: bool,
}

/// What the platform reports about a room at the moment of a move event.
#[derive(Debug, Clone)]
pub struct RoomSnapshot {
    pub room_id: i64,
    pub name: String,
    /// Occupants after the move under consideration.
    pub occupants: u64,
}

/// What a move event asks the host to do.
#[derive(Debug, Clone)]
pub struct RoomActions {
    /// Delete this room on the platform (its record is already removed).
    pub delete_room: Option<i64>,
    /// Create a private room owned by this member, then move them into it.
    pub spawn_room_for: Option<i64>,
}

/// The member did not actually change rooms.
pub open spec fn same_room(old_room: Option<RoomSnapshot>, new_room: Option<RoomSnapshot>)
    -> bool {
    match (old_room, new_room) {
        (Some(o), Some(n)) => o.room_id == n.room_id,
        _ => false,
    }
}

/// The room the vacate check deletes, if any: the vacated room, when it is
/// a real change of rooms, is not the lobby, is tracked as temporary, and
/// nobody is left in it.
pub open spec fn vacate_target(
    reg: Map<i64, i64>,
    lobby_name: Seq<char>,
    old_room: Option<RoomSnapshot>,
    new_room: Option<RoomSnapshot>,
) -> Option<i64> {
    match old_room {
        Some(o) => if !same_room(old_room, new_room) && o.name@ != lobby_name
            && reg.contains_key(o.room_id) && o.occupants == 0 {
            Some(o.room_id)
        } else {
            None
        },
        None => None,
    }
}

/// The spawn check fires exactly when the member entered the lobby.
pub open spec fn spawn_fires(
    lobby_name: Seq<char>,
    old_room: Option<RoomSnapshot>,
    new_room: Option<RoomSnapshot>,
) -> bool {
    match new_room {
        Some(n) => !same_room(old_room, new_room) && n.name@ == lobby_name,
        None => false,
    }
}

/// The tracked temporary rooms: room id to owner id.
pub struct RoomRegistry {
    rooms: HashMap<i64, i64>,
}

impl View for RoomRegistry {
    type V = Map<i64, i64>;

    closed spec fn view(&self) -> Map<i64, i64> {
        self.rooms@
    }
}

impl RoomRegistry {
    pub fn new() -> (r: RoomRegistry)
        ensures
            r@ == Map::<i64, i64>::empty(),
    {
        RoomRegistry { rooms: HashMap::new() }
    }

    /// Load one stored row (used to replay the store after a restart).
    pub fn record_room(&mut self, room_id: i64, owner_id: i64)
        ensures
            final(self)@ == old(self)@.insert(room_id, owner_id),
    {
        self.rooms.insert(room_id, owner_id);
    }

    /// Whether a room is tracked as temporary.
    pub fn is_tracked(&self, room_id: i64) -> (r: bool)
        ensures
            r == self@.contains_key(room_id),
    {
        self.rooms.contains_key(&room_id)
    }

    /// Apply one move event: run the vacate and the spawn check, remove the
    /// record of a deleted room, and say what the host must do on the
    /// platform. The two checks are independent; both may fire on one event.
    pub fn handle_move(
        &mut self,
        lobby_name: &String,
        old_room: &Option<RoomSnapshot>,
        new_room: &Option<RoomSnapshot>,
        member_id: i64,
    ) -> (acts: RoomActions)
        ensures
            acts.delete_room == vacate_target(old(self)@, lobby_name@, *old_room, *new_room),
            final(self)@ == match acts.delete_room {
                Some(id) => old(self)@.remove(id),
                None => old(self)@,
            },
            acts.spawn_room_for == if spawn_fires(lobby_name@, *old_room, *new_room) {
                Some(member_id)
            } else {
                None::<i64>
            },
    {
        let mut delete_room: Option<i64> = None;
        let changed = match (old_room, new_room) {
            (Some(o), Some(n)) => o.room_id != n.room_id,
            _ => true,
        };
        if changed {
            if let Some(o) = old_room {
                if !(o.name == *lobby_name) && self.rooms.contains_key(&o.room_id)
                    && o.occupants == 0 {
                    self.rooms.remove(&o.room_id);
                    delete_room = Some(o.room_id);
                }
            }
        }
        let mut spawn_room_for: Option<i64> = None;
        if changed {
            if let Some(n) = new_room {
                if n.name == *lobby_name {
                    spawn_room_for = Some(member_id);
                }
            }
        }
        RoomActions { delete_room, spawn_room_for }
    }

    /// Track a room the host just spawned for `owner_id`.
    pub fn record_spawn(&mut self, room_id: i64, owner_id: i64)
        ensures
            final(self)@ == old(self)@.insert(room_id, owner_id),
    {
        self.rooms.insert(room_id, owner_id);
    }
}

/// Once a room's record is removed, a later "room empty" event for the same
/// room is a no-op: the vacate check never fires for an untracked room.
pub proof fn lemma_deleted_room_event_is_noop(
    reg: Map<i64, i64>,
    lobby_name: Seq<char>,
    old_room: Option<RoomSnapshot>,
    new_room: Option<RoomSnapshot>,
    room_id: i64,
)
    requires
        match old_room {
            Some(o) => o.room_id == room_id,
            None => true,
        },
    ensures
        vacate_target(reg.remove(room_id), lobby_name, old_room, new_room) is None,
{
}

} // verus!
