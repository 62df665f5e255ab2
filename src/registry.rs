use vstd::prelude::*;
use vstd::string::*;
use crate::broadcast::{new_channel, send_message};

verus! {

/// Capacity of the channel of the room every session starts in.
pub const DEFAULT_ROOM_CAPACITY: usize = 16;

/// Capacity of the channel of a room made on request.
pub const ROOM_CAPACITY: usize = 32;

/// A room as the registry records it: its name and the capacity its channel was made with.
pub ghost struct RoomInfo {
    pub name: Seq<char>,
    pub capacity: nat,
}

pub open spec fn has_room(v: Seq<RoomInfo>, name: Seq<char>) -> bool {
    exists|i: int| 0 <= i < v.len() && #[trigger] v[i].name == name
}

/// Where the room called `name` stands; past the end where there is none.
pub open spec fn room_index(v: Seq<RoomInfo>, name: Seq<char>) -> int {
    if has_room(v, name) {
        choose|i: int| 0 <= i < v.len() && #[trigger] v[i].name == name
    } else {
        v.len() as int
    }
}

/// The registry after a get-or-create of `name`: unchanged if the room exists, else one
/// room more, at the end.
pub open spec fn with_room(v: Seq<RoomInfo>, name: Seq<char>, capacity: nat) -> Seq<RoomInfo> {
    if has_room(v, name) {
        v
    } else {
        v.push(RoomInfo { name, capacity })
    }
}

pub open spec fn names_unique(v: Seq<RoomInfo>) -> bool {
    forall|i: int, j: int| 0 <= i < v.len() && 0 <= j < v.len() && i != j ==> v[i].name != v[j].name
}

/// Exactly one room of `v` is called `name`.
pub open spec fn single_room(v: Seq<RoomInfo>, name: Seq<char>) -> bool {
    exists|i: int|
        0 <= i < v.len() && #[trigger] v[i].name == name && forall|j: int|
            0 <= j < v.len() && #[trigger] v[j].name == name ==> j == i
}

/// Get-or-create, made any number of times for one name, yields one room: the first call
/// fixes the room and its index, a later call (whatever capacity it asks for) returns that
/// index and changes nothing, and afterwards exactly one room carries the name. Rooms that
/// existed before keep their places, and names stay unique.
pub proof fn lemma_get_or_create_single_room(v: Seq<RoomInfo>, name: Seq<char>, c1: nat, c2: nat)
    requires
        names_unique(v),
    ensures
        names_unique(with_room(v, name, c1)),
        has_room(with_room(v, name, c1), name),
        room_index(with_room(v, name, c1), name) == room_index(v, name),
        0 <= room_index(v, name) < with_room(v, name, c1).len(),
        with_room(v, name, c1)[room_index(v, name)].name == name,
        with_room(with_room(v, name, c1), name, c2) == with_room(v, name, c1),
        single_room(with_room(v, name, c1), name),
        v.len() <= with_room(v, name, c1).len(),
        forall|i: int| 0 <= i < v.len() ==> with_room(v, name, c1)[i] == v[i],
{
    let w = with_room(v, name, c1);
    if has_room(v, name) {
        let i = room_index(v, name);
        assert(v[i].name == name);
        assert forall|j: int| 0 <= j < w.len() && #[trigger] w[j].name == name implies j == i by {}
    } else {
        let n = v.len() as int;
        assert(w[n].name == name);
        assert(has_room(w, name));
        let k = room_index(w, name);
        assert(w[k].name == name);
        assert(k == n) by {
            if k != n {
                assert(v[k].name == name);
            }
        }
        assert forall|j: int| 0 <= j < w.len() && #[trigger] w[j].name == name implies j == n by {
            if j != n {
                assert(v[j].name == name);
            }
        }
        assert forall|a: int, b: int| 0 <= a < w.len() && 0 <= b < w.len() && a != b implies w[a].name != w[b].name by {
            if a != n && b != n {
                assert(w[a] == v[a] && w[b] == v[b]);
            } else if a == n {
                assert(w[b] == v[b]);
            } else {
                assert(w[a] == v[a]);
            }
        }
    }
}

/// One room: a name and the sending side of its fan-out channel.
pub struct Room {
    name: String,
    capacity: usize,
    sender: tokio::sync::broadcast::Sender<String>,
}

impl Room {
    pub closed spec fn info(&self) -> RoomInfo {
        RoomInfo { name: self.name@, capacity: self.capacity as nat }
    }
}

/// The process-wide map from room name to room, kept as an arena in order of creation.
/// A room's index is its identity; rooms are never removed.
pub struct RoomRegistry {
    rooms: Vec<Room>,
}

impl View for RoomRegistry {
    type V = Seq<RoomInfo>;

    closed spec fn view(&self) -> Seq<RoomInfo> {
        self.rooms@.map_values(|r: Room| r.info())
    }
}

impl RoomRegistry {
    /// The channel of the room at index `i`.
    pub closed spec fn channel(&self, i: int) -> tokio::sync::broadcast::Sender<String> {
        self.rooms@[i].sender
    }

    /// Every room of `self` is still in `next`, at the same index, with the same channel.
    pub open spec fn keeps_channels(&self, next: &RoomRegistry) -> bool {
        forall|i: int| 0 <= i < self@.len() ==> #[trigger] next.channel(i) == self.channel(i)
    }

    /// At most one room per name, and every channel made with a capacity tokio accepts.
    pub open spec fn wf(&self) -> bool {
        &&& names_unique(self@)
        &&& forall|i: int| 0 <= i < self@.len() ==> 0 < #[trigger] self@[i].capacity <= usize::MAX / 2
    }

    pub fn new() -> (r: RoomRegistry)
        ensures
            r.wf(),
            r@ == Seq::<RoomInfo>::empty(),
    {
        let r = RoomRegistry { rooms: Vec::new() };
        assert(r@ =~= Seq::<RoomInfo>::empty());
        r
    }

    pub fn len(&self) -> (r: usize)
        ensures
            r == self@.len(),
    {
        self.rooms.len()
    }

    /// Looks up the room called `name`.
    pub fn find(&self, name: &str) -> (r: Option<usize>)
        requires
            self.wf(),
        ensures
            r is None <==> !has_room(self@, name@),
            r matches Some(i) ==> i == room_index(self@, name@) && i < self@.len()
                && self@[i as int].name == name@,
    {
        let target = String::from_str(name);
        let mut i: usize = 0;
        while i < self.rooms.len()
            invariant
                self.wf(),
                i <= self.rooms@.len(),
                target@ == name@,
                forall|k: int| 0 <= k < i ==> #[trigger] self@[k].name != name@,
            decreases self.rooms@.len() - i,
        {
            if self.rooms[i].name == target {
                let ghost j = room_index(self@, name@);
                assert(self@[i as int].name == name@);
                assert(has_room(self@, name@));
                assert(j == i) by {
                    assert(self@[j].name == name@);
                }
                return Some(i);
            }
            i = i + 1;
        }
        assert(!has_room(self@, name@));
        None
    }

    /// Returns the index of the room called `name`, creating it with a channel of
    /// `capacity` if there is none. Callers that share a registry hold one lock across
    /// this whole call, so no name ever gets two rooms.
    pub fn get_or_create(&mut self, name: &str, capacity: usize) -> (r: usize)
        requires
            old(self).wf(),
            0 < capacity <= usize::MAX / 2,
        ensures
            final(self).wf(),
            final(self)@ == with_room(old(self)@, name@, capacity as nat),
            old(self).keeps_channels(final(self)),
            r == room_index(final(self)@, name@),
            r == room_index(old(self)@, name@),
            r < final(self)@.len(),
            final(self)@[r as int].name == name@,
    {
        match self.find(name) {
            Some(i) => i,
            None => {
                let room = Room { name: String::from_str(name), capacity, sender: new_channel(capacity) };
                let ghost before = self@;
                let ghost before_rooms = self.rooms@;
                self.rooms.push(room);
                assert(forall|k: int| 0 <= k < before_rooms.len() ==> self.rooms@[k] == before_rooms[k]);
                let n = self.rooms.len() - 1;
                assert(self@ =~= before.push(RoomInfo { name: name@, capacity: capacity as nat }));
                assert(has_room(self@, name@)) by {
                    assert(self@[n as int].name == name@);
                }
                assert(room_index(self@, name@) == n) by {
                    let j = room_index(self@, name@);
                    assert(self@[j].name == name@);
                    if j != n {
                        assert(before[j].name == name@);
                    }
                }
                n
            },
        }
    }

    /// The name of the room at index `i`.
    pub fn name(&self, i: usize) -> (r: &String)
        requires
            i < self@.len(),
        ensures
            r@ == self@[i as int].name,
    {
        &self.rooms[i].name
    }

    /// The sending side of the channel of the room at index `i`; subscribing to it gives a
    /// receiver that sees what is published from then on.
    pub fn sender(&self, i: usize) -> (r: &tokio::sync::broadcast::Sender<String>)
        requires
            i < self@.len(),
        ensures
            *r == self.channel(i as int),
    {
        &self.rooms[i].sender
    }

    /// A snapshot of the room names, in order of creation.
    pub fn list_names(&self) -> (r: Vec<String>)
        ensures
            r.deep_view() == self@.map_values(|x: RoomInfo| x.name),
    {
        let mut out: Vec<String> = Vec::new();
        let mut i: usize = 0;
        while i < self.rooms.len()
            invariant
                i <= self.rooms@.len(),
                out@.len() == i,
                forall|k: int| 0 <= k < i ==> #[trigger] out@[k]@ == self@[k].name,
            decreases self.rooms@.len() - i,
        {
            out.push(self.rooms[i].name.clone());
            i = i + 1;
        }
        assert(out.deep_view() =~= self@.map_values(|x: RoomInfo| x.name));
        out
    }

    /// Publishes `message` to every current subscriber of the room at index `room`. A room
    /// with no subscriber drops it; the result says whether anyone was there.
    pub fn publish(&self, room: usize, message: String) -> (r: bool)
        requires
            room < self@.len(),
    {
        send_message(&self.rooms[room].sender, message).is_some()
    }
}

} // verus!
