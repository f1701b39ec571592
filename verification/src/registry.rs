//! The relay server's rooms, one for each device that ever hosted.

use crate::auth::PasswordHash;
use dashmap::DashMap;
use vstd::prelude::*;

verus! {

/// A host that serves a room. Messages for it go to the connection `tx`.
pub struct HostSession {
    pub password_hash: PasswordHash,
    pub tx: u64,
    /// The host's observed public address.
    pub public_addr: String,
}

/// A client that watches a room. Messages for it go to the connection `tx`.
pub struct ClientSession {
    pub peer_id: String,
    pub tx: u64,
    /// The client's observed public address.
    pub public_addr: String,
}

/// A room: at most one host and at most one client.
pub struct RoomEntry {
    pub host: Option<HostSession>,
    pub client: Option<ClientSession>,
}

pub struct HostView {
    pub password_hash: Seq<char>,
    pub tx: u64,
    pub public_addr: Seq<char>,
}

pub struct ClientView {
    pub peer_id: Seq<char>,
    pub tx: u64,
    pub public_addr: Seq<char>,
}

/// Who is in a room.
pub struct RoomView {
    pub host: Option<HostView>,
    pub client: Option<ClientView>,
}

impl View for HostSession {
    type V = HostView;

    open spec fn view(&self) -> HostView {
        HostView {
            password_hash: self.password_hash@,
            tx: self.tx,
            public_addr: self.public_addr@,
        }
    }
}

impl View for ClientSession {
    type V = ClientView;

    open spec fn view(&self) -> ClientView {
        ClientView { peer_id: self.peer_id@, tx: self.tx, public_addr: self.public_addr@ }
    }
}

impl View for RoomEntry {
    type V = RoomView;

    open spec fn view(&self) -> RoomView {
        RoomView {
            host: match self.host {
                Some(h) => Some(h@),
                None => None,
            },
            client: match self.client {
                Some(c) => Some(c@),
                None => None,
            },
        }
    }
}

/// A room without anyone in it.
pub open spec fn empty_room() -> RoomView {
    RoomView { host: None, client: None }
}

/// All rooms, by device ID.
pub type Rooms = Map<Seq<char>, RoomView>;

/// Who is in a device's room; nobody if there is none.
pub open spec fn room_of(rooms: Rooms, device_id: Seq<char>) -> RoomView {
    if rooms.contains_key(device_id) {
        rooms[device_id]
    } else {
        empty_room()
    }
}

/// A room shows who is in it: the host and the client with all that is known of
/// them.
pub proof fn law_rooms_show_who_is_in_them(entry: RoomEntry)
    ensures
        entry@.host is Some <==> entry.host is Some,
        entry.host matches Some(h) ==> {
            &&& entry@.host->0.password_hash == h.password_hash@
            &&& entry@.host->0.tx == h.tx
            &&& entry@.host->0.public_addr == h.public_addr@
        },
        entry@.client is Some <==> entry.client is Some,
        entry.client matches Some(c) ==> {
            &&& entry@.client->0.peer_id == c.peer_id@
            &&& entry@.client->0.tx == c.tx
            &&& entry@.client->0.public_addr == c.public_addr@
        },
{
}

/// A device that has a room is found in it; one that has none is with nobody.
pub proof fn law_rooms_are_found_by_device(rooms: Rooms, device_id: Seq<char>)
    ensures
        rooms.contains_key(device_id) ==> room_of(rooms, device_id) == rooms[device_id],
        !rooms.contains_key(device_id) ==> room_of(rooms, device_id).host is None && room_of(
            rooms,
            device_id,
        ).client is None,
{
}

#[verifier::external_type_specification]
#[verifier::external_body]
#[verifier::reject_recursive_types(K)]
#[verifier::reject_recursive_types(V)]
#[verifier::reject_recursive_types(S)]
pub struct ExDashMap<K, V, S>(dashmap::DashMap<K, V, S>);

/// The entries of the index from device IDs to room numbers.
pub uninterp spec fn index_of(map: DashMap<String, usize>) -> Map<Seq<char>, usize>;

/// `DashMap::new` of the `dashmap` crate: a map without entries.
#[verifier::external_body]
fn index_new() -> (map: DashMap<String, usize>)
    ensures
        index_of(map) == (Map::<Seq<char>, usize>::empty()),
{
    DashMap::new()
}

/// `DashMap::get` of the `dashmap` crate: a copy of the key's value, if the key
/// is in the map.
#[verifier::external_body]
fn index_get(map: &DashMap<String, usize>, key: &str) -> (res: Option<usize>)
    ensures
        res is Some <==> index_of(*map).contains_key(key@),
        res matches Some(value) ==> value == index_of(*map)[key@],
{
    map.get(key).map(|value| *value)
}

/// `DashMap::entry` and `Entry::or_insert` of the `dashmap` crate: a key that
/// is not in the map is added with the given value; a copy of the value that
/// then stands is returned. The map is borrowed mutably, so that nobody else
/// holds a reference into it.
#[verifier::external_body]
fn index_entry_or_insert(map: &mut DashMap<String, usize>, key: String, value: usize) -> (res:
    usize)
    ensures
        index_of(*final(map)) == if index_of(*old(map)).contains_key(key@) {
            index_of(*old(map))
        } else {
            index_of(*old(map)).insert(key@, value)
        },
        res == index_of(*final(map))[key@],
{
    *map.entry(key).or_insert(value)
}

/// `DashMap::len` of the `dashmap` crate: the number of keys.
#[verifier::external_body]
fn index_len(map: &DashMap<String, usize>) -> (n: usize)
    ensures
        n == index_of(*map).len(),
{
    map.len()
}

/// All rooms, by device ID.
pub struct Registry {
    rooms: DashMap<String, usize>,
    entries: Vec<RoomEntry>,
}

impl View for Registry {
    type V = Rooms;

    closed spec fn view(&self) -> Rooms {
        Map::new(
            |id: Seq<char>| index_of(self.rooms).contains_key(id),
            |id: Seq<char>| self.entries@[index_of(self.rooms)[id] as int]@,
        )
    }
}

impl Registry {
    /// Every device ID has a room of its own.
    pub closed spec fn wf(&self) -> bool {
        let index = index_of(self.rooms);
        &&& forall|id: Seq<char>| #[trigger]
            index.contains_key(id) ==> index[id] < self.entries@.len()
        &&& forall|a: Seq<char>, b: Seq<char>|
            #![trigger index.contains_key(a), index.contains_key(b)]
            index.contains_key(a) && index.contains_key(b) && a != b ==> index[a] != index[b]
        &&& index.dom().finite()
    }

    /// The number by which the room of a device is found.
    pub closed spec fn room_number(&self, device_id: Seq<char>) -> usize {
        index_of(self.rooms)[device_id]
    }

    /// A registry without rooms.
    pub fn new() -> (registry: Self)
        ensures
            registry.wf(),
            registry@ == Map::<Seq<char>, RoomView>::empty(),
    {
        let registry = Registry { rooms: index_new(), entries: Vec::new() };
        assert(registry@ =~= Map::<Seq<char>, RoomView>::empty());
        registry
    }

    /// Different devices have rooms of different numbers.
    pub proof fn law_rooms_are_numbered_apart(&self, a: Seq<char>, b: Seq<char>)
        requires
            self.wf(),
            self@.contains_key(a),
            self@.contains_key(b),
            a != b,
        ensures
            self.room_number(a) != self.room_number(b),
    {
    }

    /// The number of the device's room, which is made if there is none yet. Rooms
    /// that were there keep their numbers, and no other room has this one.
    pub fn get_or_create_room(&mut self, device_id: &str) -> (room: usize)
        requires
            old(self).wf(),
        ensures
            final(self).wf(),
            final(self)@ == if old(self)@.contains_key(device_id@) {
                old(self)@
            } else {
                old(self)@.insert(device_id@, empty_room())
            },
            room == final(self).room_number(device_id@),
            final(self)@.contains_key(device_id@),
            !old(self)@.contains_key(device_id@) ==> {
                &&& final(self)@[device_id@].host is None
                &&& final(self)@[device_id@].client is None
            },
            forall|id: Seq<char>| #[trigger]
                old(self)@.contains_key(id) ==> final(self).room_number(id) == old(
                    self,
                ).room_number(id),
            forall|id: Seq<char>| #[trigger]
                final(self)@.contains_key(id) && id != device_id@ ==> final(self).room_number(id)
                    != room,
    {
        let fresh: usize = self.entries.len();
        let room = index_entry_or_insert(&mut self.rooms, device_id.to_owned(), fresh);
        if room == fresh {
            self.entries.push(RoomEntry { host: None, client: None });
        }
        proof {
            let before = index_of(old(self).rooms);
            if before.contains_key(device_id@) {
                assert(self@ =~= old(self)@);
            } else {
                assert(self@ =~= old(self)@.insert(device_id@, empty_room()));
            }
        }
        room
    }

    /// The number of the device's room, if it has one.
    pub fn get_room(&self, device_id: &str) -> (room: Option<usize>)
        ensures
            room is Some <==> self@.contains_key(device_id@),
            room matches Some(n) ==> n == self.room_number(device_id@),
    {
        index_get(&self.rooms, device_id)
    }

    /// The number of rooms.
    pub fn room_count(&self) -> (n: usize)
        ensures
            n == self@.len(),
    {
        proof {
            assert(self@.dom() =~= index_of(self.rooms).dom());
        }
        index_len(&self.rooms)
    }

    /// Who is in the device's room, if it has one.
    pub fn room(&self, device_id: &str) -> (room: Option<&RoomEntry>)
        requires
            self.wf(),
        ensures
            match room {
                Some(entry) => self@.contains_key(device_id@) && entry@ == self@[device_id@],
                None => !self@.contains_key(device_id@),
            },
    {
        match self.get_room(device_id) {
            Some(n) => Some(&self.entries[n]),
            None => None,
        }
    }

    /// Puts `entry` in place of the device's room, and returns what was there.
    /// The room is made if there is none yet.
    pub(crate) fn replace_room(&mut self, device_id: &str, entry: RoomEntry) -> (before: RoomEntry)
        requires
            old(self).wf(),
        ensures
            final(self).wf(),
            final(self)@ == old(self)@.insert(device_id@, entry@),
            before@ == room_of(old(self)@, device_id@),
    {
        let room = self.get_or_create_room(device_id);
        assert(self@.contains_key(device_id@));
        let ghost middle = *self;
        let mut slot = entry;
        std::mem::swap(&mut slot, &mut self.entries[room]);
        assert(self.entries@ =~= middle.entries@.update(room as int, entry));
        assert(slot@ == middle@[device_id@]);
        assert(self@ =~= middle@.insert(device_id@, entry@));
        assert(self@ =~= old(self)@.insert(device_id@, entry@));
        slot
    }

    /// Leaves the device's room without a host.
    pub(crate) fn remove_host(&mut self, device_id: &str)
        requires
            old(self).wf(),
        ensures
            final(self).wf(),
            final(self)@ == old(self)@.insert(
                device_id@,
                RoomView { host: None, ..room_of(old(self)@, device_id@) },
            ),
    {
        let RoomEntry { client, .. } = self.replace_room(
            device_id,
            RoomEntry { host: None, client: None },
        );
        self.replace_room(device_id, RoomEntry { host: None, client });
        assert(self@ =~= old(self)@.insert(
            device_id@,
            RoomView { host: None, ..room_of(old(self)@, device_id@) },
        ));
    }

    /// Puts a client in the device's room, or leaves it without one.
    pub(crate) fn set_client(&mut self, device_id: &str, client: Option<ClientSession>)
        requires
            old(self).wf(),
        ensures
            final(self).wf(),
            final(self)@ == old(self)@.insert(
                device_id@,
                RoomView {
                    client: match client {
                        Some(c) => Some(c@),
                        None => None,
                    },
                    ..room_of(old(self)@, device_id@)
                },
            ),
    {
        let RoomEntry { host, .. } = self.replace_room(
            device_id,
            RoomEntry { host: None, client: None },
        );
        self.replace_room(device_id, RoomEntry { host, client });
        assert(self@ =~= old(self)@.insert(
            device_id@,
            RoomView {
                client: match client {
                    Some(c) => Some(c@),
                    None => None,
                },
                ..room_of(old(self)@, device_id@)
            },
        ));
    }
}

} // verus!
