//! The chat server: which sessions are connected, which rooms exist and who
//! is in each room, and to whom each event is announced.
use std::collections::{HashMap, HashSet};
use vstd::prelude::*;
use vstd::std_specs::hash::{spec_hash_keys_iter, spec_keys_iter};
use vstd::std_specs::iter::IteratorSpec;
use crate::models::messages::Message;
use crate::models::{RoomId, SessionId};
use crate::models::ids::{is_random_uuid, new_uuid};
use crate::messages::server::{ClientMessage, Connect, CreateRoom, Disconnect, JoinRoom, Leave};

verus! {

broadcast use {vstd::std_specs::hash::group_hash_axioms, vstd::seq_lib::group_seq_properties};

/// One announcement: `message` is to be handed to the session `session`.
#[derive(Debug, PartialEq, Eq)]
pub struct Delivery {
    pub session: SessionId,
    pub message: Message,
}

/// The sessions to which the deliveries `ds` go, in order.
pub open spec fn recipients(ds: Seq<Delivery>) -> Seq<SessionId> {
    ds.map_values(|d: Delivery| d.session)
}

/// `ds` hands the text `text` to each session of `to` exactly once, and to
/// no other session.
pub open spec fn delivers(ds: Seq<Delivery>, to: Set<SessionId>, text: Seq<char>) -> bool {
    &&& recipients(ds).no_duplicates()
    &&& recipients(ds).to_set() == to
    &&& forall|i: int| 0 <= i < ds.len() ==> (#[trigger] ds[i]).message.0@ == text
}

/// Each room has finitely many members, and a session is a member of at most
/// one room.
pub open spec fn rooms_wf(rooms: Map<RoomId, Set<SessionId>>) -> bool {
    &&& forall|r: RoomId| #[trigger] rooms.contains_key(r) ==> rooms[r].finite()
    &&& forall|s: SessionId, r1: RoomId, r2: RoomId|
        rooms.contains_key(r1) && rooms.contains_key(r2) && #[trigger] rooms[r1].contains(s)
            && #[trigger] rooms[r2].contains(s) ==> r1 == r2
}

/// The abstract state of a chat server: the connected sessions, each with the
/// handle through which it is reached, and the members of each room.
pub struct ChatServerView<R> {
    pub sessions: Map<SessionId, R>,
    pub rooms: Map<RoomId, Set<SessionId>>,
}

impl<R> ChatServerView<R> {
    /// Session `s` is a member of room `r`.
    pub open spec fn in_room(self, s: SessionId, r: RoomId) -> bool {
        self.rooms.contains_key(r) && self.rooms[r].contains(s)
    }

    /// What every reachable server state satisfies: each room has finitely
    /// many members, and a session is a member of at most one room.
    pub open spec fn inv(self) -> bool {
        rooms_wf(self.rooms)
    }

    /// The room of which `s` is a member, if any.
    pub open spec fn room_of(self, s: SessionId) -> Option<RoomId> {
        if exists|r: RoomId| self.in_room(s, r) {
            Some(choose|r: RoomId| self.in_room(s, r))
        } else {
            None
        }
    }

    /// The same state with `s` taken out of every room (rooms stay, even empty).
    pub open spec fn without(self, s: SessionId) -> Self {
        ChatServerView {
            sessions: self.sessions,
            rooms: self.rooms.map_values(|m: Set<SessionId>| m.remove(s)),
        }
    }

    /// The state once the session `id`, reached through `addr`, is connected.
    pub open spec fn after_connect(self, id: SessionId, addr: R) -> Self {
        ChatServerView { sessions: self.sessions.insert(id, addr), rooms: self.rooms }
    }

    /// The state once `s` is gone: out of every room, and no longer connected.
    pub open spec fn after_disconnect(self, s: SessionId) -> Self {
        ChatServerView { sessions: self.sessions.remove(s), rooms: self.without(s).rooms }
    }

    /// The state once `s` has opened the room `id`: out of its former room,
    /// and the only member of `id`.
    pub open spec fn after_create(self, s: SessionId, id: RoomId) -> Self {
        ChatServerView { sessions: self.sessions, rooms: self.without(s).rooms.insert(id, set![s]) }
    }

    /// The state once `s` has asked to join `room`: out of its former room,
    /// and a member of `room` when that room exists.
    pub open spec fn after_join(self, s: SessionId, room: RoomId) -> Self {
        let left = self.without(s);
        if left.rooms.contains_key(room) {
            ChatServerView { sessions: left.sessions, rooms: left.rooms.insert(room, left.rooms[room].insert(s)) }
        } else {
            left
        }
    }

    /// Who is told that `s` left: the rest of the audience of its room, once
    /// `s` is out of it.
    pub open spec fn leave_audience(self, s: SessionId) -> Set<SessionId> {
        match self.room_of(s) {
            Some(r) => self.without(s).audience(r, s),
            None => Set::empty(),
        }
    }

    /// Who hears what is said in `room` by `skip`: the other members of the
    /// room that are connected sessions.
    pub open spec fn audience(self, room: RoomId, skip: SessionId) -> Set<SessionId> {
        if self.rooms.contains_key(room) {
            self.rooms[room].filter(|m: SessionId| m != skip && self.sessions.contains_key(m))
        } else {
            Set::empty()
        }
    }
}

/// A chat server whose sessions are reached through handles of type `R`.
pub struct ChatServer<R> {
    sessions: HashMap<SessionId, R>,
    rooms: HashMap<RoomId, HashSet<SessionId>>,
}

impl<R> View for ChatServer<R> {
    type V = ChatServerView<R>;

    closed spec fn view(&self) -> ChatServerView<R> {
        ChatServerView {
            sessions: self.sessions@,
            rooms: Map::new(|r: RoomId| self.rooms@.contains_key(r), |r: RoomId| self.rooms@[r]@),
        }
    }
}

/// The members of a room, each once, in the set's own order.
fn members_of(set: &HashSet<SessionId>) -> (v: Vec<SessionId>)
    ensures
        v@.to_set() == set@,
        v@.no_duplicates(),
{
    let mut v: Vec<SessionId> = Vec::new();
    let ghost order = spec_hash_keys_iter(set).remaining();
    for x in it: set.iter()
        invariant
            it.seq() == order,
            v.len() == it.index(),
            forall|i: int| 0 <= i < v.len() ==> v@[i] == *order[i],
    {
        v.push(*x);
    }
    proof {
        assert(v@ == order.unref());
    }
    v
}

impl<R> ChatServer<R> {
    /// The ids of all rooms, each once.
    fn room_ids(&self) -> (v: Vec<RoomId>)
        ensures
            v@.to_set() == self.rooms@.dom(),
            v@.no_duplicates(),
    {
        let mut v: Vec<RoomId> = Vec::new();
        let ghost order = spec_keys_iter(&self.rooms).remaining();
        for x in it: self.rooms.keys()
            invariant
                it.seq() == order,
                v.len() == it.index(),
                forall|i: int| 0 <= i < v.len() ==> v@[i] == *order[i],
        {
            v.push(*x);
        }
        proof {
            assert(v@ == order.unref());
        }
        v
    }

    /// Takes `session` out of every room, and gives the rooms it was in.
    fn remove_from_rooms(&mut self, session: SessionId) -> (affected: Vec<RoomId>)
        requires
            old(self)@.inv(),
        ensures
            final(self)@ == old(self)@.without(session),
            final(self)@.inv(),
            affected@.no_duplicates(),
            forall|r: RoomId| affected@.contains(r) <==> old(self)@.in_room(session, r),
    {
        let keys = self.room_ids();
        let mut affected: Vec<RoomId> = Vec::new();
        let mut i: usize = 0;
        while i < keys.len()
            invariant
                0 <= i <= keys.len(),
                keys@.no_duplicates(),
                keys@.to_set() == old(self).rooms@.dom(),
                self.sessions@ == old(self).sessions@,
                self.rooms@.dom() == old(self).rooms@.dom(),
                forall|k: RoomId| #[trigger] self.rooms@.contains_key(k) ==> self.rooms@[k]@ == (
                    if keys@.take(i as int).contains(k) {
                        old(self).rooms@[k]@.remove(session)
                    } else {
                        old(self).rooms@[k]@
                    }),
                affected@.no_duplicates(),
                forall|r: RoomId| #[trigger] affected@.contains(r) <==> (keys@.take(i as int).contains(r)
                    && old(self).rooms@[r]@.contains(session)),
            decreases keys.len() - i,
        {
            let k = keys[i];
            proof {
                assert(keys@.take(i + 1) =~= keys@.take(i as int).push(k));
                assert(!keys@.take(i as int).contains(k));
                assert(keys@.to_set().contains(k));
            }
            let mut members = self.rooms.remove(&k).unwrap();
            let was_member = members.remove(&session);
            self.rooms.insert(k, members);
            if was_member {
                assert(!affected@.contains(k));
                let ghost before = affected@;
                affected.push(k);
                proof {
                    assert forall|a: int, b: int| 0 <= a < b < affected.len() implies affected@[a]
                        != affected@[b] by {
                        if b == affected.len() - 1 {
                            assert(before.contains(affected@[a]));
                        }
                    }
                }
            }
            i += 1;
        }
        proof {
            assert(keys@.take(keys.len() as int) =~= keys@);
            assert(self@.rooms =~= old(self)@.without(session).rooms);
            assert forall|s: SessionId, r1: RoomId, r2: RoomId|
                #[trigger] self@.in_room(s, r1) && #[trigger] self@.in_room(s, r2) implies r1 == r2 by {
                assert(old(self)@.in_room(s, r1) && old(self)@.in_room(s, r2));
            }
        }
        affected
    }

    /// A server with no session and no room.
    pub fn new() -> (server: Self)
        ensures
            server@.sessions == Map::<SessionId, R>::empty(),
            server@.rooms == Map::<RoomId, Set<SessionId>>::empty(),
            server@.inv(),
    {
        let server = ChatServer { sessions: HashMap::new(), rooms: HashMap::new() };
        assert(server@.rooms =~= Map::<RoomId, Set<SessionId>>::empty());
        server
    }

    /// The announcements of `message` in `room` on behalf of `skip`: one to
    /// each other member of the room that is a connected session.
    pub fn send_message(&self, room: RoomId, message: &str, skip: SessionId) -> (ds: Vec<Delivery>)
        ensures
            delivers(ds@, self@.audience(room, skip), message@),
    {
        let mut out: Vec<Delivery> = Vec::new();
        match self.rooms.get(&room) {
            None => {
                assert(recipients(out@) =~= Seq::<SessionId>::empty());
                assert(recipients(out@).to_set() =~= Set::<SessionId>::empty());
            },
            Some(members) => {
                let ids = members_of(members);
                let ghost pred = |m: SessionId| m != skip && self@.sessions.contains_key(m);
                let mut i: usize = 0;
                while i < ids.len()
                    invariant
                        0 <= i <= ids.len(),
                        ids@.no_duplicates(),
                        pred == (|m: SessionId| m != skip && self@.sessions.contains_key(m)),
                        recipients(out@).no_duplicates(),
                        recipients(out@).to_set() == ids@.take(i as int).to_set().filter(pred),
                        forall|j: int| 0 <= j < out.len() ==> ids@.take(i as int).contains(#[trigger] out@[j].session),
                        forall|j: int| 0 <= j < out.len() ==> (#[trigger] out@[j]).message.0@ == message@,
                    decreases ids.len() - i,
                {
                    let id = ids[i];
                    proof {
                        assert(ids@.take(i + 1) =~= ids@.take(i as int).push(id));
                        assert(!ids@.take(i as int).contains(id));
                        assert forall|j: int| 0 <= j < out.len() implies ids@.take(i + 1).contains(
                            #[trigger] out@[j].session,
                        ) by {
                            let k = choose|k: int| 0 <= k < i && #[trigger] ids@.take(i as int)[k] == out@[j].session;
                            assert(ids@.take(i + 1)[k] == out@[j].session);
                        }
                        assert(ids@.take(i + 1).contains(id)) by {
                            assert(ids@.take(i + 1)[i as int] == id);
                        }
                    }
                    if id != skip && self.sessions.contains_key(&id) {
                        let ghost before = out@;
                        out.push(Delivery { session: id, message: Message(message.to_owned()) });
                        proof {
                            assert(recipients(out@) =~= recipients(before).push(id));
                            assert(recipients(out@).to_set() == recipients(before).to_set().insert(id));
                            assert(ids@.take(i + 1).to_set() == ids@.take(i as int).to_set().insert(id));
                            assert(pred(id));
                            assert(recipients(out@).to_set() =~= ids@.take(i + 1).to_set().filter(pred));
                        }
                    } else {
                        proof {
                            assert(ids@.take(i + 1).to_set().filter(pred) =~= ids@.take(i as int).to_set().filter(pred));
                        }
                    }
                    i += 1;
                }
                proof {
                    assert(ids@.take(ids.len() as int) =~= ids@);
                    assert(recipients(out@).to_set() =~= self@.audience(room, skip));
                }
            },
        }
        out
    }

    /// Takes `session_id` out of every room, and tells the others in its room
    /// that someone disconnected.
    pub fn leave_rooms(&mut self, session_id: SessionId) -> (ds: Vec<Delivery>)
        requires
            old(self)@.inv(),
        ensures
            final(self)@ == old(self)@.without(session_id),
            final(self)@.inv(),
            delivers(ds@, old(self)@.leave_audience(session_id), "Someone disconnected"@),
    {
        let affected = self.remove_from_rooms(session_id);
        proof {
            if affected.len() >= 2 {
                assert(affected@.contains(affected@[0]) && affected@.contains(affected@[1]));
                assert(old(self)@.in_room(session_id, affected@[0]));
                assert(old(self)@.in_room(session_id, affected@[1]));
            }
        }
        let mut out: Vec<Delivery> = Vec::new();
        let mut i: usize = 0;
        while i < affected.len()
            invariant
                affected.len() <= 1,
                0 <= i <= affected.len(),
                i == 0 ==> out@.len() == 0,
                i == 1 ==> delivers(out@, self@.audience(affected@[0], session_id), "Someone disconnected"@),
            decreases affected.len() - i,
        {
            let mut ds = self.send_message(affected[i], "Someone disconnected", session_id);
            out.append(&mut ds);
            i += 1;
        }
        proof {
            if affected.len() == 0 {
                assert(!exists|r: RoomId| old(self)@.in_room(session_id, r)) by {
                    if exists|r: RoomId| old(self)@.in_room(session_id, r) {
                        let r = choose|r: RoomId| old(self)@.in_room(session_id, r);
                        assert(affected@.contains(r));
                    }
                }
                assert(recipients(out@) =~= Seq::<SessionId>::empty());
                assert(recipients(out@).to_set() =~= Set::<SessionId>::empty());
            } else {
                let r = affected@[0];
                assert(affected@.contains(r));
                assert(old(self)@.in_room(session_id, r));
                assert(old(self)@.room_of(session_id) == Some(r));
            }
        }
        out
    }

    /// Connects the session `id`, reached through `addr`.
    pub fn connect_with_id(&mut self, id: SessionId, addr: R)
        requires
            old(self)@.inv(),
        ensures
            final(self)@ == old(self)@.after_connect(id, addr),
            final(self)@.inv(),
    {
        self.sessions.insert(id, addr);
        proof {
            assert(self@.rooms =~= old(self)@.rooms);
        }
    }

    /// Connects a session under the id that it announces, and gives that id
    /// back: the deliveries for that session then reach it through `msg.addr`.
    pub fn connect(&mut self, msg: Connect<R>) -> (id: SessionId)
        requires
            old(self)@.inv(),
        ensures
            id == msg.id,
            final(self)@ == old(self)@.after_connect(msg.id, msg.addr),
            final(self)@.inv(),
    {
        let id = msg.id;
        self.connect_with_id(id, msg.addr);
        id
    }

    /// Forgets a session: it leaves every room (nobody is told) and is no
    /// longer connected.
    pub fn disconnect(&mut self, msg: Disconnect)
        requires
            old(self)@.inv(),
        ensures
            final(self)@ == old(self)@.after_disconnect(msg.session),
            final(self)@.inv(),
    {
        let _ = self.remove_from_rooms(msg.session);
        let _ = self.sessions.remove(&msg.session);
        proof {
            assert(self@.rooms =~= old(self)@.after_disconnect(msg.session).rooms);
        }
    }

    /// A session leaves its room; the others there are told.
    pub fn leave(&mut self, msg: Leave) -> (ds: Vec<Delivery>)
        requires
            old(self)@.inv(),
        ensures
            final(self)@ == old(self)@.without(msg.session),
            final(self)@.inv(),
            delivers(ds@, old(self)@.leave_audience(msg.session), "Someone disconnected"@),
    {
        self.leave_rooms(msg.session)
    }

    /// Relays a chat line to the others in the room it names.
    pub fn client_message(&self, msg: ClientMessage) -> (ds: Vec<Delivery>)
        ensures
            delivers(ds@, self@.audience(msg.room, msg.session), msg.msg@),
    {
        self.send_message(msg.room, msg.msg.as_str(), msg.session)
    }

    /// The session leaves its room (the others there are told) and becomes
    /// the only member of the room `room_id`.
    pub fn create_room_with_id(&mut self, msg: CreateRoom, room_id: RoomId) -> (ds: Vec<Delivery>)
        requires
            old(self)@.inv(),
        ensures
            final(self)@ == old(self)@.after_create(msg.session, room_id),
            final(self)@.inv(),
            delivers(ds@, old(self)@.leave_audience(msg.session), "Someone disconnected"@),
    {
        let session = msg.session;
        let ds = self.leave_rooms(session);
        let ghost left = self@;
        let mut members: HashSet<SessionId> = HashSet::new();
        members.insert(session);
        self.rooms.insert(room_id, members);
        proof {
            assert(members@ =~= set![session]);
            assert(self@.rooms =~= old(self)@.after_create(session, room_id).rooms);
            assert forall|s: SessionId, r1: RoomId, r2: RoomId|
                #[trigger] self@.in_room(s, r1) && #[trigger] self@.in_room(s, r2) implies r1 == r2 by {
                if r1 != room_id && r2 != room_id {
                    assert(left.in_room(s, r1) && left.in_room(s, r2));
                } else if r1 != room_id {
                    assert(s == session);
                    assert(left.in_room(s, r1));
                } else if r2 != room_id {
                    assert(s == session);
                    assert(left.in_room(s, r2));
                }
            }
        }
        ds
    }

    /// Opens a new room under a fresh random id, with the session as its only
    /// member (it leaves its former room, and the others there are told).
    pub fn create_room(&mut self, msg: CreateRoom) -> (r: (RoomId, Vec<Delivery>))
        requires
            old(self)@.inv(),
        ensures
            final(self)@ == old(self)@.after_create(msg.session, r.0),
            final(self)@.inv(),
            is_random_uuid(r.0),
            delivers(r.1@, old(self)@.leave_audience(msg.session), "Someone disconnected"@),
    {
        let room_id = new_uuid();
        let ds = self.create_room_with_id(msg, room_id);
        (room_id, ds)
    }

    /// The session leaves its room (the others there are told) and, when
    /// `msg.room` exists, joins it (the others there are told). The first
    /// deliveries, one per session told of the leaving, are those of the
    /// leaving; all after them are those of the joining.
    pub fn join_room(&mut self, msg: JoinRoom) -> (r: (Result<(), String>, Vec<Delivery>))
        requires
            old(self)@.inv(),
        ensures
            final(self)@ == old(self)@.after_join(msg.session, msg.room),
            final(self)@.inv(),
            ({
                let n = old(self)@.leave_audience(msg.session).len() as int;
                if old(self)@.rooms.contains_key(msg.room) {
                    &&& r.0 is Ok
                    &&& r.1@.len() == n + final(self)@.audience(msg.room, msg.session).len()
                    &&& delivers(r.1@.take(n), old(self)@.leave_audience(msg.session), "Someone disconnected"@)
                    &&& delivers(r.1@.skip(n), final(self)@.audience(msg.room, msg.session), "Someone connected"@)
                } else {
                    &&& r.0 is Err
                    &&& r.0->Err_0@ == "The room doesn't exists"@
                    &&& r.1@.len() == n
                    &&& delivers(r.1@, old(self)@.leave_audience(msg.session), "Someone disconnected"@)
                }
            }),
    {
        let session = msg.session;
        let room = msg.room;
        let mut ds = self.leave_rooms(session);
        let ghost left = self@;
        let ghost first = ds@;
        proof {
            recipients(first).unique_seq_to_set();
            assert(recipients(first).len() == first.len());
        }
        if self.rooms.contains_key(&room) {
            let mut members = self.rooms.remove(&room).unwrap();
            members.insert(session);
            self.rooms.insert(room, members);
            proof {
                assert(self@.rooms =~= old(self)@.after_join(session, room).rooms);
                assert forall|s: SessionId, r1: RoomId, r2: RoomId|
                    #[trigger] self@.in_room(s, r1) && #[trigger] self@.in_room(s, r2) implies r1 == r2 by {
                    if r1 != room && r2 != room {
                        assert(left.in_room(s, r1) && left.in_room(s, r2));
                    } else if r1 != room {
                        if s != session {
                            assert(left.in_room(s, r1) && left.in_room(s, r2));
                        } else {
                            assert(left.in_room(s, r1));
                        }
                    } else if r2 != room {
                        if s != session {
                            assert(left.in_room(s, r1) && left.in_room(s, r2));
                        } else {
                            assert(left.in_room(s, r2));
                        }
                    }
                }
            }
            let mut joined = self.send_message(room, "Someone connected", session);
            let ghost second = joined@;
            ds.append(&mut joined);
            proof {
                recipients(second).unique_seq_to_set();
                assert(recipients(second).len() == second.len());
                assert(ds@.take(first.len() as int) =~= first);
                assert(ds@.skip(first.len() as int) =~= second);
            }
            (Ok(()), ds)
        } else {
            proof {
                assert(self@.rooms =~= old(self)@.after_join(session, room).rooms);
            }
            (Err("The room doesn't exists".to_owned()), ds)
        }
    }

    /// The handle through which the session `id` is reached, if it is connected.
    pub fn recipient(&self, id: SessionId) -> (r: Option<&R>)
        ensures
            match r {
                Some(addr) => self@.sessions.contains_key(id) && *addr == self@.sessions[id],
                None => !self@.sessions.contains_key(id),
            },
    {
        self.sessions.get(&id)
    }
}

} // verus!
