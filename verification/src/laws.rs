//! Properties of the chat rooms that span several operations.
use vstd::prelude::*;
use crate::actors::chat_server::{delivers, recipients, ChatServerView, Delivery};
use crate::actors::chat_session::{asks, Effect, Request, WsChatSession};
use crate::messages::server::{CreateRoom, Leave};
use crate::messages::wsmessage;
use crate::models::ws::{MessageType, WsMessage};
use crate::messages::server::{Disconnect, JoinRoom};
use crate::models::ids::{hyphenated, uuid_parse, ParsedUuid};
use crate::models::{RoomId, SessionId};

verus! {

/// Every operation of the server keeps its invariant: each room has finitely
/// many members and no session is in two rooms.
pub proof fn lemma_operations_keep_inv<R>(
    v: ChatServerView<R>,
    s: SessionId,
    id: SessionId,
    addr: R,
    room: RoomId,
)
    requires
        v.inv(),
    ensures
        v.after_connect(id, addr).inv(),
        v.without(s).inv(),
        v.after_disconnect(s).inv(),
        v.after_create(s, room).inv(),
        v.after_join(s, room).inv(),
{
    let left = v.without(s);
    assert(left.inv()) by {
        assert forall|t: SessionId, r1: RoomId, r2: RoomId|
            left.rooms.contains_key(r1) && left.rooms.contains_key(r2) && #[trigger] left.rooms[r1].contains(t)
                && #[trigger] left.rooms[r2].contains(t) implies r1 == r2 by {
            assert(v.rooms[r1].contains(t) && v.rooms[r2].contains(t));
        }
    }
    let created = v.after_create(s, room);
    assert(created.inv()) by {
        assert forall|t: SessionId, r1: RoomId, r2: RoomId|
            created.rooms.contains_key(r1) && created.rooms.contains_key(r2) && #[trigger] created.rooms[r1].contains(t)
                && #[trigger] created.rooms[r2].contains(t) implies r1 == r2 by {
            if r1 != room && r2 != room {
                assert(left.rooms[r1].contains(t) && left.rooms[r2].contains(t));
            } else if r1 != room {
                assert(left.rooms[r1].contains(t));
            } else if r2 != room {
                assert(left.rooms[r2].contains(t));
            }
        }
    }
    let joined = v.after_join(s, room);
    assert(joined.inv()) by {
        if left.rooms.contains_key(room) {
            assert forall|t: SessionId, r1: RoomId, r2: RoomId|
                joined.rooms.contains_key(r1) && joined.rooms.contains_key(r2) && #[trigger] joined.rooms[r1].contains(t)
                    && #[trigger] joined.rooms[r2].contains(t) implies r1 == r2 by {
                if t != s {
                    assert(left.rooms[r1].contains(t) && left.rooms[r2].contains(t));
                } else if r1 != room {
                    assert(left.rooms[r1].contains(t));
                } else if r2 != room {
                    assert(left.rooms[r2].contains(t));
                }
            }
        }
    }
}

/// A session that leaves, or disconnects, is in no room afterwards; once
/// disconnected it is no longer connected either.
pub proof fn lemma_leaving_empties_membership<R>(v: ChatServerView<R>, s: SessionId)
    ensures
        v.without(s).room_of(s) is None,
        v.after_disconnect(s).room_of(s) is None,
        !v.after_disconnect(s).sessions.contains_key(s),
{
}

/// Whoever opens a room is its only member, and in no other room.
pub proof fn lemma_creator_alone_in_new_room<R>(v: ChatServerView<R>, s: SessionId, room: RoomId)
    ensures
        v.after_create(s, room).rooms[room] == set![s],
        v.after_create(s, room).room_of(s) == Some(room),
{
    let c = v.after_create(s, room);
    assert(c.in_room(s, room));
    assert forall|r: RoomId| #[trigger] c.in_room(s, r) implies r == room by {}
}

/// Joining a room that exists makes the session a member of it and of no
/// other room, and keeps the room's other members; joining one that does
/// not exist leaves the session in no room.
pub proof fn lemma_join_enters_room<R>(v: ChatServerView<R>, s: SessionId, room: RoomId)
    ensures
        v.rooms.contains_key(room) ==> v.after_join(s, room).room_of(s) == Some(room),
        v.rooms.contains_key(room) ==> forall|t: SessionId| #[trigger] v.in_room(t, room)
            ==> v.after_join(s, room).in_room(t, room),
        !v.rooms.contains_key(room) ==> v.after_join(s, room).room_of(s) is None,
{
    let j = v.after_join(s, room);
    if v.rooms.contains_key(room) {
        assert(j.in_room(s, room));
        assert forall|r: RoomId| #[trigger] j.in_room(s, r) implies r == room by {}
    }
}

/// What a session does to rooms moves no other session: after it leaves,
/// disconnects or joins, every other session is in the rooms it was in; so
/// also after it opens a room whose id no room had.
pub proof fn lemma_others_stay<R>(v: ChatServerView<R>, s: SessionId, t: SessionId, room: RoomId, r: RoomId)
    requires
        t != s,
    ensures
        v.without(s).in_room(t, r) == v.in_room(t, r),
        v.after_disconnect(s).in_room(t, r) == v.in_room(t, r),
        v.after_join(s, room).in_room(t, r) == v.in_room(t, r),
        !v.rooms.contains_key(room) ==> v.after_create(s, room).in_room(t, r) == v.in_room(t, r),
{
}

/// What a session says is never handed back to it, and reaches only
/// connected members of the room; the same holds of the notice that it left.
pub proof fn lemma_no_echo<R>(v: ChatServerView<R>, s: SessionId, room: RoomId, t: SessionId)
    ensures
        !v.audience(room, s).contains(s),
        v.audience(room, s).contains(t) <==> (t != s && v.in_room(t, room) && v.sessions.contains_key(t)),
        !v.leave_audience(s).contains(s),
{
}

/// The room id that a session is given when it opens a room, sent back as
/// the text of a `Join`, asks the server to join that same room.
pub proof fn lemma_created_id_joins_room(session: WsChatSession, room: RoomId, es: Seq<Effect>)
    requires
        uuid_parse(hyphenated(room)) == ParsedUuid::Ok(room),
    ensures
        session.join_effects(hyphenated(room), es) == asks(es, Request::JoinRoom(JoinRoom { session: session.id, room })),
{
}

/// A silent client is given up in time. Let the heartbeat tick at
/// `start + k * interval` for `k = 0, 1, ..` (`interval > 0`), let the client
/// have shown itself alive last at `hb <= t0`, and let ticking have begun by
/// `t0 + timeout`. Then the first tick after `t0 + timeout` comes no later
/// than `t0 + timeout + interval`, sees more than `timeout` of silence, and
/// there the session tells the server it is gone and stops.
pub proof fn lemma_silent_client_dropped_in_time(
    session: WsChatSession,
    start: int,
    interval: int,
    timeout: int,
    t0: int,
    hb: int,
) -> (k: nat)
    requires
        interval > 0,
        hb <= t0,
        start <= t0 + timeout,
    ensures
        t0 + timeout < start + k * interval <= t0 + timeout + interval,
        forall|j: nat| j < k ==> #[trigger] (start + j * interval) <= t0 + timeout,
        session.tick_effects(start + k * interval - hb, timeout) == seq![
            Effect::Ask(Request::Disconnect(Disconnect { session: session.id })),
            Effect::Stop,
        ],
{
    let d = t0 + timeout - start;
    let q = d / interval;
    let r = d % interval;
    assert(d == q * interval + r && 0 <= r < interval && q >= 0) by (nonlinear_arith)
        requires
            d >= 0,
            interval > 0,
            q == d / interval,
            r == d % interval,
    ;
    let k = (q + 1) as nat;
    assert(start + k * interval == t0 + timeout + (interval - r)) by (nonlinear_arith)
        requires
            k == q + 1,
            d == q * interval + r,
            d == t0 + timeout - start,
    ;
    assert forall|j: nat| j < k implies #[trigger] (start + j * interval) <= t0 + timeout by {
        assert(j * interval <= q * interval) by (nonlinear_arith)
            requires
                j <= q,
                interval > 0,
        ;
    }
    k
}

/// The text that a client message carries: its data, or the empty text.
pub open spec fn text_of(msg: WsMessage) -> Seq<char> {
    match msg.data {
        Some(d) => d@,
        None => Seq::<char>::empty(),
    }
}

/// Only a chat line depends on the room a session is in: to a `Create`,
/// `Join`, `Leave` or error message, two sessions with the same id answer
/// alike, whatever room either is in.
pub proof fn lemma_requests_ignore_current_room(s1: WsChatSession, s2: WsChatSession, msg: WsMessage, es: Seq<Effect>)
    requires
        s1.id == s2.id,
        msg.ty != MessageType::Msg,
    ensures
        s1.answers(msg, es) == s2.answers(msg, es),
{
}

/// A `Create` message, whatever its text and whatever room the session is
/// in, asks the server for a new room for this session, and does nothing else.
pub proof fn lemma_create_asks_for_room(s: WsChatSession, msg: WsMessage, es: Seq<Effect>)
    requires
        msg.ty == MessageType::Create,
    ensures
        s.answers(msg, es) <==> es == seq![Effect::Ask(Request::CreateRoom(CreateRoom { session: s.id }))],
{
    if s.answers(msg, es) {
        assert(es =~= seq![Effect::Ask(Request::CreateRoom(CreateRoom { session: s.id }))]);
    }
}

/// A `Leave` message, whatever room the session is in (or none), asks the
/// server to take this session out of its room, and does nothing else.
pub proof fn lemma_leave_asks_to_leave(s: WsChatSession, msg: WsMessage, es: Seq<Effect>)
    requires
        msg.ty == MessageType::Leave,
    ensures
        s.answers(msg, es) <==> es == seq![Effect::Ask(Request::Leave(Leave { session: s.id }))],
{
    if s.answers(msg, es) {
        assert(es =~= seq![Effect::Ask(Request::Leave(Leave { session: s.id }))]);
    }
}

/// A `Join` message whose text reads as a room id asks the server to move
/// this session into that room, whatever room it is in now, and does nothing
/// else; one whose text is no room id only reports why, as an error.
pub proof fn lemma_join_asks_for_named_room(s: WsChatSession, msg: WsMessage, es: Seq<Effect>)
    requires
        msg.ty == MessageType::Join,
    ensures
        uuid_parse(text_of(msg)) is Ok ==> (s.answers(msg, es) <==> es == seq![
            Effect::Ask(Request::JoinRoom(JoinRoom { session: s.id, room: uuid_parse(text_of(msg))->Ok_0 })),
        ]),
        uuid_parse(text_of(msg)) is Err ==> (s.answers(msg, es) <==> (es.len() == 1 && es[0] is Reply
            && es[0]->Reply_0.ty == wsmessage::MessageType::Error && es[0]->Reply_0.data@ == uuid_parse(
            text_of(msg),
        )->Err_0)),
{
    if uuid_parse(text_of(msg)) is Ok && s.answers(msg, es) {
        assert(es =~= seq![
            Effect::Ask(Request::JoinRoom(JoinRoom { session: s.id, room: uuid_parse(text_of(msg))->Ok_0 })),
        ]);
    }
}

/// A `Msg` message from a session in room `r` relays its whole text, any
/// characters at all, as said by this session in `r`, and does nothing else;
/// from a session in no room it is refused with an error.
pub proof fn lemma_chat_line_relayed_verbatim(s: WsChatSession, msg: WsMessage, es: Seq<Effect>)
    requires
        msg.ty == MessageType::Msg,
    ensures
        s.room is Some ==> (s.answers(msg, es) <==> (es.len() == 1 && es[0] is Ask
            && es[0]->Ask_0 is ClientMessage && es[0]->Ask_0->ClientMessage_0.session == s.id
            && es[0]->Ask_0->ClientMessage_0.room == s.room->0 && es[0]->Ask_0->ClientMessage_0.msg@ == text_of(
            msg,
        ))),
        s.room is None ==> (s.answers(msg, es) <==> (es.len() == 1 && es[0] is Reply
            && es[0]->Reply_0.ty == wsmessage::MessageType::Error && es[0]->Reply_0.data@
            == "You are not in a room yet"@)),
{
}

/// An error report from the client is ignored.
pub proof fn lemma_client_error_ignored(s: WsChatSession, msg: WsMessage, es: Seq<Effect>)
    requires
        msg.ty == MessageType::Error,
    ensures
        s.answers(msg, es) <==> es.len() == 0,
{
}

/// Disconnecting a session keeps every room, empty ones too, and takes
/// only that session out of them and out of the connected sessions.
pub proof fn lemma_disconnect_keeps_rooms<R>(v: ChatServerView<R>, s: SessionId)
    ensures
        v.after_disconnect(s).rooms.dom() == v.rooms.dom(),
        forall|r: RoomId| #[trigger] v.rooms.contains_key(r) ==> v.after_disconnect(s).rooms[r] == v.rooms[r].remove(s),
        v.after_disconnect(s).sessions == v.sessions.remove(s),
{
    assert(v.after_disconnect(s).rooms.dom() =~= v.rooms.dom());
}

/// Leaving keeps every room, empty ones too, takes only the leaving session
/// out of them, and keeps every session connected.
pub proof fn lemma_leave_keeps_rooms<R>(v: ChatServerView<R>, s: SessionId)
    ensures
        v.without(s).rooms.dom() == v.rooms.dom(),
        forall|r: RoomId| #[trigger] v.rooms.contains_key(r) ==> v.without(s).rooms[r] == v.rooms[r].remove(s),
        v.without(s).sessions == v.sessions,
{
    assert(v.without(s).rooms.dom() =~= v.rooms.dom());
}

/// Opening room `id` adds it (or replaces it) with `s` as its only member,
/// keeps every other room with only `s` taken out, and keeps the sessions.
pub proof fn lemma_create_adds_room<R>(v: ChatServerView<R>, s: SessionId, id: RoomId)
    ensures
        v.after_create(s, id).rooms.dom() == v.rooms.dom().insert(id),
        v.after_create(s, id).rooms[id] == set![s],
        forall|r: RoomId| #[trigger] v.rooms.contains_key(r) && r != id ==> v.after_create(s, id).rooms[r]
            == v.rooms[r].remove(s),
        v.after_create(s, id).sessions == v.sessions,
{
    assert(v.after_create(s, id).rooms.dom() =~= v.rooms.dom().insert(id));
}

/// Joining keeps the set of rooms and the sessions; an existing room gains
/// the session, every other room only loses it.
pub proof fn lemma_join_moves_session<R>(v: ChatServerView<R>, s: SessionId, room: RoomId)
    ensures
        v.after_join(s, room).rooms.dom() == v.rooms.dom(),
        v.rooms.contains_key(room) ==> v.after_join(s, room).rooms[room] == v.rooms[room].insert(s),
        forall|r: RoomId| #[trigger] v.rooms.contains_key(r) && r != room ==> v.after_join(s, room).rooms[r]
            == v.rooms[r].remove(s),
        v.after_join(s, room).sessions == v.sessions,
{
    assert(v.after_join(s, room).rooms.dom() =~= v.rooms.dom());
    if v.rooms.contains_key(room) {
        assert(v.after_join(s, room).rooms[room] =~= v.rooms[room].insert(s));
    }
}

/// Connecting registers the handle under the announced id and changes no room.
pub proof fn lemma_connect_registers<R>(v: ChatServerView<R>, id: SessionId, addr: R)
    ensures
        v.after_connect(id, addr).sessions.contains_key(id),
        v.after_connect(id, addr).sessions[id] == addr,
        forall|t: SessionId| t != id ==> v.after_connect(id, addr).sessions.contains_key(t)
            == v.sessions.contains_key(t),
        v.after_connect(id, addr).rooms == v.rooms,
{
}

/// Of a session in room `r` (in a well-formed state), who is told that it
/// left: exactly the other connected members of `r`.
pub proof fn lemma_leave_notifies_old_room<R>(v: ChatServerView<R>, s: SessionId, r: RoomId, t: SessionId)
    requires
        v.inv(),
        v.in_room(s, r),
    ensures
        v.leave_audience(s).contains(t) <==> (t != s && v.in_room(t, r) && v.sessions.contains_key(t)),
{
    assert(v.room_of(s) == Some(r));
}

/// Deliveries for `to` with `text` give `text` to members of `to` only, to
/// each member exactly once, and are as many as the members.
pub proof fn lemma_delivers_each_once(ds: Seq<Delivery>, to: Set<SessionId>, text: Seq<char>, t: SessionId)
    requires
        delivers(ds, to, text),
    ensures
        forall|i: int| 0 <= i < ds.len() ==> to.contains(#[trigger] ds[i].session) && ds[i].message.0@ == text,
        forall|i: int, j: int| 0 <= i < j < ds.len() ==> ds[i].session != ds[j].session,
        to.contains(t) ==> exists|i: int| 0 <= i < ds.len() && #[trigger] ds[i].session == t,
        ds.len() == to.len(),
{
    let rs = recipients(ds);
    assert forall|i: int| 0 <= i < ds.len() implies to.contains(#[trigger] ds[i].session) && ds[i].message.0@
        == text by {
        assert(rs[i] == ds[i].session);
        assert(rs.to_set().contains(rs[i]));
    }
    assert forall|i: int, j: int| 0 <= i < j < ds.len() implies ds[i].session != ds[j].session by {
        assert(rs[i] == ds[i].session && rs[j] == ds[j].session);
    }
    if to.contains(t) {
        assert(rs.to_set().contains(t));
        let i = choose|i: int| 0 <= i < rs.len() && rs[i] == t;
        assert(ds[i].session == t);
    }
    rs.unique_seq_to_set();
}

/// A heartbeat tick pings the client while the silence is within the
/// timeout, and past it tells the server the session is gone and stops.
pub proof fn lemma_tick_pings_until_timeout(s: WsChatSession, elapsed: int, timeout: int)
    ensures
        elapsed <= timeout ==> s.tick_effects(elapsed, timeout) == seq![Effect::Ping],
        elapsed > timeout ==> s.tick_effects(elapsed, timeout) == seq![
            Effect::Ask(Request::Disconnect(Disconnect { session: s.id })),
            Effect::Stop,
        ],
{
}

} // verus!
