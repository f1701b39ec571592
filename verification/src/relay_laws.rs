//! What holds of the relay server as a whole, over any sequence of steps of its
//! sessions.

use crate::auth;
use crate::delta::{CaptureView, FramePlan};
use crate::encoding;
use crate::identity;
use crate::messages;
use crate::messages::{
    ClientInbound, ClientJoin, ClientMessage, ClientPayload, ClipboardSync, FrameData,
    HostAnnounce, HostInbound, HostMessage, HostPayload, InputEvent, ServerToClient, ServerToHost,
};
use crate::messages::{ServerToClientView, ServerToHostView};
use crate::registry;
use crate::registry::{RoomView, Rooms};
use crate::relay_client;
use crate::relay_client::{ClientEvent, ClientRunView, HostEvent, HostRunView, UiEventView};
use crate::service;
use crate::service::{
    ClientLinkView, ClientPhaseView, HostLinkView, HostPhaseView, OutgoingView,
};
use crate::text;
use crate::tiles::Frame;
use vstd::prelude::*;

verus! {

/// The device whose room a step of a host's session may touch.
pub open spec fn host_device(link: HostLinkView, event: HostInbound) -> Option<Seq<char>> {
    match link.phase {
        HostPhaseView::AwaitAnnounce => match event {
            HostInbound::Message(m) => match m.payload {
                Some(HostPayload::Announce(a)) => Some(a.device_id@),
                _ => None,
            },
            HostInbound::Ended => None,
        },
        HostPhaseView::Relaying(device_id) => Some(device_id),
        HostPhaseView::Closed => None,
    }
}

/// The device whose room a step of a client's session may touch.
pub open spec fn client_device(link: ClientLinkView, event: ClientInbound) -> Option<Seq<char>> {
    match link.phase {
        ClientPhaseView::AwaitJoin => match event {
            ClientInbound::Message(m) => match m.payload {
                Some(ClientPayload::Join(j)) => Some(j.device_id@),
                _ => None,
            },
            ClientInbound::Ended => None,
        },
        ClientPhaseView::Relaying { device_id, .. } => Some(device_id),
        ClientPhaseView::Closed => None,
    }
}

/// A device keeps the ID that the server confirmed or issued: registering with
/// it again confirms it.
pub proof fn law_registered_id_is_confirmed(
    device_id: Seq<char>,
    bytes: Seq<u8>,
    later_bytes: Seq<u8>,
)
    requires
        bytes.len() == 16,
    ensures
        ({
            let id = service::registered_id(device_id, bytes);
            service::registered_id(id, later_bytes) == id
        }),
{
    reveal_with_fuel(text::hex_upper, 5);
}

/// Rooms are isolated: a step of a host's session leaves every room but its own
/// as it is, and no room ever disappears.
pub proof fn law_host_touches_only_its_room(
    rooms: Rooms,
    link: HostLinkView,
    event: HostInbound,
    hash: Option<Seq<char>>,
    other: Seq<char>,
)
    requires
        host_device(link, event) != Some(other),
    ensures
        registry::room_of(service::host_step(rooms, link, event, hash).rooms, other)
            == registry::room_of(rooms, other),
        rooms.dom().subset_of(service::host_step(rooms, link, event, hash).rooms.dom()),
{
}

/// Rooms are isolated: a step of a client's session leaves every room but its
/// own as it is, and no room ever disappears.
pub proof fn law_client_touches_only_its_room(
    rooms: Rooms,
    link: ClientLinkView,
    event: ClientInbound,
    stale: bool,
    peer_id: Seq<char>,
    other: Seq<char>,
)
    requires
        client_device(link, event) != Some(other),
    ensures
        registry::room_of(service::client_step(rooms, link, event, stale, peer_id).rooms, other)
            == registry::room_of(rooms, other),
        rooms.dom().subset_of(service::client_step(rooms, link, event, stale, peer_id).rooms.dom()),
{
}

/// The password that a host announced opens its room: right after the
/// announcement a client that brings it joins, whoever was in the room before.
/// The client learns the host's address, and the host learns of the client.
pub proof fn law_announced_password_opens_the_room(
    rooms: Rooms,
    host: HostLinkView,
    announce: HostAnnounce,
    hash: Option<Seq<char>>,
    client: ClientLinkView,
    join: ClientJoin,
    stale: bool,
    peer_id: Seq<char>,
)
    requires
        host.phase is AwaitAnnounce,
        client.phase is AwaitJoin,
        announce.device_id@.len() != 0,
        auth::hashable(announce.password@),
        service::announced_hash(
            host,
            HostInbound::Message(HostMessage { payload: Some(HostPayload::Announce(announce)) }),
            hash,
        ),
        join.device_id@ == announce.device_id@,
        join.password@ == announce.password@,
    ensures
        ({
            let device_id = announce.device_id@;
            let announced = service::host_step(
                rooms,
                host,
                HostInbound::Message(HostMessage { payload: Some(HostPayload::Announce(announce)) }),
                hash,
            );
            let joined = service::client_step(
                announced.rooms,
                client,
                ClientInbound::Message(ClientMessage { payload: Some(ClientPayload::Join(join)) }),
                stale,
                peer_id,
            );
            &&& announced.link.phase == HostPhaseView::Relaying(device_id)
            &&& joined.link.phase == (ClientPhaseView::Relaying { device_id, peer_id })
            &&& joined.rooms[device_id].client->0.tx == client.conn
            &&& joined.out == seq![
                OutgoingView::ToClient {
                    conn: client.conn,
                    message: ServerToClientView::JoinResult {
                        ok: true,
                        error: Seq::empty(),
                        host_public_addr: host.public_addr,
                    },
                },
                OutgoingView::ToHost {
                    conn: host.conn,
                    message: ServerToHostView::ClientJoined {
                        peer_id,
                        public_addr: client.public_addr,
                    },
                },
                OutgoingView::ToHost {
                    conn: host.conn,
                    message: ServerToHostView::PeerEndpoint { addr: client.public_addr },
                },
            ]
        }),
{
}

/// A password that Argon2 does not accept for the host's hash never opens the
/// room.
pub proof fn law_wrong_password_is_refused(
    rooms: Rooms,
    client: ClientLinkView,
    join: ClientJoin,
    stale: bool,
    peer_id: Seq<char>,
)
    requires
        rooms.contains_key(join.device_id@),
        rooms[join.device_id@].host matches Some(h) && !auth::argon2_accepts(
            join.password@,
            h.password_hash,
        ),
    ensures
        service::join_step(rooms, client, join, stale, peer_id) == service::join_refused(
            rooms,
            client,
            "wrong password"@,
        ),
{
}

/// A refused join changes nothing: all rooms stay as they are, nobody but the
/// client that asked is sent anything, and its session is over.
pub proof fn law_refused_join_changes_nothing(
    rooms: Rooms,
    client: ClientLinkView,
    join: ClientJoin,
    stale: bool,
    peer_id: Seq<char>,
)
    requires
        service::join_refusal(rooms, join.device_id@, join.password@, stale) is Some,
    ensures
        ({
            let step = service::join_step(rooms, client, join, stale, peer_id);
            &&& step.rooms == rooms
            &&& step.link.phase is Closed
            &&& step.out == seq![
                OutgoingView::ToClient {
                    conn: client.conn,
                    message: ServerToClientView::JoinResult {
                        ok: false,
                        error: service::join_refusal(
                            rooms,
                            join.device_id@,
                            join.password@,
                            stale,
                        )->0,
                        host_public_addr: Seq::empty(),
                    },
                },
            ]
        }),
{
}

/// A room has one client at a time: after a client has joined, another one with
/// the right password is told that the room is full as long as the first one's
/// connection is open, and takes its place once it is closed.
pub proof fn law_one_client_at_a_time(
    rooms: Rooms,
    first: ClientLinkView,
    device_id: Seq<char>,
    first_id: Seq<char>,
    second: ClientLinkView,
    join: ClientJoin,
    second_id: Seq<char>,
)
    requires
        rooms.contains_key(device_id),
        join.device_id@ == device_id,
        rooms[device_id].host matches Some(h) && auth::argon2_accepts(
            join.password@,
            h.password_hash,
        ),
    ensures
        ({
            let taken = service::join_accepted(rooms, first, device_id, first_id).rooms;
            &&& service::join_step(taken, second, join, false, second_id) == service::join_refused(
                taken,
                second,
                "room is full"@,
            )
            &&& service::join_step(taken, second, join, true, second_id)
                == service::join_accepted(taken, second, device_id, second_id)
        }),
{
}

/// A host that announces a device again puts out the client of the earlier
/// session, tells it that the host left, and takes the room over.
pub proof fn law_reconnecting_host_evicts_the_client(
    rooms: Rooms,
    host: HostLinkView,
    device_id: Seq<char>,
    hash: Seq<char>,
)
    requires
        rooms.contains_key(device_id),
        rooms[device_id].client is Some,
    ensures
        ({
            let step = service::host_announced(rooms, host, device_id, hash);
            &&& step.rooms[device_id].client is None
            &&& step.rooms[device_id].host->0.tx == host.conn
            &&& step.out == seq![
                OutgoingView::ToClient {
                    conn: rooms[device_id].client->0.tx,
                    message: ServerToClientView::HostLeft,
                },
            ]
        }),
{
}

/// A client that leaves frees the room: the host is told, and the next client
/// with the right password joins.
pub proof fn law_leaving_client_frees_the_room(
    rooms: Rooms,
    first: ClientLinkView,
    device_id: Seq<char>,
    first_id: Seq<char>,
    second: ClientLinkView,
    join: ClientJoin,
    stale: bool,
    second_id: Seq<char>,
)
    requires
        rooms.contains_key(device_id),
        join.device_id@ == device_id,
        rooms[device_id].host matches Some(h) && auth::argon2_accepts(
            join.password@,
            h.password_hash,
        ),
    ensures
        ({
            let step = service::client_left(rooms, first, device_id, first_id);
            &&& step.rooms[device_id] == (RoomView { client: None, ..rooms[device_id] })
            &&& step.out == seq![
                OutgoingView::ToHost {
                    conn: rooms[device_id].host->0.tx,
                    message: ServerToHostView::ClientLeft { peer_id: first_id },
                },
            ]
            &&& service::join_step(step.rooms, second, join, stale, second_id)
                == service::join_accepted(step.rooms, second, device_id, second_id)
        }),
{
}

/// After a host has left, of which the room's client is told, its room cannot
/// be joined until a host announces the device again.
pub proof fn law_room_without_host_cannot_be_joined(
    rooms: Rooms,
    host: HostLinkView,
    device_id: Seq<char>,
    client: ClientLinkView,
    join: ClientJoin,
    stale: bool,
    peer_id: Seq<char>,
)
    requires
        join.device_id@ == device_id,
    ensures
        ({
            let step = service::host_left(rooms, host, device_id);
            &&& step.out == service::to_client(
                registry::room_of(rooms, device_id),
                ServerToClientView::HostLeft,
            )
            &&& service::join_step(step.rooms, client, join, stale, peer_id)
                == service::join_refused(step.rooms, client, "host not available"@)
        }),
{
}

/// A device that never announced itself cannot be joined.
pub proof fn law_unknown_device_cannot_be_joined(
    rooms: Rooms,
    client: ClientLinkView,
    join: ClientJoin,
    stale: bool,
    peer_id: Seq<char>,
)
    requires
        !rooms.contains_key(join.device_id@),
    ensures
        service::join_step(rooms, client, join, stale, peer_id) == service::join_refused(
            rooms,
            client,
            "device not found"@,
        ),
{
}

/// Once a client has joined, host and client are connected: the host's frames
/// and clipboard text reach the client, the client's input and clipboard text
/// reach the host, each unchanged and nobody else, and the rooms stay as they
/// are.
pub proof fn law_joined_pair_is_connected(
    rooms: Rooms,
    host: HostLinkView,
    client: ClientLinkView,
    device_id: Seq<char>,
    peer_id: Seq<char>,
    frame: FrameData,
    host_clip: ClipboardSync,
    input: InputEvent,
    client_clip: ClipboardSync,
    hash: Option<Seq<char>>,
    stale: bool,
    any_id: Seq<char>,
)
    requires
        rooms.contains_key(device_id),
        rooms[device_id].host matches Some(h) && h.tx == host.conn,
        host.phase == HostPhaseView::Relaying(device_id),
    ensures
        ({
            let joined = service::join_accepted(rooms, client, device_id, peer_id);
            let from_host = |payload: HostPayload|
                service::host_step(
                    joined.rooms,
                    host,
                    HostInbound::Message(HostMessage { payload: Some(payload) }),
                    hash,
                );
            let from_client = |payload: ClientPayload|
                service::client_step(
                    joined.rooms,
                    joined.link,
                    ClientInbound::Message(ClientMessage { payload: Some(payload) }),
                    stale,
                    any_id,
                );
            let to_client = |message: ServerToClientView|
                seq![OutgoingView::ToClient { conn: client.conn, message }];
            let to_host = |message: ServerToHostView|
                seq![OutgoingView::ToHost { conn: host.conn, message }];
            &&& from_host(HostPayload::Frame(frame)) == (service::HostStep {
                rooms: joined.rooms,
                link: host,
                out: to_client(ServerToClientView::Frame(frame)),
            })
            &&& from_host(HostPayload::Clipboard(host_clip)) == (service::HostStep {
                rooms: joined.rooms,
                link: host,
                out: to_client(ServerToClientView::Clipboard(host_clip)),
            })
            &&& from_client(ClientPayload::Input(input)) == (service::ClientStep {
                rooms: joined.rooms,
                link: joined.link,
                out: to_host(ServerToHostView::Input(input)),
            })
            &&& from_client(ClientPayload::Clipboard(client_clip)) == (service::ClientStep {
                rooms: joined.rooms,
                link: joined.link,
                out: to_host(ServerToHostView::Clipboard(client_clip)),
            })
        }),
{
}

/// A client that joins gets a whole picture at once: what the server then sends
/// the host has it make the next captured frame a keyframe.
pub proof fn law_joining_brings_a_keyframe(
    rooms: Rooms,
    client: ClientLinkView,
    device_id: Seq<char>,
    peer_id: Seq<char>,
    run: HostRunView,
    message: ServerToHost,
    s: CaptureView,
    img: Frame,
    plan: FramePlan,
)
    requires
        rooms.contains_key(device_id),
        rooms[device_id].host is Some,
        service::join_accepted(rooms, client, device_id, peer_id).out[1] == (OutgoingView::ToHost {
            conn: rooms[device_id].host->0.tx,
            message: message@,
        }),
        run.stage is Relaying,
        plan.describes(
            CaptureView {
                force_keyframe: s.force_keyframe || relay_client::host_reaction(
                    run,
                    HostEvent::Message(message),
                ).force_keyframe,
                ..s
            },
            img,
        ),
    ensures
        relay_client::host_reaction(run, HostEvent::Message(message)).emit == Some(
            UiEventView::PeerConnected,
        ),
        plan is Keyframe,
{
}

/// A message of a host that serves a room changes no room and goes nowhere but
/// to the client of that room.
pub proof fn law_host_messages_stay_in_the_room(
    rooms: Rooms,
    host: HostLinkView,
    device_id: Seq<char>,
    message: HostMessage,
    hash: Option<Seq<char>>,
)
    requires
        host.phase == HostPhaseView::Relaying(device_id),
    ensures
        ({
            let step = service::host_step(rooms, host, HostInbound::Message(message), hash);
            &&& step.rooms == rooms
            &&& step.link == host
            &&& forall|i: int|
                #![trigger step.out[i]]
                0 <= i < step.out.len() ==> {
                    &&& step.out[i] matches OutgoingView::ToClient { conn, .. }
                    &&& registry::room_of(rooms, device_id).client matches Some(c)
                    &&& conn == c.tx
                }
        }),
{
}

/// A message of a client that watches a room changes no room and goes nowhere
/// but to the host of that room.
pub proof fn law_client_messages_stay_in_the_room(
    rooms: Rooms,
    client: ClientLinkView,
    device_id: Seq<char>,
    peer_id: Seq<char>,
    message: ClientMessage,
    stale: bool,
    any_id: Seq<char>,
)
    requires
        client.phase == (ClientPhaseView::Relaying { device_id, peer_id }),
    ensures
        ({
            let step = service::client_step(
                rooms,
                client,
                ClientInbound::Message(message),
                stale,
                any_id,
            );
            &&& step.rooms == rooms
            &&& step.link == client
            &&& forall|i: int|
                #![trigger step.out[i]]
                0 <= i < step.out.len() ==> {
                    &&& step.out[i] matches OutgoingView::ToHost { conn, .. }
                    &&& registry::room_of(rooms, device_id).host matches Some(h)
                    &&& conn == h.tx
                }
        }),
{
}

/// A session keeps its connection and its address, whatever happens.
pub proof fn law_sessions_keep_their_connection(
    rooms: Rooms,
    host: HostLinkView,
    host_event: HostInbound,
    hash: Option<Seq<char>>,
    client: ClientLinkView,
    client_event: ClientInbound,
    stale: bool,
    peer_id: Seq<char>,
)
    ensures
        ({
            let after = service::host_step(rooms, host, host_event, hash).link;
            after.conn == host.conn && after.public_addr == host.public_addr
        }),
        ({
            let after = service::client_step(rooms, client, client_event, stale, peer_id).link;
            after.conn == client.conn && after.public_addr == client.public_addr
        }),
{
}

/// A session that is over does nothing more.
pub proof fn law_closed_sessions_are_silent(
    rooms: Rooms,
    host: HostLinkView,
    host_event: HostInbound,
    hash: Option<Seq<char>>,
    client: ClientLinkView,
    client_event: ClientInbound,
    stale: bool,
    peer_id: Seq<char>,
)
    requires
        host.phase is Closed,
        client.phase is Closed,
    ensures
        service::host_step(rooms, host, host_event, hash) == (service::HostStep {
            rooms,
            link: host,
            out: Seq::empty(),
        }),
        service::client_step(rooms, client, client_event, stale, peer_id) == (
        service::ClientStep { rooms, link: client, out: Seq::empty() }),
{
}

/// What a host announces is hashed if and only if it names a device and the
/// password can be hashed, and the hash is of that password: it is the hash with
/// some salt, and the password is accepted for it. Nothing else is ever hashed.
pub proof fn law_announced_password_is_hashed(
    link: HostLinkView,
    announce: HostAnnounce,
    hash: Option<Seq<char>>,
)
    requires
        link.phase is AwaitAnnounce,
        service::announced_hash(
            link,
            HostInbound::Message(HostMessage { payload: Some(HostPayload::Announce(announce)) }),
            hash,
        ),
    ensures
        hash is Some <==> announce.device_id@.len() > 0 && auth::hashable(announce.password@),
        hash matches Some(h) ==> auth::argon2_accepts(announce.password@, h) && exists|
            salt: Seq<u8>,
        |
            salt.len() == 16 && h == #[trigger] auth::argon2_phc(announce.password@, salt),
{
}

/// A host whose announcement is accepted is sent nothing, and takes the room
/// over, whoever was there before and whether or not there was a room: the only
/// message goes to the client of an earlier session, if one was left, and tells
/// it that the host left.
pub proof fn law_accepted_host_is_sent_nothing(
    rooms: Rooms,
    link: HostLinkView,
    announce: HostAnnounce,
    hash: Option<Seq<char>>,
)
    requires
        link.phase is AwaitAnnounce,
        announce.device_id@.len() > 0,
        auth::hashable(announce.password@),
        service::announced_hash(
            link,
            HostInbound::Message(HostMessage { payload: Some(HostPayload::Announce(announce)) }),
            hash,
        ),
    ensures
        ({
            let id = announce.device_id@;
            let step = service::host_step(
                rooms,
                link,
                HostInbound::Message(HostMessage { payload: Some(HostPayload::Announce(announce)) }),
                hash,
            );
            &&& rooms.contains_key(id) ==> (rooms[id].client matches Some(c) ==> step.out == seq![
                OutgoingView::ToClient { conn: c.tx, message: ServerToClientView::HostLeft },
            ])
            &&& rooms.contains_key(id) && rooms[id].client is None ==> step.out.len() == 0
            &&& !rooms.contains_key(id) ==> step.out.len() == 0
            &&& step.rooms.contains_key(id)
            &&& step.rooms[id].client is None
            &&& step.rooms[id].host matches Some(h)
            &&& h.tx == link.conn
            &&& h.public_addr == link.public_addr
            &&& auth::argon2_accepts(announce.password@, h.password_hash)
            &&& step.link.phase == HostPhaseView::Relaying(id)
            &&& step.link.conn == link.conn
            &&& step.link.public_addr == link.public_addr
        }),
{
}

/// A host whose first message is no announcement, or one that names no device,
/// is told so; its session is over, and no room changes.
pub proof fn law_host_must_announce_a_device(
    rooms: Rooms,
    link: HostLinkView,
    message: HostMessage,
    hash: Option<Seq<char>>,
)
    requires
        link.phase is AwaitAnnounce,
    ensures
        ({
            let step = service::host_step(rooms, link, HostInbound::Message(message), hash);
            let told = |error: Seq<char>|
                seq![
                    OutgoingView::ToHost {
                        conn: link.conn,
                        message: ServerToHostView::Error(error),
                    },
                ];
            match message.payload {
                Some(HostPayload::Announce(a)) => a.device_id@.len() == 0 ==> {
                    &&& step.out == told("device_id must not be empty"@)
                    &&& step.link.phase is Closed
                    &&& step.rooms == rooms
                },
                _ => {
                    &&& step.out == told("first message must be announce"@)
                    &&& step.link.phase is Closed
                    &&& step.rooms == rooms
                },
            }
        }),
{
}

/// A session that ends before its first message, or whose password cannot be
/// hashed, leaves no trace.
pub proof fn law_session_without_a_start_leaves_no_trace(
    rooms: Rooms,
    host: HostLinkView,
    announce: HostAnnounce,
    client: ClientLinkView,
    hash: Option<Seq<char>>,
    stale: bool,
    peer_id: Seq<char>,
)
    requires
        host.phase is AwaitAnnounce,
        client.phase is AwaitJoin,
        announce.device_id@.len() > 0,
    ensures
        ({
            let ended = service::host_step(rooms, host, HostInbound::Ended, hash);
            &&& ended.rooms == rooms
            &&& ended.out.len() == 0
            &&& ended.link.phase is Closed
        }),
        ({
            let unhashed = service::host_step(
                rooms,
                host,
                HostInbound::Message(HostMessage { payload: Some(HostPayload::Announce(announce)) }),
                None,
            );
            &&& unhashed.rooms == rooms
            &&& unhashed.out.len() == 0
            &&& unhashed.link.phase is Closed
        }),
        ({
            let ended = service::client_step(rooms, client, ClientInbound::Ended, stale, peer_id);
            &&& ended.rooms == rooms
            &&& ended.out.len() == 0
            &&& ended.link.phase is Closed
        }),
{
}

/// What a serving host sends reaches the client of its room, if there is one:
/// frames and clipboard text unchanged, and nothing else.
pub proof fn law_host_reaches_its_client(
    rooms: Rooms,
    link: HostLinkView,
    device_id: Seq<char>,
    message: HostMessage,
    hash: Option<Seq<char>>,
)
    requires
        link.phase == HostPhaseView::Relaying(device_id),
        rooms.contains_key(device_id),
    ensures
        ({
            let out = service::host_step(rooms, link, HostInbound::Message(message), hash).out;
            match (rooms[device_id].client, message.payload) {
                (Some(c), Some(HostPayload::Frame(frame))) => out == seq![
                    OutgoingView::ToClient {
                        conn: c.tx,
                        message: ServerToClientView::Frame(frame),
                    },
                ],
                (Some(c), Some(HostPayload::Clipboard(clip))) => out == seq![
                    OutgoingView::ToClient {
                        conn: c.tx,
                        message: ServerToClientView::Clipboard(clip),
                    },
                ],
                _ => out.len() == 0,
            }
        }),
{
}

/// What a watching client sends reaches the host of its room, if there is one:
/// input and clipboard text unchanged, and nothing else.
pub proof fn law_client_reaches_its_host(
    rooms: Rooms,
    link: ClientLinkView,
    device_id: Seq<char>,
    peer_id: Seq<char>,
    message: ClientMessage,
    stale: bool,
    any_id: Seq<char>,
)
    requires
        link.phase == (ClientPhaseView::Relaying { device_id, peer_id }),
        rooms.contains_key(device_id),
    ensures
        ({
            let out = service::client_step(
                rooms,
                link,
                ClientInbound::Message(message),
                stale,
                any_id,
            ).out;
            match (rooms[device_id].host, message.payload) {
                (Some(h), Some(ClientPayload::Input(input))) => out == seq![
                    OutgoingView::ToHost { conn: h.tx, message: ServerToHostView::Input(input) },
                ],
                (Some(h), Some(ClientPayload::Clipboard(clip))) => out == seq![
                    OutgoingView::ToHost {
                        conn: h.tx,
                        message: ServerToHostView::Clipboard(clip),
                    },
                ],
                _ => out.len() == 0,
            }
        }),
{
}

/// A host that leaves takes nobody with it: its room is without a host, the
/// client stays in it and is told, and the session is over.
pub proof fn law_leaving_host_is_told_to_the_client(
    rooms: Rooms,
    link: HostLinkView,
    device_id: Seq<char>,
    hash: Option<Seq<char>>,
)
    requires
        link.phase == HostPhaseView::Relaying(device_id),
        rooms.contains_key(device_id),
    ensures
        ({
            let step = service::host_step(rooms, link, HostInbound::Ended, hash);
            &&& step.rooms.contains_key(device_id)
            &&& step.rooms[device_id].host is None
            &&& step.rooms[device_id].client == rooms[device_id].client
            &&& step.link.phase is Closed
            &&& rooms[device_id].client is None ==> step.out.len() == 0
            &&& rooms[device_id].client matches Some(c) ==> step.out == seq![
                OutgoingView::ToClient { conn: c.tx, message: ServerToClientView::HostLeft },
            ]
        }),
{
}

/// A client that leaves takes nobody with it: its room is without a client, the
/// host stays in it and is told which client it was, and the session is over.
pub proof fn law_leaving_client_is_told_to_the_host(
    rooms: Rooms,
    link: ClientLinkView,
    device_id: Seq<char>,
    peer_id: Seq<char>,
    stale: bool,
    any_id: Seq<char>,
)
    requires
        link.phase == (ClientPhaseView::Relaying { device_id, peer_id }),
        rooms.contains_key(device_id),
    ensures
        ({
            let step = service::client_step(rooms, link, ClientInbound::Ended, stale, any_id);
            &&& step.rooms.contains_key(device_id)
            &&& step.rooms[device_id].client is None
            &&& step.rooms[device_id].host == rooms[device_id].host
            &&& step.link.phase is Closed
            &&& rooms[device_id].host is None ==> step.out.len() == 0
            &&& rooms[device_id].host matches Some(h) ==> step.out == seq![
                OutgoingView::ToHost {
                    conn: h.tx,
                    message: ServerToHostView::ClientLeft { peer_id },
                },
            ]
        }),
{
}

/// A client whose first message is no request to join is told so; its session is
/// over, and no room changes.
pub proof fn law_client_must_ask_to_join(
    rooms: Rooms,
    link: ClientLinkView,
    message: ClientMessage,
    stale: bool,
    peer_id: Seq<char>,
)
    requires
        link.phase is AwaitJoin,
        !(message.payload matches Some(ClientPayload::Join(_))),
    ensures
        ({
            let step = service::client_step(
                rooms,
                link,
                ClientInbound::Message(message),
                stale,
                peer_id,
            );
            &&& step.rooms == rooms
            &&& step.link.phase is Closed
            &&& step.out == seq![
                OutgoingView::ToClient {
                    conn: link.conn,
                    message: ServerToClientView::Error("first message must be join"@),
                },
            ]
        }),
{
}

/// A client is let in if and only if the device has a room with a host, the
/// password is accepted for the host's hash, and the room has no client whose
/// connection is open. Then it takes its place beside the host, it learns the
/// host's address, and the host learns of it and of its address.
pub proof fn law_client_is_let_in_exactly_when_it_may(
    rooms: Rooms,
    link: ClientLinkView,
    join: ClientJoin,
    stale: bool,
    peer_id: Seq<char>,
)
    requires
        link.phase is AwaitJoin,
    ensures
        ({
            let id = join.device_id@;
            let step = service::client_step(
                rooms,
                link,
                ClientInbound::Message(ClientMessage { payload: Some(ClientPayload::Join(join)) }),
                stale,
                peer_id,
            );
            let may = {
                &&& rooms.contains_key(id)
                &&& rooms[id].host matches Some(h)
                &&& auth::argon2_accepts(join.password@, h.password_hash)
                &&& rooms[id].client is None || stale
            };
            &&& step.link.conn == link.conn
            &&& step.link.public_addr == link.public_addr
            &&& !may ==> step.link.phase is Closed
            &&& may ==> {
                &&& step.link.phase == (ClientPhaseView::Relaying { device_id: id, peer_id })
                &&& step.rooms[id].host == rooms[id].host
                &&& step.rooms[id].client matches Some(c)
                &&& c.tx == link.conn
                &&& c.peer_id == peer_id
                &&& c.public_addr == link.public_addr
                &&& step.out == seq![
                    OutgoingView::ToClient {
                        conn: link.conn,
                        message: ServerToClientView::JoinResult {
                            ok: true,
                            error: Seq::empty(),
                            host_public_addr: rooms[id].host->0.public_addr,
                        },
                    },
                    OutgoingView::ToHost {
                        conn: rooms[id].host->0.tx,
                        message: ServerToHostView::ClientJoined {
                            peer_id,
                            public_addr: link.public_addr,
                        },
                    },
                    OutgoingView::ToHost {
                        conn: rooms[id].host->0.tx,
                        message: ServerToHostView::PeerEndpoint { addr: link.public_addr },
                    },
                ]
            }
        }),
{
}

/// A client that is not let in is told the first reason that holds, in this
/// order: there is no such device, its host is away, the password is wrong, the
/// room is full. Nobody else is sent anything, and no room changes.
pub proof fn law_refusals_state_their_reason(
    rooms: Rooms,
    link: ClientLinkView,
    join: ClientJoin,
    stale: bool,
    peer_id: Seq<char>,
)
    requires
        link.phase is AwaitJoin,
    ensures
        ({
            let id = join.device_id@;
            let step = service::client_step(
                rooms,
                link,
                ClientInbound::Message(ClientMessage { payload: Some(ClientPayload::Join(join)) }),
                stale,
                peer_id,
            );
            let refused = |error: Seq<char>| {
                &&& step.rooms == rooms
                &&& step.link.phase is Closed
                &&& step.out == seq![
                    OutgoingView::ToClient {
                        conn: link.conn,
                        message: ServerToClientView::JoinResult {
                            ok: false,
                            error,
                            host_public_addr: Seq::empty(),
                        },
                    },
                ]
            };
            &&& !rooms.contains_key(id) ==> refused("device not found"@)
            &&& rooms.contains_key(id) && rooms[id].host is None ==> refused(
                "host not available"@,
            )
            &&& rooms.contains_key(id) ==> (rooms[id].host matches Some(h) ==> {
                let right = auth::argon2_accepts(join.password@, h.password_hash);
                &&& !right ==> refused("wrong password"@)
                &&& right && rooms[id].client is Some && !stale ==> refused("room is full"@)
            })
        }),
{
}

/// A client's session is named by a random UUID when it asks to join.
pub proof fn law_joining_clients_are_named(
    link: ClientLinkView,
    join: ClientJoin,
    peer_id: Seq<char>,
)
    requires
        link.phase is AwaitJoin,
        service::fresh_peer_id(
            link,
            ClientInbound::Message(ClientMessage { payload: Some(ClientPayload::Join(join)) }),
            peer_id,
        ),
    ensures
        exists|bytes: Seq<u8>| #[trigger]
            identity::is_uuid_v4(bytes) && peer_id == identity::uuid_text(bytes),
        peer_id.len() == 36,
{
    let bytes = choose|bytes: Seq<u8>| #[trigger]
        identity::is_uuid_v4(bytes) && peer_id == identity::uuid_text(bytes);
    identity::law_uuids_spell_their_bytes(bytes, 0);
}

/// A device that brings an ID is registered under it; one that brings none gets
/// the ID that spells the random bytes.
pub proof fn law_devices_keep_or_get_an_id(device_id: Seq<char>, bytes: Seq<u8>)
    ensures
        device_id.len() > 0 ==> service::registered_id(device_id, bytes) == device_id,
        device_id.len() == 0 ==> service::registered_id(device_id, bytes)
            == identity::device_id_text(bytes),
{
}

/// What a client does is what happens at its host: the input event that a
/// watching client sends is the one that its host injects, and no other host
/// gets it.
pub proof fn law_clients_input_is_injected_at_its_host(
    rooms: Rooms,
    link: ClientLinkView,
    device_id: Seq<char>,
    peer_id: Seq<char>,
    input: InputEvent,
    stale: bool,
    any_id: Seq<char>,
    run: HostRunView,
    received: ServerToHost,
)
    requires
        link.phase == (ClientPhaseView::Relaying { device_id, peer_id }),
        rooms.contains_key(device_id),
        rooms[device_id].host is Some,
        run.stage is Relaying,
        service::client_step(
            rooms,
            link,
            ClientInbound::Message(ClientMessage { payload: Some(ClientPayload::Input(input)) }),
            stale,
            any_id,
        ).out == seq![
            OutgoingView::ToHost { conn: rooms[device_id].host->0.tx, message: received@ },
        ],
    ensures
        relay_client::host_reaction(run, HostEvent::Message(received)).inject == Some(input),
        relay_client::host_stage_after(run, HostEvent::Message(received)) is Relaying,
{
    let step = service::client_step(
        rooms,
        link,
        ClientInbound::Message(ClientMessage { payload: Some(ClientPayload::Input(input)) }),
        stale,
        any_id,
    );
    law_client_reaches_its_host(
        rooms,
        link,
        device_id,
        peer_id,
        ClientMessage { payload: Some(ClientPayload::Input(input)) },
        stale,
        any_id,
    );
    assert(step.out[0] == (OutgoingView::ToHost {
        conn: rooms[device_id].host->0.tx,
        message: ServerToHostView::Input(input),
    }));
    messages::law_messages_to_hosts_show_what_they_hold(received);
    relay_client::law_input_is_injected_unchanged(run, received, input);
}

/// What a host sends is what its client sees: the frame that a serving host
/// sends is the one that its client shows, a keyframe at its own size with its
/// whole picture, a delta frame with every tile in its place.
pub proof fn law_hosts_frame_is_shown_at_its_client(
    rooms: Rooms,
    link: HostLinkView,
    device_id: Seq<char>,
    frame: FrameData,
    hash: Option<Seq<char>>,
    run: ClientRunView,
    received: ServerToClient,
)
    requires
        link.phase == HostPhaseView::Relaying(device_id),
        rooms.contains_key(device_id),
        rooms[device_id].client is Some,
        run.stage is Receiving,
        service::host_step(
            rooms,
            link,
            HostInbound::Message(HostMessage { payload: Some(HostPayload::Frame(frame)) }),
            hash,
        ).out == seq![
            OutgoingView::ToClient { conn: rooms[device_id].client->0.tx, message: received@ },
        ],
    ensures
        ({
            let emit = relay_client::client_reaction(run, ClientEvent::Message(received)).emit;
            &&& frame.is_keyframe ==> {
                &&& emit matches Some(UiEventView::FrameKeyframe { width, height, data })
                &&& width == frame.width
                &&& height == frame.height
                &&& encoding::decoded(data) == frame.jpeg_data@
            }
            &&& !frame.is_keyframe && frame.tiles@.len() > 0 ==> {
                &&& emit matches Some(UiEventView::FrameDelta { width, height, tiles })
                &&& width == frame.width
                &&& height == frame.height
                &&& tiles.len() == frame.tiles@.len()
                &&& forall|i: int|
                    #![trigger tiles[i]]
                    0 <= i < tiles.len() ==> {
                        &&& tiles[i].x == frame.tiles@[i].x
                        &&& tiles[i].y == frame.tiles@[i].y
                        &&& tiles[i].w == frame.tiles@[i].tile_width
                        &&& tiles[i].h == frame.tiles@[i].tile_height
                        &&& encoding::decoded(tiles[i].data) == frame.tiles@[i].jpeg_data@
                    }
            }
            &&& !frame.is_keyframe && frame.tiles@.len() == 0 ==> emit is None
        }),
        relay_client::client_stage_after(run, ClientEvent::Message(received)) is Receiving,
{
    let message = HostMessage { payload: Some(HostPayload::Frame(frame)) };
    let step = service::host_step(rooms, link, HostInbound::Message(message), hash);
    law_host_reaches_its_client(rooms, link, device_id, message, hash);
    assert(step.out[0] == (OutgoingView::ToClient {
        conn: rooms[device_id].client->0.tx,
        message: ServerToClientView::Frame(frame),
    }));
    messages::law_messages_to_clients_show_what_they_hold(received);
    relay_client::law_client_shows_what_happens(run, ClientEvent::Message(received));
    relay_client::law_only_empty_deltas_are_not_shown(frame);
    if frame.is_keyframe {
        relay_client::law_keyframe_is_shown_whole(frame);
    } else if frame.tiles@.len() > 0 {
        relay_client::law_delta_is_shown_tile_by_tile(frame, 0);
        let tiles = relay_client::frame_event(frame@)->0->FrameDelta_tiles;
        assert forall|i: int| 0 <= i < tiles.len() implies {
            &&& (#[trigger] tiles[i]).x == frame.tiles@[i].x
            &&& tiles[i].y == frame.tiles@[i].y
            &&& tiles[i].w == frame.tiles@[i].tile_width
            &&& tiles[i].h == frame.tiles@[i].tile_height
            &&& encoding::decoded(tiles[i].data) == frame.tiles@[i].jpeg_data@
        } by {
            relay_client::law_delta_is_shown_tile_by_tile(frame, i);
        }
    }
}

/// Text that is copied on one side is shown on the other, unchanged.
pub proof fn law_clipboard_text_crosses_the_relay(
    clip: ClipboardSync,
    to_host: ServerToHost,
    to_client: ServerToClient,
    host: HostRunView,
    client: ClientRunView,
)
    requires
        to_host@ == ServerToHostView::Clipboard(clip),
        to_client@ == ServerToClientView::Clipboard(clip),
        host.stage is Relaying,
        client.stage is Receiving,
    ensures
        relay_client::host_reaction(host, HostEvent::Message(to_host)).emit == Some(
            UiEventView::ClipboardSync(clip.text@),
        ),
        relay_client::client_reaction(client, ClientEvent::Message(to_client)).emit == Some(
            UiEventView::ClipboardSync(clip.text@),
        ),
{
}

/// A client that is refused learns why: the reason that the server states is the
/// one that its user is told, and its session is over.
pub proof fn law_refused_client_learns_why(
    rooms: Rooms,
    link: ClientLinkView,
    join: ClientJoin,
    stale: bool,
    peer_id: Seq<char>,
    reason: Seq<char>,
    run: ClientRunView,
    received: ServerToClient,
)
    requires
        run.stage is Joining,
        service::join_refusal(rooms, join.device_id@, join.password@, stale) == Some(reason),
        service::join_step(rooms, link, join, stale, peer_id).out == seq![
            OutgoingView::ToClient { conn: link.conn, message: received@ },
        ],
    ensures
        relay_client::client_reaction(run, ClientEvent::Message(received)).signal == Some(
            Err::<(), Seq<char>>("join rejected: "@ + reason),
        ),
        relay_client::client_stage_after(run, ClientEvent::Message(received)) is Over,
{
    let out = service::join_step(rooms, link, join, stale, peer_id).out;
    assert(out[0] == (OutgoingView::ToClient {
        conn: link.conn,
        message: ServerToClientView::JoinResult {
            ok: false,
            error: reason,
            host_public_addr: Seq::empty(),
        },
    }));
    messages::law_messages_to_clients_show_what_they_hold(received);
}

} // verus!
