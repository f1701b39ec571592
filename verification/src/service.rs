//! The relay server: device registration, and what it does with each message
//! of a host and of a client.

use crate::auth;
use crate::auth::PasswordHash;
use crate::identity;
use crate::messages::{
    ClientInbound, ClientJoin, ClientJoined, ClientLeft, ClientMessage, ClientPayload,
    ClientboundPayload, HostInbound, HostMessage, HostPayload, HostboundPayload, JoinResult,
    PeerEndpoint, RegisterRequest, RegisterResponse, ServerError, ServerToClient, ServerToHost,
};
use crate::messages::{ServerToClientView, ServerToHostView};
use crate::registry;
use crate::registry::{ClientSession, HostSession, Registry, RoomEntry};
use crate::registry::{ClientView, HostView, RoomView, Rooms};
use crate::text;
use vstd::prelude::*;
use vstd::string::*;

verus! {

/// Where the server listens.
pub struct Args {
    /// Bind address
    pub host: String,
    /// gRPC port
    pub port: u16,
}

/// The address to listen on: host and port, joined by a colon.
pub fn bind_address(args: &Args) -> (addr: String)
    ensures
        addr@ == args.host@ + seq![':'] + text::decimal(args.port as nat),
{
    proof {
        reveal_strlit(":");
        assert(":"@ =~= seq![':']);
    }
    args.host.clone().concat(":").concat(text::to_decimal(args.port as u64).as_str())
}

/// The ID under which a device is registered: its own, or, if it brings none,
/// the one that is made from random bytes.
pub open spec fn registered_id(device_id: Seq<char>, bytes: Seq<u8>) -> Seq<char> {
    if device_id.len() == 0 {
        identity::device_id_text(bytes)
    } else {
        device_id
    }
}

/// A message that the server sends, and the connection it goes to.
#[allow(inconsistent_fields)]
#[derive(Debug, PartialEq, Eq)]
pub enum Outgoing {
    ToHost { conn: u64, message: ServerToHost },
    ToClient { conn: u64, message: ServerToClient },
}

#[allow(inconsistent_fields)]
pub enum OutgoingView {
    ToHost { conn: u64, message: ServerToHostView },
    ToClient { conn: u64, message: ServerToClientView },
}

impl View for Outgoing {
    type V = OutgoingView;

    open spec fn view(&self) -> OutgoingView {
        match *self {
            Outgoing::ToHost { conn, message } => OutgoingView::ToHost { conn, message: message@ },
            Outgoing::ToClient { conn, message } => OutgoingView::ToClient {
                conn,
                message: message@,
            },
        }
    }
}

/// What a list of messages says, in order.
pub open spec fn sent(out: Vec<Outgoing>) -> Seq<OutgoingView> {
    out@.map_values(|o: Outgoing| o@)
}

/// A list of messages says what each of them says, in order, to whom it goes.
pub proof fn law_sent_messages_are_those_listed(out: Vec<Outgoing>, i: int)
    requires
        0 <= i < out@.len(),
    ensures
        sent(out).len() == out@.len(),
        sent(out)[i] matches OutgoingView::ToHost { conn, message } ==> {
            &&& out@[i] matches Outgoing::ToHost { conn: to, message: m }
            &&& to == conn
            &&& m@ == message
        },
        sent(out)[i] matches OutgoingView::ToClient { conn, message } ==> {
            &&& out@[i] matches Outgoing::ToClient { conn: to, message: m }
            &&& to == conn
            &&& m@ == message
        },
{
}

/// How far a host's session has come.
pub enum HostPhase {
    /// The first message is still to come.
    AwaitAnnounce,
    /// The host serves the device's room.
    Relaying { device_id: String },
    /// The session is over.
    Closed,
}

/// A host's session as the server keeps it: the connection on which the host
/// is reached, the address it is seen under, and how far the session has come.
pub struct HostLink {
    pub conn: u64,
    pub public_addr: String,
    pub phase: HostPhase,
}

pub enum HostPhaseView {
    AwaitAnnounce,
    Relaying(Seq<char>),
    Closed,
}

pub struct HostLinkView {
    pub conn: u64,
    pub public_addr: Seq<char>,
    pub phase: HostPhaseView,
}

impl View for HostLink {
    type V = HostLinkView;

    open spec fn view(&self) -> HostLinkView {
        HostLinkView {
            conn: self.conn,
            public_addr: self.public_addr@,
            phase: match self.phase {
                HostPhase::AwaitAnnounce => HostPhaseView::AwaitAnnounce,
                HostPhase::Relaying { device_id } => HostPhaseView::Relaying(device_id@),
                HostPhase::Closed => HostPhaseView::Closed,
            },
        }
    }
}

/// How far a client's session has come.
pub enum ClientPhase {
    /// The first message is still to come.
    AwaitJoin,
    /// The client watches the device's room.
    Relaying { device_id: String, peer_id: String },
    /// The session is over.
    Closed,
}

/// A client's session as the server keeps it.
pub struct ClientLink {
    pub conn: u64,
    pub public_addr: String,
    pub phase: ClientPhase,
}

pub enum ClientPhaseView {
    AwaitJoin,
    Relaying { device_id: Seq<char>, peer_id: Seq<char> },
    Closed,
}

pub struct ClientLinkView {
    pub conn: u64,
    pub public_addr: Seq<char>,
    pub phase: ClientPhaseView,
}

impl View for ClientLink {
    type V = ClientLinkView;

    open spec fn view(&self) -> ClientLinkView {
        ClientLinkView {
            conn: self.conn,
            public_addr: self.public_addr@,
            phase: match self.phase {
                ClientPhase::AwaitJoin => ClientPhaseView::AwaitJoin,
                ClientPhase::Relaying { device_id, peer_id } => ClientPhaseView::Relaying {
                    device_id: device_id@,
                    peer_id: peer_id@,
                },
                ClientPhase::Closed => ClientPhaseView::Closed,
            },
        }
    }
}

/// A session shows its connection, its address and how far it has come, with the
/// device and the ID that it goes by.
pub proof fn law_sessions_show_how_far_they_have_come(host: HostLink, client: ClientLink)
    ensures
        host@.conn == host.conn,
        host@.public_addr == host.public_addr@,
        host@.phase is AwaitAnnounce <==> host.phase is AwaitAnnounce,
        host@.phase is Closed <==> host.phase is Closed,
        host.phase matches HostPhase::Relaying { device_id } ==> host@.phase
            == HostPhaseView::Relaying(device_id@),
        client@.conn == client.conn,
        client@.public_addr == client.public_addr@,
        client@.phase is AwaitJoin <==> client.phase is AwaitJoin,
        client@.phase is Closed <==> client.phase is Closed,
        client.phase matches ClientPhase::Relaying { device_id, peer_id } ==> client@.phase == (
        ClientPhaseView::Relaying { device_id: device_id@, peer_id: peer_id@ }),
{
}

/// What one step of a host's session comes to: the rooms, the session and the
/// messages to send.
pub struct HostStep {
    pub rooms: Rooms,
    pub link: HostLinkView,
    pub out: Seq<OutgoingView>,
}

/// What one step of a client's session comes to.
pub struct ClientStep {
    pub rooms: Rooms,
    pub link: ClientLinkView,
    pub out: Seq<OutgoingView>,
}

/// A message to the client of a room, if there is one.
pub open spec fn to_client(room: RoomView, message: ServerToClientView) -> Seq<OutgoingView> {
    match room.client {
        Some(c) => seq![OutgoingView::ToClient { conn: c.tx, message }],
        None => Seq::empty(),
    }
}

/// A message to the host of a room, if there is one.
pub open spec fn to_host(room: RoomView, message: ServerToHostView) -> Seq<OutgoingView> {
    match room.host {
        Some(h) => seq![OutgoingView::ToHost { conn: h.tx, message }],
        None => Seq::empty(),
    }
}

/// A host's session that ends.
pub open spec fn host_closed(link: HostLinkView) -> HostLinkView {
    HostLinkView { phase: HostPhaseView::Closed, ..link }
}

/// A client's session that ends.
pub open spec fn client_closed(link: ClientLinkView) -> ClientLinkView {
    ClientLinkView { phase: ClientPhaseView::Closed, ..link }
}

/// The host's session ends with an error message.
pub open spec fn host_rejected(rooms: Rooms, link: HostLinkView, error: Seq<char>) -> HostStep {
    HostStep {
        rooms,
        link: host_closed(link),
        out: seq![
            OutgoingView::ToHost { conn: link.conn, message: ServerToHostView::Error(error) },
        ],
    }
}

/// The host takes over the device's room; a client from an earlier session is
/// put out and told that the host left.
pub open spec fn host_announced(
    rooms: Rooms,
    link: HostLinkView,
    device_id: Seq<char>,
    password_hash: Seq<char>,
) -> HostStep {
    let host = HostView { password_hash, tx: link.conn, public_addr: link.public_addr };
    HostStep {
        rooms: rooms.insert(device_id, RoomView { host: Some(host), client: None }),
        link: HostLinkView { phase: HostPhaseView::Relaying(device_id), ..link },
        out: to_client(registry::room_of(rooms, device_id), ServerToClientView::HostLeft),
    }
}

/// The host leaves: its room has no host any more, and its client is told.
pub open spec fn host_left(rooms: Rooms, link: HostLinkView, device_id: Seq<char>) -> HostStep {
    let room = registry::room_of(rooms, device_id);
    HostStep {
        rooms: rooms.insert(device_id, RoomView { host: None, ..room }),
        link: host_closed(link),
        out: to_client(room, ServerToClientView::HostLeft),
    }
}

/// What the server passes on from a host to the client of its room: frames and
/// clipboard text, and nothing else.
pub open spec fn host_relayed(room: RoomView, message: HostMessage) -> Seq<OutgoingView> {
    match message.payload {
        Some(HostPayload::Frame(frame)) => to_client(room, ServerToClientView::Frame(frame)),
        Some(HostPayload::Clipboard(clip)) => to_client(room, ServerToClientView::Clipboard(clip)),
        _ => Seq::empty(),
    }
}

/// One step of a host's session. `password_hash` is the hash of the announced
/// password, if one was announced and could be hashed.
pub open spec fn host_step(
    rooms: Rooms,
    link: HostLinkView,
    event: HostInbound,
    password_hash: Option<Seq<char>>,
) -> HostStep {
    match link.phase {
        HostPhaseView::AwaitAnnounce => match event {
            HostInbound::Message(m) => match m.payload {
                Some(HostPayload::Announce(a)) => if a.device_id@.len() == 0 {
                    host_rejected(rooms, link, "device_id must not be empty"@)
                } else {
                    match password_hash {
                        Some(hash) => host_announced(rooms, link, a.device_id@, hash),
                        None => HostStep { rooms, link: host_closed(link), out: Seq::empty() },
                    }
                },
                _ => host_rejected(rooms, link, "first message must be announce"@),
            },
            HostInbound::Ended => HostStep { rooms, link: host_closed(link), out: Seq::empty() },
        },
        HostPhaseView::Relaying(device_id) => match event {
            HostInbound::Message(m) => HostStep {
                rooms,
                link,
                out: host_relayed(registry::room_of(rooms, device_id), m),
            },
            HostInbound::Ended => host_left(rooms, link, device_id),
        },
        HostPhaseView::Closed => HostStep { rooms, link, out: Seq::empty() },
    }
}

/// What hashing brings to a step of a host's session: the hash of the announced
/// password with some salt, for which the password is accepted, if the step
/// announces a device and the password can be hashed.
pub open spec fn announced_hash(
    link: HostLinkView,
    event: HostInbound,
    hash: Option<Seq<char>>,
) -> bool {
    match (link.phase, event) {
        (HostPhaseView::AwaitAnnounce, HostInbound::Message(m)) => match m.payload {
            Some(HostPayload::Announce(a)) if a.device_id@.len() != 0 => {
                &&& hash is Some <==> auth::hashable(a.password@)
                &&& hash matches Some(h) ==> auth::argon2_accepts(a.password@, h)
                &&& hash matches Some(h) ==> exists|salt: Seq<u8>|
                    salt.len() == 16 && h == #[trigger] auth::argon2_phc(a.password@, salt)
            },
            _ => hash is None,
        },
        _ => hash is None,
    }
}

/// What naming brings to a step of a client's session: a random ID, if the step
/// asks to join.
pub open spec fn fresh_peer_id(
    link: ClientLinkView,
    event: ClientInbound,
    peer_id: Seq<char>,
) -> bool {
    match (link.phase, event) {
        (ClientPhaseView::AwaitJoin, ClientInbound::Message(m)) => match m.payload {
            Some(ClientPayload::Join(_)) => exists|bytes: Seq<u8>| #[trigger]
                identity::is_uuid_v4(bytes) && peer_id == identity::uuid_text(bytes),
            _ => peer_id.len() == 0,
        },
        _ => peer_id.len() == 0,
    }
}

/// Why a join is refused, if it is. `stale` tells whether the connection of the
/// client that is in the room is already closed.
pub open spec fn join_refusal(
    rooms: Rooms,
    device_id: Seq<char>,
    password: Seq<char>,
    stale: bool,
) -> Option<Seq<char>> {
    if !rooms.contains_key(device_id) {
        Some("device not found"@)
    } else {
        match rooms[device_id].host {
            None => Some("host not available"@),
            Some(h) => if !auth::argon2_accepts(password, h.password_hash) {
                Some("wrong password"@)
            } else if rooms[device_id].client is Some && !stale {
                Some("room is full"@)
            } else {
                None
            },
        }
    }
}

/// The client is told why it cannot join, and its session ends.
pub open spec fn join_refused(rooms: Rooms, link: ClientLinkView, error: Seq<char>) -> ClientStep {
    ClientStep {
        rooms,
        link: client_closed(link),
        out: seq![
            OutgoingView::ToClient {
                conn: link.conn,
                message: ServerToClientView::JoinResult {
                    ok: false,
                    error,
                    host_public_addr: Seq::empty(),
                },
            },
        ],
    }
}

/// The client takes its place in the room. It learns the host's address, and
/// the host learns of the client and of its address.
pub open spec fn join_accepted(
    rooms: Rooms,
    link: ClientLinkView,
    device_id: Seq<char>,
    peer_id: Seq<char>,
) -> ClientStep {
    let room = rooms[device_id];
    let host = room.host->0;
    let client = ClientView { peer_id, tx: link.conn, public_addr: link.public_addr };
    ClientStep {
        rooms: rooms.insert(device_id, RoomView { client: Some(client), ..room }),
        link: ClientLinkView { phase: ClientPhaseView::Relaying { device_id, peer_id }, ..link },
        out: seq![
            OutgoingView::ToClient {
                conn: link.conn,
                message: ServerToClientView::JoinResult {
                    ok: true,
                    error: Seq::empty(),
                    host_public_addr: host.public_addr,
                },
            },
            OutgoingView::ToHost {
                conn: host.tx,
                message: ServerToHostView::ClientJoined { peer_id, public_addr: link.public_addr },
            },
            OutgoingView::ToHost {
                conn: host.tx,
                message: ServerToHostView::PeerEndpoint { addr: link.public_addr },
            },
        ],
    }
}

/// A client asks to join a device's room.
pub open spec fn join_step(
    rooms: Rooms,
    link: ClientLinkView,
    join: ClientJoin,
    stale: bool,
    peer_id: Seq<char>,
) -> ClientStep {
    match join_refusal(rooms, join.device_id@, join.password@, stale) {
        Some(error) => join_refused(rooms, link, error),
        None => join_accepted(rooms, link, join.device_id@, peer_id),
    }
}

/// The client leaves: its room has no client any more, and its host is told.
pub open spec fn client_left(
    rooms: Rooms,
    link: ClientLinkView,
    device_id: Seq<char>,
    peer_id: Seq<char>,
) -> ClientStep {
    let room = registry::room_of(rooms, device_id);
    ClientStep {
        rooms: rooms.insert(device_id, RoomView { client: None, ..room }),
        link: client_closed(link),
        out: to_host(room, ServerToHostView::ClientLeft { peer_id }),
    }
}

/// What the server passes on from a client to the host of its room: input and
/// clipboard text, and nothing else.
pub open spec fn client_relayed(room: RoomView, message: ClientMessage) -> Seq<OutgoingView> {
    match message.payload {
        Some(ClientPayload::Input(input)) => to_host(room, ServerToHostView::Input(input)),
        Some(ClientPayload::Clipboard(clip)) => to_host(room, ServerToHostView::Clipboard(clip)),
        _ => Seq::empty(),
    }
}

/// One step of a client's session. `peer_id` names the session if the client
/// is let in.
pub open spec fn client_step(
    rooms: Rooms,
    link: ClientLinkView,
    event: ClientInbound,
    stale: bool,
    peer_id: Seq<char>,
) -> ClientStep {
    match link.phase {
        ClientPhaseView::AwaitJoin => match event {
            ClientInbound::Message(m) => match m.payload {
                Some(ClientPayload::Join(join)) => join_step(rooms, link, join, stale, peer_id),
                _ => ClientStep {
                    rooms,
                    link: client_closed(link),
                    out: seq![
                        OutgoingView::ToClient {
                            conn: link.conn,
                            message: ServerToClientView::Error("first message must be join"@),
                        },
                    ],
                },
            },
            ClientInbound::Ended => ClientStep {
                rooms,
                link: client_closed(link),
                out: Seq::empty(),
            },
        },
        ClientPhaseView::Relaying { device_id, peer_id } => match event {
            ClientInbound::Message(m) => ClientStep {
                rooms,
                link,
                out: client_relayed(registry::room_of(rooms, device_id), m),
            },
            ClientInbound::Ended => client_left(rooms, link, device_id, peer_id),
        },
        ClientPhaseView::Closed => ClientStep { rooms, link, out: Seq::empty() },
    }
}

/// An error message for a host.
pub fn server_error(msg: &str) -> (message: ServerToHost)
    ensures
        message@ == ServerToHostView::Error(msg@),
        message.payload matches Some(HostboundPayload::Error(e)) && e.message@ == msg@,
{
    ServerToHost {
        payload: Some(HostboundPayload::Error(ServerError { message: msg.to_owned() })),
    }
}

/// An error message for a client.
pub fn client_error(msg: &str) -> (message: ServerToClient)
    ensures
        message@ == ServerToClientView::Error(msg@),
        message.payload matches Some(ClientboundPayload::Error(e)) && e.message@ == msg@,
{
    ServerToClient {
        payload: Some(ClientboundPayload::Error(ServerError { message: msg.to_owned() })),
    }
}

/// The answer to a client that cannot join.
fn join_rejection(error: &str) -> (message: ServerToClient)
    ensures
        message@ == (ServerToClientView::JoinResult {
            ok: false,
            error: error@,
            host_public_addr: Seq::empty(),
        }),
{
    ServerToClient {
        payload: Some(
            ClientboundPayload::JoinResult(
                JoinResult { ok: false, error: error.to_owned(), host_public_addr: String::new() },
            ),
        ),
    }
}

/// No message.
fn nothing() -> (out: Vec<Outgoing>)
    ensures
        sent(out) == Seq::<OutgoingView>::empty(),
        out@.len() == 0,
{
    let out: Vec<Outgoing> = Vec::new();
    assert(sent(out) =~= Seq::<OutgoingView>::empty());
    out
}

/// A single message.
fn one(message: Outgoing) -> (out: Vec<Outgoing>)
    ensures
        sent(out) == seq![message@],
        out@ == seq![message],
{
    let mut out: Vec<Outgoing> = Vec::new();
    out.push(message);
    assert(sent(out) =~= seq![message@]);
    out
}

/// Hashes the password that a step of a host's session announces, if it
/// announces a device.
pub fn hash_announced(link: &HostLink, event: &HostInbound) -> (hash: Option<PasswordHash>)
    ensures
        announced_hash(link@, *event, auth::hash_view(hash)),
        match (link.phase, *event) {
            (HostPhase::AwaitAnnounce, HostInbound::Message(m)) => match m.payload {
                Some(HostPayload::Announce(a)) => {
                    &&& hash is Some <==> a.device_id@.len() != 0 && auth::hashable(a.password@)
                    &&& hash matches Some(h) ==> auth::argon2_accepts(a.password@, h@)
                },
                _ => hash is None,
            },
            _ => hash is None,
        },
{
    match (&link.phase, event) {
        (
            HostPhase::AwaitAnnounce,
            HostInbound::Message(HostMessage { payload: Some(HostPayload::Announce(a)) }),
        ) if !a.device_id.as_str().is_empty() => auth::hash_password(a.password.as_str()),
        _ => None,
    }
}

/// The relay server.
pub struct RemoteDesktopService {
    pub registry: Registry,
}

impl RemoteDesktopService {
    /// A server without rooms.
    pub fn new() -> (service: Self)
        ensures
            service.registry.wf(),
            service.registry@ == Map::<Seq<char>, RoomView>::empty(),
    {
        RemoteDesktopService { registry: Registry::new() }
    }

    /// Confirms the device ID that the device brings, or issues the one that is
    /// made from `bytes`.
    pub fn register_device_with(&self, request: RegisterRequest, bytes: [u8; 16]) -> (response:
        RegisterResponse)
        ensures
            response.device_id@ == registered_id(request.device_id@, bytes@),
            request.device_id@.len() != 0 ==> response.device_id@ == request.device_id@,
            request.device_id@.len() == 0 ==> response.device_id@ == identity::device_id_text(
                bytes@,
            ),
    {
        let device_id = if request.device_id.as_str().is_empty() {
            identity::device_id_from(bytes)
        } else {
            request.device_id
        };
        RegisterResponse { device_id }
    }

    /// Confirms the device ID that the device brings, or issues a random one of
    /// eight upper-case hexadecimal digits.
    pub fn register_device(&self, request: RegisterRequest) -> (response: RegisterResponse)
        ensures
            request.device_id@.len() != 0 ==> response.device_id@ == request.device_id@,
            request.device_id@.len() == 0 ==> exists|bytes: Seq<u8>| #[trigger]
                identity::is_uuid_v4(bytes) && response.device_id@ == registered_id(
                    request.device_id@,
                    bytes,
                ),
    {
        if !request.device_id.as_str().is_empty() {
            return RegisterResponse { device_id: request.device_id };
        }
        self.register_device_with(request, identity::new_v4())
    }

    /// The connection of the client that is in a device's room. Whether it is
    /// closed decides if another client can take its place.
    pub fn watcher(&self, device_id: &str) -> (conn: Option<u64>)
        requires
            self.registry.wf(),
        ensures
            conn == match registry::room_of(self.registry@, device_id@).client {
                Some(c) => Some(c.tx),
                None => None,
            },
    {
        match self.registry.room(device_id) {
            Some(room) => match &room.client {
                Some(c) => Some(c.tx),
                None => None,
            },
            None => None,
        }
    }

    /// A message for the client of a device's room, if there is one.
    fn for_client(&self, device_id: &str, message: ServerToClient) -> (out: Vec<Outgoing>)
        requires
            self.registry.wf(),
        ensures
            sent(out) == to_client(registry::room_of(self.registry@, device_id@), message@),
    {
        match self.watcher(device_id) {
            Some(conn) => one(Outgoing::ToClient { conn, message }),
            None => nothing(),
        }
    }

    /// A message for the host of a device's room, if there is one.
    fn for_host(&self, device_id: &str, message: ServerToHost) -> (out: Vec<Outgoing>)
        requires
            self.registry.wf(),
        ensures
            sent(out) == to_host(registry::room_of(self.registry@, device_id@), message@),
    {
        if let Some(room) = self.registry.room(device_id) {
            if let Some(h) = &room.host {
                return one(Outgoing::ToHost { conn: h.tx, message });
            }
        }
        nothing()
    }

    /// The host takes over the room of the device that it announced.
    fn announce(&mut self, link: &mut HostLink, device_id: String, password_hash: PasswordHash) -> (
    out: Vec<Outgoing>)
        requires
            old(self).registry.wf(),
        ensures
            final(self).registry.wf(),
            final(self).registry@ == host_announced(
                old(self).registry@,
                old(link)@,
                device_id@,
                password_hash@,
            ).rooms,
            final(link)@ == host_announced(
                old(self).registry@,
                old(link)@,
                device_id@,
                password_hash@,
            ).link,
            sent(out) == host_announced(
                old(self).registry@,
                old(link)@,
                device_id@,
                password_hash@,
            ).out,
    {
        let host = HostSession {
            password_hash,
            tx: link.conn,
            public_addr: link.public_addr.clone(),
        };
        let before = self.registry.replace_room(
            device_id.as_str(),
            RoomEntry { host: Some(host), client: None },
        );
        link.phase = HostPhase::Relaying { device_id };
        match before.client {
            Some(stale) => one(
                Outgoing::ToClient {
                    conn: stale.tx,
                    message: ServerToClient { payload: Some(ClientboundPayload::HostLeft) },
                },
            ),
            None => nothing(),
        }
    }

    /// One step of a host's session, given the hash of the announced password.
    pub fn host_session_with(
        &mut self,
        link: &mut HostLink,
        event: HostInbound,
        password_hash: Option<PasswordHash>,
    ) -> (out: Vec<Outgoing>)
        requires
            old(self).registry.wf(),
        ensures
            final(self).registry.wf(),
            ({
                let step = host_step(
                    old(self).registry@,
                    old(link)@,
                    event,
                    auth::hash_view(password_hash),
                );
                &&& final(self).registry@ == step.rooms
                &&& final(link)@ == step.link
                &&& sent(out) == step.out
            }),
    {
        match &link.phase {
            HostPhase::AwaitAnnounce => match event {
                HostInbound::Message(m) => match m.payload {
                    Some(HostPayload::Announce(a)) => {
                        if a.device_id.as_str().is_empty() {
                            link.phase = HostPhase::Closed;
                            return one(
                                Outgoing::ToHost {
                                    conn: link.conn,
                                    message: server_error("device_id must not be empty"),
                                },
                            );
                        }
                        match password_hash {
                            Some(hash) => self.announce(link, a.device_id, hash),
                            None => {
                                link.phase = HostPhase::Closed;
                                nothing()
                            },
                        }
                    },
                    _ => {
                        link.phase = HostPhase::Closed;
                        one(
                            Outgoing::ToHost {
                                conn: link.conn,
                                message: server_error("first message must be announce"),
                            },
                        )
                    },
                },
                HostInbound::Ended => {
                    link.phase = HostPhase::Closed;
                    nothing()
                },
            },
            HostPhase::Relaying { device_id } => match event {
                HostInbound::Message(m) => match m.payload {
                    Some(HostPayload::Frame(frame)) => self.for_client(
                        device_id.as_str(),
                        ServerToClient { payload: Some(ClientboundPayload::Frame(frame)) },
                    ),
                    Some(HostPayload::Clipboard(clip)) => self.for_client(
                        device_id.as_str(),
                        ServerToClient { payload: Some(ClientboundPayload::Clipboard(clip)) },
                    ),
                    _ => nothing(),
                },
                HostInbound::Ended => {
                    let out = self.for_client(
                        device_id.as_str(),
                        ServerToClient { payload: Some(ClientboundPayload::HostLeft) },
                    );
                    self.registry.remove_host(device_id.as_str());
                    link.phase = HostPhase::Closed;
                    out
                },
            },
            HostPhase::Closed => nothing(),
        }
    }

    /// One step of a host's session: the first message must announce a device
    /// and its password; then frames and clipboard text go to the client of the
    /// device's room, until the host leaves.
    pub fn host_session(&mut self, link: &mut HostLink, event: HostInbound) -> (out: Vec<Outgoing>)
        requires
            old(self).registry.wf(),
        ensures
            final(self).registry.wf(),
            exists|hash: Option<Seq<char>>| #[trigger]
                announced_hash(old(link)@, event, hash) && ({
                    let step = host_step(old(self).registry@, old(link)@, event, hash);
                    &&& final(self).registry@ == step.rooms
                    &&& final(link)@ == step.link
                    &&& sent(out) == step.out
                }),
    {
        let hash = hash_announced(link, &event);
        assert(announced_hash(old(link)@, event, auth::hash_view(hash)));
        self.host_session_with(link, event, hash)
    }

    /// Whether a client may join: the connection and address of the room's host,
    /// or the reason why not.
    fn may_join(&self, join: &ClientJoin, stale: bool) -> (res: Result<(u64, String), &'static str>)
        requires
            self.registry.wf(),
        ensures
            match res {
                Ok((tx, addr)) => {
                    let host = self.registry@[join.device_id@].host;
                    &&& join_refusal(self.registry@, join.device_id@, join.password@, stale) is None
                    &&& tx == host->0.tx
                    &&& addr@ == host->0.public_addr
                },
                Err(reason) => join_refusal(
                    self.registry@,
                    join.device_id@,
                    join.password@,
                    stale,
                ) == Some(reason@),
            },
    {
        match self.registry.room(join.device_id.as_str()) {
            None => Err("device not found"),
            Some(room) => match &room.host {
                None => Err("host not available"),
                Some(h) => {
                    if !auth::verify_password(join.password.as_str(), &h.password_hash) {
                        return Err("wrong password");
                    }
                    if room.client.is_some() && !stale {
                        return Err("room is full");
                    }
                    Ok((h.tx, h.public_addr.clone()))
                },
            },
        }
    }

    /// A client asks to join a device's room.
    fn join(&mut self, link: &mut ClientLink, join: ClientJoin, stale: bool, peer_id: String) -> (
    out: Vec<Outgoing>)
        requires
            old(self).registry.wf(),
        ensures
            final(self).registry.wf(),
            ({
                let step = join_step(old(self).registry@, old(link)@, join, stale, peer_id@);
                &&& final(self).registry@ == step.rooms
                &&& final(link)@ == step.link
                &&& sent(out) == step.out
            }),
    {
        match self.may_join(&join, stale) {
            Err(reason) => {
                link.phase = ClientPhase::Closed;
                one(Outgoing::ToClient { conn: link.conn, message: join_rejection(reason) })
            },
            Ok((host_tx, host_public_addr)) => {
                let client = ClientSession {
                    peer_id: peer_id.clone(),
                    tx: link.conn,
                    public_addr: link.public_addr.clone(),
                };
                self.registry.set_client(join.device_id.as_str(), Some(client));
                let joined = ClientJoined {
                    peer_id: peer_id.clone(),
                    public_addr: link.public_addr.clone(),
                };
                let endpoint = PeerEndpoint { addr: link.public_addr.clone() };
                link.phase = ClientPhase::Relaying { device_id: join.device_id, peer_id };
                let mut out: Vec<Outgoing> = Vec::new();
                out.push(
                    Outgoing::ToClient {
                        conn: link.conn,
                        message: ServerToClient {
                            payload: Some(
                                ClientboundPayload::JoinResult(
                                    JoinResult { ok: true, error: String::new(), host_public_addr },
                                ),
                            ),
                        },
                    },
                );
                out.push(
                    Outgoing::ToHost {
                        conn: host_tx,
                        message: ServerToHost {
                            payload: Some(HostboundPayload::ClientJoined(joined)),
                        },
                    },
                );
                out.push(
                    Outgoing::ToHost {
                        conn: host_tx,
                        message: ServerToHost {
                            payload: Some(HostboundPayload::PeerEndpoint(endpoint)),
                        },
                    },
                );
                assert(sent(out) =~= join_accepted(
                    old(self).registry@,
                    old(link)@,
                    join.device_id@,
                    peer_id@,
                ).out);
                out
            },
        }
    }

    /// One step of a client's session, given the ID for the session and whether
    /// the connection of the client that is in the room is closed.
    pub fn client_session_with(
        &mut self,
        link: &mut ClientLink,
        event: ClientInbound,
        stale: bool,
        peer_id: String,
    ) -> (out: Vec<Outgoing>)
        requires
            old(self).registry.wf(),
        ensures
            final(self).registry.wf(),
            ({
                let step = client_step(
                    old(self).registry@,
                    old(link)@,
                    event,
                    stale,
                    peer_id@,
                );
                &&& final(self).registry@ == step.rooms
                &&& final(link)@ == step.link
                &&& sent(out) == step.out
            }),
    {
        match &link.phase {
            ClientPhase::AwaitJoin => match event {
                ClientInbound::Message(m) => match m.payload {
                    Some(ClientPayload::Join(join)) => self.join(link, join, stale, peer_id),
                    _ => {
                        link.phase = ClientPhase::Closed;
                        one(
                            Outgoing::ToClient {
                                conn: link.conn,
                                message: client_error("first message must be join"),
                            },
                        )
                    },
                },
                ClientInbound::Ended => {
                    link.phase = ClientPhase::Closed;
                    nothing()
                },
            },
            ClientPhase::Relaying { device_id, peer_id } => match event {
                ClientInbound::Message(m) => match m.payload {
                    Some(ClientPayload::Input(input)) => self.for_host(
                        device_id.as_str(),
                        ServerToHost { payload: Some(HostboundPayload::Input(input)) },
                    ),
                    Some(ClientPayload::Clipboard(clip)) => self.for_host(
                        device_id.as_str(),
                        ServerToHost { payload: Some(HostboundPayload::Clipboard(clip)) },
                    ),
                    _ => nothing(),
                },
                ClientInbound::Ended => {
                    let out = self.for_host(
                        device_id.as_str(),
                        ServerToHost {
                            payload: Some(
                                HostboundPayload::ClientLeft(
                                    ClientLeft { peer_id: peer_id.clone() },
                                ),
                            ),
                        },
                    );
                    self.registry.set_client(device_id.as_str(), None);
                    link.phase = ClientPhase::Closed;
                    out
                },
            },
            ClientPhase::Closed => nothing(),
        }
    }

    /// One step of a client's session: the first message must ask to join a
    /// device's room; then input and clipboard text go to the room's host, until
    /// the client leaves. `stale` tells whether the connection of the client
    /// that is in the room (see `watcher`) is already closed, so that its place
    /// can be taken.
    pub fn client_session(&mut self, link: &mut ClientLink, event: ClientInbound, stale: bool) -> (
    out: Vec<Outgoing>)
        requires
            old(self).registry.wf(),
        ensures
            final(self).registry.wf(),
            exists|peer_id: Seq<char>| #[trigger]
                fresh_peer_id(old(link)@, event, peer_id) && ({
                    let step = client_step(
                        old(self).registry@,
                        old(link)@,
                        event,
                        stale,
                        peer_id,
                    );
                    &&& final(self).registry@ == step.rooms
                    &&& final(link)@ == step.link
                    &&& sent(out) == step.out
                }),
    {
        let peer_id = match (&link.phase, &event) {
            (
                ClientPhase::AwaitJoin,
                ClientInbound::Message(ClientMessage { payload: Some(ClientPayload::Join(_)) }),
            ) => identity::new_peer_id(),
            _ => String::new(),
        };
        assert(fresh_peer_id(old(link)@, event, peer_id@));
        self.client_session_with(link, event, stale, peer_id)
    }
}

} // verus!
