//! The messages that hosts, clients and the relay server exchange.

use vstd::prelude::*;

verus! {

/// Asks the server to confirm a device ID, or to issue one if it is empty.
#[derive(Debug, PartialEq, Eq)]
pub struct RegisterRequest {
    pub device_id: String,
}

/// The device ID that the server confirmed or issued.
#[derive(Debug, PartialEq, Eq)]
pub struct RegisterResponse {
    pub device_id: String,
}

/// A host's first message.
#[derive(Debug, PartialEq, Eq)]
pub struct HostAnnounce {
    pub device_id: String,
    pub password: String,
}

/// A client's first message.
#[derive(Debug, PartialEq, Eq)]
pub struct ClientJoin {
    pub device_id: String,
    pub password: String,
}

/// One changed tile of the screen.
#[derive(Debug, PartialEq, Eq)]
pub struct TileUpdate {
    pub x: u32,
    pub y: u32,
    pub tile_width: u32,
    pub tile_height: u32,
    pub jpeg_data: Vec<u8>,
}

/// A screen update: a whole picture (a keyframe) or a list of changed tiles.
#[derive(Debug, PartialEq, Eq)]
pub struct FrameData {
    pub width: u32,
    pub height: u32,
    pub is_keyframe: bool,
    pub jpeg_data: Vec<u8>,
    pub tiles: Vec<TileUpdate>,
}

/// What a `FrameData` holds.
#[verifier::ext_equal]
pub struct FrameDataView {
    pub width: u32,
    pub height: u32,
    pub is_keyframe: bool,
    pub jpeg_data: Seq<u8>,
    pub tiles: Seq<TileUpdate>,
}

impl View for FrameData {
    type V = FrameDataView;

    open spec fn view(&self) -> FrameDataView {
        FrameDataView {
            width: self.width,
            height: self.height,
            is_keyframe: self.is_keyframe,
            jpeg_data: self.jpeg_data@,
            tiles: self.tiles@,
        }
    }
}

/// Text that was copied on the other side.
#[derive(Debug, PartialEq, Eq)]
pub struct ClipboardSync {
    pub text: String,
}

/// A pointer movement. The coordinates are the bit patterns of two
/// single-precision numbers between 0 and 1: fractions of the screen's width
/// and height.
#[derive(Clone, Copy, Debug, PartialEq, Eq)]
pub struct MouseMove {
    pub x: u32,
    pub y: u32,
}

#[derive(Debug, PartialEq, Eq)]
pub struct MouseButton {
    pub button: String,
    pub pressed: bool,
}

#[derive(Clone, Copy, Debug, PartialEq, Eq)]
pub struct MouseScroll {
    pub dx: i32,
    pub dy: i32,
}

#[derive(Debug, PartialEq, Eq)]
pub struct KeyEvent {
    pub key: String,
    pub pressed: bool,
}

#[derive(Debug, PartialEq, Eq)]
pub enum Event {
    MouseMove(MouseMove),
    MouseButton(MouseButton),
    MouseScroll(MouseScroll),
    Key(KeyEvent),
}

/// One action of the user at the client.
#[derive(Debug, PartialEq, Eq)]
pub struct InputEvent {
    pub event: Option<Event>,
}

#[derive(Debug, PartialEq, Eq)]
pub enum HostPayload {
    Announce(HostAnnounce),
    Frame(FrameData),
    Clipboard(ClipboardSync),
    Heartbeat,
}

/// A message from a host to the server.
#[derive(Debug, PartialEq, Eq)]
pub struct HostMessage {
    pub payload: Option<HostPayload>,
}

/// What a host's stream brings: a message, or its end.
#[derive(Debug, PartialEq, Eq)]
pub enum HostInbound {
    Message(HostMessage),
    Ended,
}

#[derive(Debug, PartialEq, Eq)]
pub enum ClientPayload {
    Join(ClientJoin),
    Input(InputEvent),
    Clipboard(ClipboardSync),
    Heartbeat,
}

/// A message from a client to the server.
#[derive(Debug, PartialEq, Eq)]
pub struct ClientMessage {
    pub payload: Option<ClientPayload>,
}

/// What a client's stream brings: a message, or its end.
#[derive(Debug, PartialEq, Eq)]
pub enum ClientInbound {
    Message(ClientMessage),
    Ended,
}

#[derive(Debug, PartialEq, Eq)]
pub struct ClientJoined {
    pub peer_id: String,
    pub public_addr: String,
}

#[derive(Debug, PartialEq, Eq)]
pub struct ClientLeft {
    pub peer_id: String,
}

/// The address under which the server sees the other side.
#[derive(Debug, PartialEq, Eq)]
pub struct PeerEndpoint {
    pub addr: String,
}

#[derive(Debug, PartialEq, Eq)]
pub struct ServerError {
    pub message: String,
}

#[derive(Debug, PartialEq, Eq)]
pub struct JoinResult {
    pub ok: bool,
    pub error: String,
    pub host_public_addr: String,
}

#[derive(Debug, PartialEq, Eq)]
pub enum HostboundPayload {
    ClientJoined(ClientJoined),
    ClientLeft(ClientLeft),
    PeerEndpoint(PeerEndpoint),
    Input(InputEvent),
    Clipboard(ClipboardSync),
    Error(ServerError),
}

/// A message from the server to a host.
#[derive(Debug, PartialEq, Eq)]
pub struct ServerToHost {
    pub payload: Option<HostboundPayload>,
}

#[derive(Debug, PartialEq, Eq)]
pub enum ClientboundPayload {
    JoinResult(JoinResult),
    Frame(FrameData),
    Clipboard(ClipboardSync),
    HostLeft,
    Error(ServerError),
}

/// A message from the server to a client.
#[derive(Debug, PartialEq, Eq)]
pub struct ServerToClient {
    pub payload: Option<ClientboundPayload>,
}

/// What a `ServerToHost` says. What is passed on unchanged stands as it is.
pub enum ServerToHostView {
    Empty,
    ClientJoined { peer_id: Seq<char>, public_addr: Seq<char> },
    ClientLeft { peer_id: Seq<char> },
    PeerEndpoint { addr: Seq<char> },
    Input(InputEvent),
    Clipboard(ClipboardSync),
    Error(Seq<char>),
}

impl View for ServerToHost {
    type V = ServerToHostView;

    open spec fn view(&self) -> ServerToHostView {
        match self.payload {
            None => ServerToHostView::Empty,
            Some(HostboundPayload::ClientJoined(j)) => ServerToHostView::ClientJoined {
                peer_id: j.peer_id@,
                public_addr: j.public_addr@,
            },
            Some(HostboundPayload::ClientLeft(l)) => ServerToHostView::ClientLeft {
                peer_id: l.peer_id@,
            },
            Some(HostboundPayload::PeerEndpoint(e)) => ServerToHostView::PeerEndpoint {
                addr: e.addr@,
            },
            Some(HostboundPayload::Input(i)) => ServerToHostView::Input(i),
            Some(HostboundPayload::Clipboard(c)) => ServerToHostView::Clipboard(c),
            Some(HostboundPayload::Error(e)) => ServerToHostView::Error(e.message@),
        }
    }
}

/// What a `ServerToClient` says. What is passed on unchanged stands as it is.
pub enum ServerToClientView {
    Empty,
    JoinResult { ok: bool, error: Seq<char>, host_public_addr: Seq<char> },
    Frame(FrameData),
    Clipboard(ClipboardSync),
    HostLeft,
    Error(Seq<char>),
}

impl View for ServerToClient {
    type V = ServerToClientView;

    open spec fn view(&self) -> ServerToClientView {
        match self.payload {
            None => ServerToClientView::Empty,
            Some(ClientboundPayload::JoinResult(r)) => ServerToClientView::JoinResult {
                ok: r.ok,
                error: r.error@,
                host_public_addr: r.host_public_addr@,
            },
            Some(ClientboundPayload::Frame(f)) => ServerToClientView::Frame(f),
            Some(ClientboundPayload::Clipboard(c)) => ServerToClientView::Clipboard(c),
            Some(ClientboundPayload::HostLeft) => ServerToClientView::HostLeft,
            Some(ClientboundPayload::Error(e)) => ServerToClientView::Error(e.message@),
        }
    }
}

/// Two frames that show the same are the same in every field.
pub proof fn law_frames_show_their_fields(f: FrameData)
    ensures
        f@.width == f.width,
        f@.height == f.height,
        f@.is_keyframe == f.is_keyframe,
        f@.jpeg_data == f.jpeg_data@,
        f@.tiles == f.tiles@,
{
}

/// A message to a host shows what it holds, field by field, and messages of
/// different kinds never look alike.
pub proof fn law_messages_to_hosts_show_what_they_hold(m: ServerToHost)
    ensures
        m@ is Empty <==> m.payload is None,
        m@ matches ServerToHostView::ClientJoined { peer_id, public_addr } ==> (
        m.payload matches Some(HostboundPayload::ClientJoined(j)) && j.peer_id@ == peer_id
            && j.public_addr@ == public_addr),
        m@ matches ServerToHostView::ClientLeft { peer_id } ==> (m.payload matches Some(
            HostboundPayload::ClientLeft(l),
        ) && l.peer_id@ == peer_id),
        m@ matches ServerToHostView::PeerEndpoint { addr } ==> (m.payload matches Some(
            HostboundPayload::PeerEndpoint(e),
        ) && e.addr@ == addr),
        m@ matches ServerToHostView::Input(i) ==> m.payload == Some(HostboundPayload::Input(i)),
        m@ matches ServerToHostView::Clipboard(c) ==> m.payload == Some(
            HostboundPayload::Clipboard(c),
        ),
        m@ matches ServerToHostView::Error(error) ==> (m.payload matches Some(
            HostboundPayload::Error(e),
        ) && e.message@ == error),
{
}

/// A message to a client shows what it holds, field by field, and messages of
/// different kinds never look alike.
pub proof fn law_messages_to_clients_show_what_they_hold(m: ServerToClient)
    ensures
        m@ is Empty <==> m.payload is None,
        m@ matches ServerToClientView::JoinResult { ok, error, host_public_addr } ==> (
        m.payload matches Some(ClientboundPayload::JoinResult(r)) && r.ok == ok && r.error@ == error
            && r.host_public_addr@ == host_public_addr),
        m@ matches ServerToClientView::Frame(f) ==> m.payload == Some(
            ClientboundPayload::Frame(f),
        ),
        m@ matches ServerToClientView::Clipboard(c) ==> m.payload == Some(
            ClientboundPayload::Clipboard(c),
        ),
        m@ is HostLeft <==> m.payload == Some(ClientboundPayload::HostLeft),
        m@ matches ServerToClientView::Error(error) ==> (m.payload matches Some(
            ClientboundPayload::Error(e),
        ) && e.message@ == error),
{
}

} // verus!
