//! The desktop application's side of the relay: what a host and a client do
//! with each message of the server.

use crate::encoding;
use crate::messages::{
    ClientJoin, ClientMessage, ClientPayload, ClientboundPayload, FrameData, HostAnnounce,
    HostMessage, HostPayload, HostboundPayload, InputEvent, RegisterRequest, ServerToClient,
    ServerToHost, TileUpdate,
};
use crate::messages::FrameDataView;
use crate::text;
use vstd::prelude::*;
use vstd::string::*;

verus! {

/// How the server is connected to.
#[derive(Clone, Copy, Debug, PartialEq, Eq, Structural)]
pub struct ConnectOptions {
    /// Use TLS, trusting the system's root certificates.
    pub tls: bool,
    /// How long connecting may take, in seconds.
    pub connect_timeout_secs: u64,
    /// A ping goes out this often, in seconds, to keep the connection alive
    /// through the idle timeouts of load balancers (typically 60 s).
    pub keep_alive_interval_secs: u64,
    /// The connection is closed if a ping is not answered in so many seconds.
    pub keep_alive_timeout_secs: u64,
    /// Ping even when there are no active streams.
    pub keep_alive_while_idle: bool,
    /// The largest message, in bytes, that is sent or taken (64 MiB).
    pub max_message_bytes: usize,
}

/// How to connect to a server: through TLS if its URL says `https`.
pub fn connect(server_url: &str) -> (options: ConnectOptions)
    ensures
        options == (ConnectOptions {
            tls: text::begins_with(server_url@, "https://"@),
            connect_timeout_secs: 10,
            keep_alive_interval_secs: 20,
            keep_alive_timeout_secs: 10,
            keep_alive_while_idle: true,
            max_message_bytes: 67108864,
        }),
{
    ConnectOptions {
        tls: text::starts_with(server_url, "https://"),
        connect_timeout_secs: 10,
        keep_alive_interval_secs: 20,
        keep_alive_timeout_secs: 10,
        keep_alive_while_idle: true,
        max_message_bytes: 67108864,
    }
}

/// Asks the server to confirm a device ID, or to issue one if it is empty.
pub fn register_device(device_id: &str) -> (request: RegisterRequest)
    ensures
        request.device_id@ == device_id@,
{
    RegisterRequest { device_id: device_id.to_owned() }
}

/// A tile for the renderer: position, size and base64 JPEG.
#[derive(Debug, PartialEq, Eq)]
pub struct TileEvent {
    pub x: u32,
    pub y: u32,
    pub w: u32,
    pub h: u32,
    pub data: String,
}

/// What the user interface is told.
#[derive(Debug, PartialEq, Eq)]
pub enum UiEvent {
    PeerConnected,
    PeerDisconnected,
    ClipboardSync(String),
    ConnectionError(String),
    /// A whole picture, as base64 JPEG.
    FrameKeyframe { width: u32, height: u32, data: String },
    /// The tiles that changed.
    FrameDelta { width: u32, height: u32, tiles: Vec<TileEvent> },
}

pub struct TileEventView {
    pub x: u32,
    pub y: u32,
    pub w: u32,
    pub h: u32,
    pub data: Seq<char>,
}

pub enum UiEventView {
    PeerConnected,
    PeerDisconnected,
    ClipboardSync(Seq<char>),
    ConnectionError(Seq<char>),
    FrameKeyframe { width: u32, height: u32, data: Seq<char> },
    FrameDelta { width: u32, height: u32, tiles: Seq<TileEventView> },
}

impl View for TileEvent {
    type V = TileEventView;

    open spec fn view(&self) -> TileEventView {
        TileEventView { x: self.x, y: self.y, w: self.w, h: self.h, data: self.data@ }
    }
}

impl View for UiEvent {
    type V = UiEventView;

    open spec fn view(&self) -> UiEventView {
        match *self {
            UiEvent::PeerConnected => UiEventView::PeerConnected,
            UiEvent::PeerDisconnected => UiEventView::PeerDisconnected,
            UiEvent::ClipboardSync(text) => UiEventView::ClipboardSync(text@),
            UiEvent::ConnectionError(error) => UiEventView::ConnectionError(error@),
            UiEvent::FrameKeyframe { width, height, data } => UiEventView::FrameKeyframe {
                width,
                height,
                data: data@,
            },
            UiEvent::FrameDelta { width, height, tiles } => UiEventView::FrameDelta {
                width,
                height,
                tiles: tiles@.map_values(|t: TileEvent| t@),
            },
        }
    }
}

/// What an event that may be missing says.
pub open spec fn ui_view(event: Option<UiEvent>) -> Option<UiEventView> {
    match event {
        Some(e) => Some(e@),
        None => None,
    }
}

impl UiEvent {
    /// The name under which the user interface listens for the event.
    pub fn name(&self) -> (name: &'static str)
        ensures
            name@ == match *self {
                UiEvent::PeerConnected => "peer-connected"@,
                UiEvent::PeerDisconnected => "peer-disconnected"@,
                UiEvent::ClipboardSync(_) => "clipboard-sync"@,
                UiEvent::ConnectionError(_) => "connection-error"@,
                UiEvent::FrameKeyframe { .. } => "frame-keyframe"@,
                UiEvent::FrameDelta { .. } => "frame-delta"@,
            },
    {
        match self {
            UiEvent::PeerConnected => "peer-connected",
            UiEvent::PeerDisconnected => "peer-disconnected",
            UiEvent::ClipboardSync(_) => "clipboard-sync",
            UiEvent::ConnectionError(_) => "connection-error",
            UiEvent::FrameKeyframe { .. } => "frame-keyframe",
            UiEvent::FrameDelta { .. } => "frame-delta",
        }
    }
}

/// A tile as the renderer gets it.
pub open spec fn tile_event(t: TileUpdate) -> TileEventView {
    TileEventView {
        x: t.x,
        y: t.y,
        w: t.tile_width,
        h: t.tile_height,
        data: encoding::base64(t.jpeg_data@),
    }
}

/// A frame as the renderer gets it: a keyframe with its whole picture, a delta
/// frame with its tiles, and nothing for a delta frame without tiles.
pub open spec fn frame_event(frame: FrameDataView) -> Option<UiEventView> {
    if frame.is_keyframe {
        Some(
            UiEventView::FrameKeyframe {
                width: frame.width,
                height: frame.height,
                data: encoding::base64(frame.jpeg_data),
            },
        )
    } else if frame.tiles.len() == 0 {
        None
    } else {
        Some(
            UiEventView::FrameDelta {
                width: frame.width,
                height: frame.height,
                tiles: frame.tiles.map_values(|t: TileUpdate| tile_event(t)),
            },
        )
    }
}

/// The pictures of a frame are small enough for their base64 text to be
/// allocated.
pub open spec fn frame_encodable(frame: FrameDataView) -> bool {
    if frame.is_keyframe {
        encoding::base64_len(frame.jpeg_data.len()) <= isize::MAX
    } else {
        forall|i: int|
            0 <= i < frame.tiles.len() ==> encoding::base64_len(
                (#[trigger] frame.tiles[i]).jpeg_data@.len(),
            ) <= isize::MAX
    }
}

/// Whether the base64 text of `n` bytes can be allocated.
fn allocatable(n: usize) -> (yes: bool)
    ensures
        yes == (encoding::base64_len(n as nat) <= isize::MAX),
{
    let groups: usize = if n % 3 == 0 {
        n / 3
    } else {
        n / 3 + 1
    };
    groups <= isize::MAX as usize / 4
}

/// Whether the pictures of a frame are small enough for their base64 text to be
/// allocated.
pub fn can_emit(frame: &FrameData) -> (yes: bool)
    ensures
        yes == frame_encodable(frame@),
        frame.is_keyframe ==> (yes <==> 4 * ((frame.jpeg_data@.len() + 2) / 3) <= isize::MAX),
        !frame.is_keyframe ==> (yes <==> forall|i: int|
            0 <= i < frame.tiles@.len() ==> 4 * (((#[trigger] frame.tiles@[i]).jpeg_data@.len() + 2)
                / 3) <= isize::MAX),
{
    if frame.is_keyframe {
        return allocatable(frame.jpeg_data.len());
    }
    let mut i: usize = 0;
    while i < frame.tiles.len()
        invariant
            i <= frame.tiles@.len(),
            !frame.is_keyframe,
            forall|j: int|
                0 <= j < i ==> encoding::base64_len(
                    (#[trigger] frame.tiles@[j]).jpeg_data@.len(),
                ) <= isize::MAX,
        decreases frame.tiles@.len() - i,
    {
        if !allocatable(frame.tiles[i].jpeg_data.len()) {
            assert(encoding::base64_len(frame@.tiles[i as int].jpeg_data@.len()) > isize::MAX);
            return false;
        }
        i = i + 1;
    }
    true
}

/// Every frame of a message that may be sent can be shown: pictures of up to
/// 64 MiB are small enough.
pub proof fn law_frames_that_may_be_sent_can_be_shown(frame: FrameData)
    requires
        frame.jpeg_data@.len() <= 67108864,
        forall|i: int|
            0 <= i < frame.tiles@.len() ==> (#[trigger] frame.tiles@[i]).jpeg_data@.len()
                <= 67108864,
    ensures
        frame_encodable(frame@),
{
}

/// Turns a frame into the event for the renderer. Keyframes become a single
/// event with the full JPEG, delta frames an event with an array of tiles; a
/// delta frame without tiles becomes none.
pub fn emit_frame(frame: FrameData) -> (event: Option<UiEvent>)
    requires
        frame_encodable(frame@),
    ensures
        ui_view(event) == frame_event(frame@),
        frame.is_keyframe ==> {
            &&& event matches Some(UiEvent::FrameKeyframe { width, height, data })
            &&& width == frame.width
            &&& height == frame.height
            &&& encoding::decoded(data@) == frame.jpeg_data@
        },
        !frame.is_keyframe && frame.tiles@.len() == 0 ==> event is None,
        !frame.is_keyframe && frame.tiles@.len() > 0 ==> {
            &&& event matches Some(UiEvent::FrameDelta { width, height, tiles })
            &&& width == frame.width
            &&& height == frame.height
            &&& tiles@.len() == frame.tiles@.len()
            &&& forall|i: int|
                #![trigger tiles@[i]]
                #![trigger frame.tiles@[i]]
                0 <= i < tiles@.len() ==> {
                    &&& tiles@[i].x == frame.tiles@[i].x
                    &&& tiles@[i].y == frame.tiles@[i].y
                    &&& tiles@[i].w == frame.tiles@[i].tile_width
                    &&& tiles@[i].h == frame.tiles@[i].tile_height
                    &&& encoding::decoded(tiles@[i].data@) == frame.tiles@[i].jpeg_data@
                }
        },
{
    proof {
        encoding::law_base64_decodes(frame.jpeg_data@);
    }
    if frame.is_keyframe {
        return Some(
            UiEvent::FrameKeyframe {
                width: frame.width,
                height: frame.height,
                data: encoding::encode_standard(frame.jpeg_data.as_slice()),
            },
        );
    }
    let mut tiles: Vec<TileEvent> = Vec::new();
    let mut i: usize = 0;
    while i < frame.tiles.len()
        invariant
            i <= frame.tiles@.len(),
            tiles@.len() == i,
            !frame.is_keyframe,
            frame_encodable(frame@),
            forall|j: int| 0 <= j < i ==> (#[trigger] tiles@[j])@ == tile_event(frame.tiles@[j]),
            forall|j: int|
                #![trigger tiles@[j]]
                #![trigger frame.tiles@[j]]
                0 <= j < i ==> {
                    &&& tiles@[j].x == frame.tiles@[j].x
                    &&& tiles@[j].y == frame.tiles@[j].y
                    &&& tiles@[j].w == frame.tiles@[j].tile_width
                    &&& tiles@[j].h == frame.tiles@[j].tile_height
                    &&& encoding::decoded(tiles@[j].data@) == frame.tiles@[j].jpeg_data@
                },
        decreases frame.tiles@.len() - i,
    {
        let t = &frame.tiles[i];
        proof {
            encoding::law_base64_decodes(t.jpeg_data@);
        }
        assert(encoding::base64_len(frame@.tiles[i as int].jpeg_data@.len()) <= isize::MAX);
        tiles.push(
            TileEvent {
                x: t.x,
                y: t.y,
                w: t.tile_width,
                h: t.tile_height,
                data: encoding::encode_standard(t.jpeg_data.as_slice()),
            },
        );
        i = i + 1;
    }
    if tiles.len() == 0 {
        return None;
    }
    assert(tiles@.map_values(|t: TileEvent| t@) =~= frame@.tiles.map_values(
        |t: TileUpdate| tile_event(t),
    ));
    Some(UiEvent::FrameDelta { width: frame.width, height: frame.height, tiles })
}

/// A keyframe is shown at its own size, with its whole picture: the text that the
/// renderer gets decodes to the bytes of the frame.
pub proof fn law_keyframe_is_shown_whole(frame: FrameData)
    requires
        frame.is_keyframe,
    ensures
        frame_event(frame@) matches Some(UiEventView::FrameKeyframe { width, height, data }) && {
            &&& width == frame.width
            &&& height == frame.height
            &&& encoding::decoded(data) == frame.jpeg_data@
        },
{
    encoding::law_base64_decodes(frame.jpeg_data@);
}

/// A delta frame is shown tile by tile, in order, each at its own place and size
/// and with its whole picture. One without tiles is not shown.
pub proof fn law_delta_is_shown_tile_by_tile(frame: FrameData, i: int)
    requires
        !frame.is_keyframe,
        0 <= i < frame.tiles@.len(),
    ensures
        frame_event(frame@) matches Some(UiEventView::FrameDelta { width, height, tiles }) && {
            &&& width == frame.width
            &&& height == frame.height
            &&& tiles.len() == frame.tiles@.len()
            &&& tiles[i].x == frame.tiles@[i].x
            &&& tiles[i].y == frame.tiles@[i].y
            &&& tiles[i].w == frame.tiles@[i].tile_width
            &&& tiles[i].h == frame.tiles@[i].tile_height
            &&& encoding::decoded(tiles[i].data) == frame.tiles@[i].jpeg_data@
        },
{
    encoding::law_base64_decodes(frame.tiles@[i].jpeg_data@);
}

/// A delta frame is shown if and only if it has tiles; a keyframe always is.
pub proof fn law_only_empty_deltas_are_not_shown(frame: FrameData)
    ensures
        frame_event(frame@) is None <==> !frame.is_keyframe && frame.tiles@.len() == 0,
{
}

/// A host's first message.
pub fn announce(device_id: &str, password: &str) -> (message: HostMessage)
    ensures
        message.payload matches Some(HostPayload::Announce(a)) && a.device_id@ == device_id@
            && a.password@ == password@,
{
    HostMessage {
        payload: Some(
            HostPayload::Announce(
                HostAnnounce { device_id: device_id.to_owned(), password: password.to_owned() },
            ),
        ),
    }
}

/// A captured frame on its way to the server.
pub fn frame_message(frame: FrameData) -> (message: HostMessage)
    ensures
        message.payload == Some(HostPayload::Frame(frame)),
{
    HostMessage { payload: Some(HostPayload::Frame(frame)) }
}

/// A client's first message.
pub fn join(device_id: &str, password: &str) -> (message: ClientMessage)
    ensures
        message.payload matches Some(ClientPayload::Join(j)) && j.device_id@ == device_id@
            && j.password@ == password@,
{
    ClientMessage {
        payload: Some(
            ClientPayload::Join(
                ClientJoin { device_id: device_id.to_owned(), password: password.to_owned() },
            ),
        ),
    }
}

/// An input event on its way to the server.
pub fn input_message(event: InputEvent) -> (message: ClientMessage)
    ensures
        message.payload == Some(ClientPayload::Input(event)),
{
    ClientMessage { payload: Some(ClientPayload::Input(event)) }
}

/// What became of a frame that the capture thread handed on.
#[derive(Clone, Copy, Debug, PartialEq, Eq, Structural)]
pub enum Handoff {
    /// It is on its way.
    Taken,
    /// The network is the bottleneck; the frame was dropped.
    Full,
    /// Nobody takes frames any more.
    Closed,
}

/// Whether capturing goes on: only the end of the session ends it. Where the
/// network is slow, new frames are dropped and nothing queues up; the tiles of a
/// dropped delta frame come again when they change or with the next keyframe.
/// `handoff` is missing where there was no frame to hand on.
pub fn keep_capturing(handoff: Option<Handoff>) -> (yes: bool)
    ensures
        yes == (handoff != Some(Handoff::Closed)),
{
    match handoff {
        Some(Handoff::Closed) => false,
        _ => true,
    }
}

/// How a session went, if it is known.
pub open spec fn outcome_view(outcome: Option<Result<(), String>>) -> Option<
    Result<(), Seq<char>>,
> {
    match outcome {
        Some(Ok(())) => Some(Ok(())),
        Some(Err(reason)) => Some(Err(reason@)),
        None => None,
    }
}

/// How far a host's session has come.
#[derive(Clone, Copy, Debug, PartialEq, Eq, Structural)]
pub enum HostStage {
    /// Connecting to the server.
    Connecting,
    /// Opening the stream; the announcement is on its way.
    Opening,
    /// Frames go out, and the server's messages come in.
    Relaying,
    /// The session is over.
    Over,
}

/// A host's session: the device that it serves, and how far it has come.
pub struct HostRun {
    pub device_id: String,
    pub password: String,
    pub stage: HostStage,
}

pub struct HostRunView {
    pub device_id: Seq<char>,
    pub password: Seq<char>,
    pub stage: HostStage,
}

impl View for HostRun {
    type V = HostRunView;

    open spec fn view(&self) -> HostRunView {
        HostRunView { device_id: self.device_id@, password: self.password@, stage: self.stage }
    }
}

/// What happens to a host's session.
pub enum HostEvent {
    /// The server was reached.
    Connected,
    /// The stream is open.
    Opened,
    /// The user stopped the session.
    Stopped,
    /// The server sent a message.
    Message(ServerToHost),
    /// The server closed the stream.
    Ended,
    /// Connecting failed or the stream broke, for the given reason.
    Failed(String),
}

/// What a host does about an event.
pub struct HostReaction {
    /// Send this message to the server.
    pub send: Option<HostMessage>,
    /// Start capturing the screen.
    pub start_capture: bool,
    /// Have the next captured frame be a keyframe.
    pub force_keyframe: bool,
    /// Inject this input event.
    pub inject: Option<InputEvent>,
    /// Tell the user interface.
    pub emit: Option<UiEvent>,
    /// The session is over, with this result.
    pub outcome: Option<Result<(), String>>,
}

/// A device ID and a password.
pub type Credentials = (Seq<char>, Seq<char>);

pub struct HostReactionView {
    pub send: Option<Option<Credentials>>,
    pub start_capture: bool,
    pub force_keyframe: bool,
    pub inject: Option<InputEvent>,
    pub emit: Option<UiEventView>,
    pub outcome: Option<Result<(), Seq<char>>>,
}

/// What a message announces, if anything.
pub open spec fn announced(message: HostMessage) -> Option<Credentials> {
    match message.payload {
        Some(HostPayload::Announce(a)) => Some((a.device_id@, a.password@)),
        _ => None,
    }
}

impl View for HostReaction {
    type V = HostReactionView;

    open spec fn view(&self) -> HostReactionView {
        HostReactionView {
            send: match self.send {
                Some(m) => Some(announced(m)),
                None => None,
            },
            start_capture: self.start_capture,
            force_keyframe: self.force_keyframe,
            inject: self.inject,
            emit: ui_view(self.emit),
            outcome: outcome_view(self.outcome),
        }
    }
}

/// Nothing to do.
pub open spec fn host_idle() -> HostReactionView {
    HostReactionView {
        send: None,
        start_capture: false,
        force_keyframe: false,
        inject: None,
        emit: None,
        outcome: None,
    }
}

/// What a host does about a message of the server: a new client gets a keyframe
/// at once, input is injected, clipboard text and the peer's coming and going
/// are shown, and an error ends the session.
pub open spec fn host_message_reaction(message: ServerToHost) -> HostReactionView {
    match message.payload {
        Some(HostboundPayload::ClientJoined(_)) => HostReactionView {
            force_keyframe: true,
            emit: Some(UiEventView::PeerConnected),
            ..host_idle()
        },
        Some(HostboundPayload::ClientLeft(_)) => HostReactionView {
            emit: Some(UiEventView::PeerDisconnected),
            ..host_idle()
        },
        Some(HostboundPayload::Input(input)) => HostReactionView {
            inject: Some(input),
            ..host_idle()
        },
        Some(HostboundPayload::Clipboard(clip)) => HostReactionView {
            emit: Some(UiEventView::ClipboardSync(clip.text@)),
            ..host_idle()
        },
        Some(HostboundPayload::Error(e)) => HostReactionView {
            emit: Some(UiEventView::ConnectionError(e.message@)),
            outcome: Some(Ok(())),
            ..host_idle()
        },
        _ => host_idle(),
    }
}

/// What a host does about an event. The announcement goes out as soon as the
/// server is reached, and capturing starts once the stream is open. A session
/// that never got there fails; one that did ends well, even if the stream
/// breaks: the user interface is told why.
pub open spec fn host_reaction(run: HostRunView, event: HostEvent) -> HostReactionView {
    match (run.stage, event) {
        (HostStage::Connecting, HostEvent::Connected) => HostReactionView {
            send: Some(Some((run.device_id, run.password))),
            ..host_idle()
        },
        (HostStage::Opening, HostEvent::Opened) => HostReactionView {
            start_capture: true,
            ..host_idle()
        },
        (HostStage::Connecting | HostStage::Opening, HostEvent::Failed(reason)) => {
            HostReactionView { outcome: Some(Err(reason@)), ..host_idle() }
        },
        (HostStage::Relaying, HostEvent::Message(m)) => host_message_reaction(m),
        (HostStage::Relaying, HostEvent::Stopped) => HostReactionView {
            outcome: Some(Ok(())),
            ..host_idle()
        },
        (HostStage::Relaying, HostEvent::Ended) => HostReactionView {
            outcome: Some(Ok(())),
            ..host_idle()
        },
        (HostStage::Relaying, HostEvent::Failed(reason)) => HostReactionView {
            emit: Some(UiEventView::ConnectionError(reason@)),
            outcome: Some(Ok(())),
            ..host_idle()
        },
        _ => host_idle(),
    }
}

/// How far a host's session has come after an event.
pub open spec fn host_stage_after(run: HostRunView, event: HostEvent) -> HostStage {
    if host_reaction(run, event).outcome is Some {
        HostStage::Over
    } else {
        match (run.stage, event) {
            (HostStage::Connecting, HostEvent::Connected) => HostStage::Opening,
            (HostStage::Opening, HostEvent::Opened) => HostStage::Relaying,
            _ => run.stage,
        }
    }
}

/// What a host does about a message of the server.
fn react_to_server(message: ServerToHost) -> (reaction: HostReaction)
    ensures
        reaction@ == host_message_reaction(message),
        reaction.send is None,
        !reaction.start_capture,
        reaction.inject == match message.payload {
            Some(HostboundPayload::Input(input)) => Some(input),
            _ => None,
        },
        reaction.force_keyframe == match message.payload {
            Some(HostboundPayload::ClientJoined(_)) => true,
            _ => false,
        },
        reaction.emit == match message.payload {
            Some(HostboundPayload::ClientJoined(_)) => Some(UiEvent::PeerConnected),
            Some(HostboundPayload::ClientLeft(_)) => Some(UiEvent::PeerDisconnected),
            Some(HostboundPayload::Clipboard(clip)) => Some(UiEvent::ClipboardSync(clip.text)),
            Some(HostboundPayload::Error(e)) => Some(UiEvent::ConnectionError(e.message)),
            _ => None,
        },
        match message.payload {
            Some(HostboundPayload::Error(_)) => reaction.outcome == Some(Ok::<(), String>(())),
            _ => reaction.outcome is None,
        },
{
    let mut force_keyframe = false;
    let mut inject: Option<InputEvent> = None;
    let mut emit: Option<UiEvent> = None;
    let mut outcome: Option<Result<(), String>> = None;
    match message.payload {
        Some(HostboundPayload::ClientJoined(_)) => {
            force_keyframe = true;
            emit = Some(UiEvent::PeerConnected);
        },
        Some(HostboundPayload::ClientLeft(_)) => {
            emit = Some(UiEvent::PeerDisconnected);
        },
        Some(HostboundPayload::Input(input)) => {
            inject = Some(input);
        },
        Some(HostboundPayload::Clipboard(clip)) => {
            emit = Some(UiEvent::ClipboardSync(clip.text));
        },
        Some(HostboundPayload::Error(e)) => {
            emit = Some(UiEvent::ConnectionError(e.message));
            outcome = Some(Ok(()));
        },
        _ => {},
    }
    HostReaction { send: None, start_capture: false, force_keyframe, inject, emit, outcome }
}

/// One step of a host's session: what to do about an event.
pub fn run_host_session(run: &mut HostRun, event: HostEvent) -> (reaction: HostReaction)
    ensures
        reaction@ == host_reaction(old(run)@, event),
        final(run)@ == (HostRunView { stage: host_stage_after(old(run)@, event), ..old(run)@ }),
        final(run).device_id == old(run).device_id,
        final(run).password == old(run).password,
        reaction.send is Some <==> old(run).stage is Connecting && event is Connected,
        reaction.send matches Some(m) ==> (m.payload matches Some(HostPayload::Announce(a))
            && a.device_id@ == old(run).device_id@ && a.password@ == old(run).password@),
        reaction.start_capture <==> old(run).stage is Opening && event is Opened,
        reaction.inject == match (old(run).stage, event) {
            (HostStage::Relaying, HostEvent::Message(m)) => match m.payload {
                Some(HostboundPayload::Input(input)) => Some(input),
                _ => None,
            },
            _ => None,
        },
        reaction.force_keyframe == match (old(run).stage, event) {
            (HostStage::Relaying, HostEvent::Message(m)) => match m.payload {
                Some(HostboundPayload::ClientJoined(_)) => true,
                _ => false,
            },
            _ => false,
        },
        reaction.emit == match (old(run).stage, event) {
            (HostStage::Relaying, HostEvent::Message(m)) => match m.payload {
                Some(HostboundPayload::ClientJoined(_)) => Some(UiEvent::PeerConnected),
                Some(HostboundPayload::ClientLeft(_)) => Some(UiEvent::PeerDisconnected),
                Some(HostboundPayload::Clipboard(clip)) => Some(UiEvent::ClipboardSync(clip.text)),
                Some(HostboundPayload::Error(e)) => Some(UiEvent::ConnectionError(e.message)),
                _ => None,
            },
            (HostStage::Relaying, HostEvent::Failed(reason)) => Some(
                UiEvent::ConnectionError(reason),
            ),
            _ => None,
        },
        reaction.outcome == match (old(run).stage, event) {
            (HostStage::Connecting, HostEvent::Failed(reason)) => Some(Err(reason)),
            (HostStage::Opening, HostEvent::Failed(reason)) => Some(Err(reason)),
            (HostStage::Relaying, HostEvent::Failed(_)) => Some(Ok(())),
            (HostStage::Relaying, HostEvent::Stopped) => Some(Ok(())),
            (HostStage::Relaying, HostEvent::Ended) => Some(Ok(())),
            (HostStage::Relaying, HostEvent::Message(m)) => match m.payload {
                Some(HostboundPayload::Error(_)) => Some(Ok(())),
                _ => None,
            },
            _ => None,
        },
        final(run).stage == match (old(run).stage, event) {
            (HostStage::Connecting, HostEvent::Connected) => HostStage::Opening,
            (HostStage::Opening, HostEvent::Opened) => HostStage::Relaying,
            _ => if reaction.outcome is Some {
                HostStage::Over
            } else {
                old(run).stage
            },
        },
{
    let mut reaction = HostReaction {
        send: None,
        start_capture: false,
        force_keyframe: false,
        inject: None,
        emit: None,
        outcome: None,
    };
    match (run.stage, event) {
        (HostStage::Connecting, HostEvent::Connected) => {
            run.stage = HostStage::Opening;
            reaction.send = Some(announce(run.device_id.as_str(), run.password.as_str()));
        },
        (HostStage::Opening, HostEvent::Opened) => {
            run.stage = HostStage::Relaying;
            reaction.start_capture = true;
        },
        (HostStage::Connecting | HostStage::Opening, HostEvent::Failed(reason)) => {
            reaction.outcome = Some(Err(reason));
        },
        (HostStage::Relaying, HostEvent::Message(m)) => {
            reaction = react_to_server(m);
        },
        (HostStage::Relaying, HostEvent::Stopped) => {
            reaction.outcome = Some(Ok(()));
        },
        (HostStage::Relaying, HostEvent::Ended) => {
            reaction.outcome = Some(Ok(()));
        },
        (HostStage::Relaying, HostEvent::Failed(reason)) => {
            reaction.emit = Some(UiEvent::ConnectionError(reason));
            reaction.outcome = Some(Ok(()));
        },
        _ => {},
    }
    if reaction.outcome.is_some() {
        run.stage = HostStage::Over;
    }
    reaction
}

/// The first thing that a client's stream brings.
pub enum JoinReply {
    /// The server sent a message.
    Message(ServerToClient),
    /// The server closed the stream.
    Ended,
    /// The stream broke, for the given reason.
    Failed(String),
}

/// Why joining failed, if it did.
pub open spec fn join_failure(reply: JoinReply) -> Option<Seq<char>> {
    match reply {
        JoinReply::Message(m) => match m.payload {
            Some(ClientboundPayload::JoinResult(r)) => if r.ok {
                None
            } else {
                Some("join rejected: "@ + r.error@)
            },
            Some(_) => Some("unexpected first message: Some(\"non-join-result\")"@),
            None => Some("unexpected first message: None"@),
        },
        JoinReply::Ended => Some("server closed stream before join result"@),
        JoinReply::Failed(reason) => Some(reason@),
    }
}

/// Whether the client is in, judged by the first thing its stream brings.
pub fn join_outcome(reply: JoinReply) -> (outcome: Result<(), String>)
    ensures
        match outcome {
            Ok(()) => join_failure(reply) is None,
            Err(reason) => join_failure(reply) == Some(reason@),
        },
        match reply {
            JoinReply::Message(m) => match m.payload {
                Some(ClientboundPayload::JoinResult(r)) => {
                    &&& outcome is Ok <==> r.ok
                    &&& outcome matches Err(reason) ==> reason@ == "join rejected: "@ + r.error@
                },
                Some(_) => outcome matches Err(reason) && reason@
                    == "unexpected first message: Some(\"non-join-result\")"@,
                None => outcome matches Err(reason) && reason@ == "unexpected first message: None"@,
            },
            JoinReply::Ended => outcome matches Err(reason) && reason@
                == "server closed stream before join result"@,
            JoinReply::Failed(reason) => outcome == Err::<(), String>(reason),
        },
{
    match reply {
        JoinReply::Message(m) => match m.payload {
            Some(ClientboundPayload::JoinResult(r)) => {
                if r.ok {
                    Ok(())
                } else {
                    Err("join rejected: ".to_owned().concat(r.error.as_str()))
                }
            },
            Some(_) => Err("unexpected first message: Some(\"non-join-result\")".to_owned()),
            None => Err("unexpected first message: None".to_owned()),
        },
        JoinReply::Ended => Err("server closed stream before join result".to_owned()),
        JoinReply::Failed(reason) => Err(reason),
    }
}

/// How far a client's session has come.
#[derive(Clone, Copy, Debug, PartialEq, Eq, Structural)]
pub enum ClientStage {
    /// Connecting to the server.
    Connecting,
    /// Opening the stream; the request to join is on its way.
    Opening,
    /// Waiting for the answer.
    Joining,
    /// The client is in; frames come in.
    Receiving,
    /// The session is over.
    Over,
}

/// A client's session: the device that it asks for, and how far it has come.
pub struct ClientRun {
    pub target_id: String,
    pub password: String,
    pub stage: ClientStage,
}

pub struct ClientRunView {
    pub target_id: Seq<char>,
    pub password: Seq<char>,
    pub stage: ClientStage,
}

impl View for ClientRun {
    type V = ClientRunView;

    open spec fn view(&self) -> ClientRunView {
        ClientRunView { target_id: self.target_id@, password: self.password@, stage: self.stage }
    }
}

/// What happens to a client's session.
pub enum ClientEvent {
    /// The server was reached.
    Connected,
    /// The stream is open.
    Opened,
    /// The user stopped the session.
    Stopped,
    /// The server sent a message.
    Message(ServerToClient),
    /// The server closed the stream.
    Ended,
    /// Connecting failed or the stream broke, for the given reason.
    Failed(String),
}

/// What a client does about an event.
pub struct ClientReaction {
    /// Send this message to the server.
    pub send: Option<ClientMessage>,
    /// Tell the one who waits for it how joining went.
    pub signal: Option<Result<(), String>>,
    /// Tell the user interface.
    pub emit: Option<UiEvent>,
    /// The session is over, with this result.
    pub outcome: Option<Result<(), String>>,
}

pub struct ClientReactionView {
    pub send: Option<Option<Credentials>>,
    pub signal: Option<Result<(), Seq<char>>>,
    pub emit: Option<UiEventView>,
    pub outcome: Option<Result<(), Seq<char>>>,
}

/// What a message asks to join, if anything.
pub open spec fn requested(message: ClientMessage) -> Option<Credentials> {
    match message.payload {
        Some(ClientPayload::Join(j)) => Some((j.device_id@, j.password@)),
        _ => None,
    }
}

impl View for ClientReaction {
    type V = ClientReactionView;

    open spec fn view(&self) -> ClientReactionView {
        ClientReactionView {
            send: match self.send {
                Some(m) => Some(requested(m)),
                None => None,
            },
            signal: outcome_view(self.signal),
            emit: ui_view(self.emit),
            outcome: outcome_view(self.outcome),
        }
    }
}

/// Nothing to do.
pub open spec fn client_idle() -> ClientReactionView {
    ClientReactionView { send: None, signal: None, emit: None, outcome: None }
}

/// The client got nowhere: whoever waits for it is told why, and so is the one
/// who started the session.
pub open spec fn client_failed(reason: Seq<char>) -> ClientReactionView {
    ClientReactionView {
        signal: Some(Err(reason)),
        outcome: Some(Err(reason)),
        ..client_idle()
    }
}

/// What a client does about the answer to its request.
pub open spec fn join_reaction(reply: JoinReply) -> ClientReactionView {
    match join_failure(reply) {
        Some(reason) => client_failed(reason),
        None => ClientReactionView { signal: Some(Ok(())), ..client_idle() },
    }
}

/// What a client that is in does about a message of the server: frames and
/// clipboard text are shown, and the host's leaving or an error ends the
/// session.
pub open spec fn client_message_reaction(message: ServerToClient) -> ClientReactionView {
    match message.payload {
        Some(ClientboundPayload::Frame(frame)) => ClientReactionView {
            emit: frame_event(frame@),
            ..client_idle()
        },
        Some(ClientboundPayload::HostLeft) => ClientReactionView {
            emit: Some(UiEventView::PeerDisconnected),
            outcome: Some(Ok(())),
            ..client_idle()
        },
        Some(ClientboundPayload::Clipboard(clip)) => ClientReactionView {
            emit: Some(UiEventView::ClipboardSync(clip.text@)),
            ..client_idle()
        },
        Some(ClientboundPayload::Error(e)) => ClientReactionView {
            emit: Some(UiEventView::ConnectionError(e.message@)),
            outcome: Some(Ok(())),
            ..client_idle()
        },
        _ => client_idle(),
    }
}

/// What a client does about an event. The request to join goes out as soon as
/// the server is reached; the first thing the stream brings decides whether the
/// client is in; from then on frames are shown until the session ends.
pub open spec fn client_reaction(run: ClientRunView, event: ClientEvent) -> ClientReactionView {
    match (run.stage, event) {
        (ClientStage::Connecting, ClientEvent::Connected) => ClientReactionView {
            send: Some(Some((run.target_id, run.password))),
            ..client_idle()
        },
        (ClientStage::Connecting | ClientStage::Opening, ClientEvent::Failed(reason)) => {
            client_failed(reason@)
        },
        (ClientStage::Joining, ClientEvent::Message(m)) => join_reaction(JoinReply::Message(m)),
        (ClientStage::Joining, ClientEvent::Ended) => join_reaction(JoinReply::Ended),
        (ClientStage::Joining, ClientEvent::Failed(reason)) => join_reaction(
            JoinReply::Failed(reason),
        ),
        (ClientStage::Receiving, ClientEvent::Message(m)) => client_message_reaction(m),
        (ClientStage::Receiving, ClientEvent::Stopped) => ClientReactionView {
            outcome: Some(Ok(())),
            ..client_idle()
        },
        (ClientStage::Receiving, ClientEvent::Ended) => ClientReactionView {
            emit: Some(UiEventView::PeerDisconnected),
            outcome: Some(Ok(())),
            ..client_idle()
        },
        (ClientStage::Receiving, ClientEvent::Failed(reason)) => ClientReactionView {
            emit: Some(UiEventView::ConnectionError(reason@)),
            outcome: Some(Ok(())),
            ..client_idle()
        },
        _ => client_idle(),
    }
}

/// How far a client's session has come after an event.
pub open spec fn client_stage_after(run: ClientRunView, event: ClientEvent) -> ClientStage {
    if client_reaction(run, event).outcome is Some {
        ClientStage::Over
    } else if client_reaction(run, event).signal is Some {
        ClientStage::Receiving
    } else {
        match (run.stage, event) {
            (ClientStage::Connecting, ClientEvent::Connected) => ClientStage::Opening,
            (ClientStage::Opening, ClientEvent::Opened) => ClientStage::Joining,
            _ => run.stage,
        }
    }
}

/// A frame among the events is one that can be shown.
pub open spec fn event_showable(event: ClientEvent) -> bool {
    event matches ClientEvent::Message(m) ==> (m.payload matches Some(
        ClientboundPayload::Frame(frame),
    ) ==> frame_encodable(frame@))
}

/// Only a frame that is too large can fail to be shown; every other event is
/// fine.
pub proof fn law_only_frames_can_be_too_large(event: ClientEvent)
    ensures
        !event_showable(event) ==> {
            &&& event matches ClientEvent::Message(m)
            &&& m.payload matches Some(ClientboundPayload::Frame(frame))
            &&& !frame_encodable(frame@)
        },
{
}

/// What the renderer is told shows the frame: a keyframe at its own size with its
/// whole picture, a delta frame with every tile in its place, and nothing for a
/// delta frame without tiles.
pub open spec fn shows(event: Option<UiEvent>, frame: FrameData) -> bool {
    if frame.is_keyframe {
        &&& event matches Some(UiEvent::FrameKeyframe { width, height, data })
        &&& width == frame.width
        &&& height == frame.height
        &&& encoding::decoded(data@) == frame.jpeg_data@
    } else if frame.tiles@.len() == 0 {
        event is None
    } else {
        &&& event matches Some(UiEvent::FrameDelta { width, height, tiles })
        &&& width == frame.width
        &&& height == frame.height
        &&& tiles@.len() == frame.tiles@.len()
        &&& forall|i: int|
            #![trigger tiles@[i]]
            #![trigger frame.tiles@[i]]
            0 <= i < tiles@.len() ==> {
                &&& tiles@[i].x == frame.tiles@[i].x
                &&& tiles@[i].y == frame.tiles@[i].y
                &&& tiles@[i].w == frame.tiles@[i].tile_width
                &&& tiles@[i].h == frame.tiles@[i].tile_height
                &&& encoding::decoded(tiles@[i].data@) == frame.tiles@[i].jpeg_data@
            }
    }
}

/// A reaction without a message to the server.
fn client_reacts(
    signal: Option<Result<(), String>>,
    emit: Option<UiEvent>,
    outcome: Option<Result<(), String>>,
) -> (reaction: ClientReaction)
    ensures
        reaction@ == (ClientReactionView {
            send: None,
            signal: outcome_view(signal),
            emit: ui_view(emit),
            outcome: outcome_view(outcome),
        }),
        reaction == (ClientReaction { send: None, signal, emit, outcome }),
{
    ClientReaction { send: None, signal, emit, outcome }
}

/// What a client does about the answer to its request.
fn react_to_reply(reply: JoinReply) -> (reaction: ClientReaction)
    ensures
        reaction@ == join_reaction(reply),
        reaction.send is None,
        reaction.emit is None,
        reaction.signal is Some,
        match reply {
            JoinReply::Message(m) => match m.payload {
                Some(ClientboundPayload::JoinResult(r)) => {
                    &&& r.ok ==> reaction.signal == Some(Ok::<(), String>(()))
                    &&& !r.ok ==> (reaction.signal matches Some(Err(reason)) && reason@
                        == "join rejected: "@ + r.error@)
                },
                Some(_) => reaction.signal matches Some(Err(reason)) && reason@
                    == "unexpected first message: Some(\"non-join-result\")"@,
                None => reaction.signal matches Some(Err(reason)) && reason@
                    == "unexpected first message: None"@,
            },
            JoinReply::Ended => reaction.signal matches Some(Err(reason)) && reason@
                == "server closed stream before join result"@,
            JoinReply::Failed(reason) => reaction.signal == Some(Err::<(), String>(reason)),
        },
        reaction.signal matches Some(Ok(())) ==> reaction.outcome is None,
        reaction.signal matches Some(Err(_)) ==> reaction.outcome == reaction.signal,
{
    match join_outcome(reply) {
        Ok(()) => client_reacts(Some(Ok(())), None, None),
        Err(reason) => client_reacts(Some(Err(reason.clone())), None, Some(Err(reason))),
    }
}

/// What a client that is in does about a message of the server.
fn react_to_stream(message: ServerToClient) -> (reaction: ClientReaction)
    requires
        event_showable(ClientEvent::Message(message)),
    ensures
        reaction@ == client_message_reaction(message),
        reaction.send is None,
        reaction.signal is None,
        match message.payload {
            Some(ClientboundPayload::Frame(frame)) => ui_view(reaction.emit) == frame_event(frame@)
                && reaction.outcome is None,
            Some(ClientboundPayload::HostLeft) => reaction.emit == Some(UiEvent::PeerDisconnected)
                && reaction.outcome == Some(Ok::<(), String>(())),
            Some(ClientboundPayload::Clipboard(clip)) => reaction.emit == Some(
                UiEvent::ClipboardSync(clip.text),
            ) && reaction.outcome is None,
            Some(ClientboundPayload::Error(e)) => reaction.emit == Some(
                UiEvent::ConnectionError(e.message),
            ) && reaction.outcome == Some(Ok::<(), String>(())),
            _ => reaction.emit is None && reaction.outcome is None,
        },
        message.payload matches Some(ClientboundPayload::Frame(frame)) ==> shows(
            reaction.emit,
            frame,
        ),
{
    match message.payload {
        Some(ClientboundPayload::Frame(frame)) => client_reacts(None, emit_frame(frame), None),
        Some(ClientboundPayload::HostLeft) => client_reacts(
            None,
            Some(UiEvent::PeerDisconnected),
            Some(Ok(())),
        ),
        Some(ClientboundPayload::Clipboard(clip)) => client_reacts(
            None,
            Some(UiEvent::ClipboardSync(clip.text)),
            None,
        ),
        Some(ClientboundPayload::Error(e)) => client_reacts(
            None,
            Some(UiEvent::ConnectionError(e.message)),
            Some(Ok(())),
        ),
        _ => client_reacts(None, None, None),
    }
}

/// One step of a client's session: what to do about an event.
pub fn run_client_session(run: &mut ClientRun, event: ClientEvent) -> (reaction: ClientReaction)
    requires
        event_showable(event),
    ensures
        reaction@ == client_reaction(old(run)@, event),
        final(run)@ == (ClientRunView { stage: client_stage_after(old(run)@, event), ..old(run)@ }),
        final(run).target_id == old(run).target_id,
        final(run).password == old(run).password,
        reaction.send is Some <==> old(run).stage is Connecting && event is Connected,
        reaction.send matches Some(m) ==> (m.payload matches Some(ClientPayload::Join(j))
            && j.device_id@ == old(run).target_id@ && j.password@ == old(run).password@),
        match (old(run).stage, event) {
            (ClientStage::Connecting, ClientEvent::Failed(reason)) => reaction.signal == Some(
                Err::<(), String>(reason),
            ),
            (ClientStage::Opening, ClientEvent::Failed(reason)) => reaction.signal == Some(
                Err::<(), String>(reason),
            ),
            (ClientStage::Joining, ClientEvent::Failed(reason)) => reaction.signal == Some(
                Err::<(), String>(reason),
            ),
            (ClientStage::Joining, ClientEvent::Ended) => reaction.signal matches Some(Err(reason))
                && reason@ == "server closed stream before join result"@,
            (ClientStage::Joining, ClientEvent::Message(m)) => match m.payload {
                Some(ClientboundPayload::JoinResult(r)) => {
                    &&& r.ok ==> reaction.signal == Some(Ok::<(), String>(()))
                    &&& !r.ok ==> (reaction.signal matches Some(Err(reason)) && reason@
                        == "join rejected: "@ + r.error@)
                },
                Some(_) => reaction.signal matches Some(Err(reason)) && reason@
                    == "unexpected first message: Some(\"non-join-result\")"@,
                None => reaction.signal matches Some(Err(reason)) && reason@
                    == "unexpected first message: None"@,
            },
            _ => reaction.signal is None,
        },
        match (old(run).stage, event) {
            (ClientStage::Receiving, ClientEvent::Message(m)) => match m.payload {
                Some(ClientboundPayload::Frame(frame)) => shows(reaction.emit, frame),
                Some(ClientboundPayload::HostLeft) => reaction.emit == Some(
                    UiEvent::PeerDisconnected,
                ),
                Some(ClientboundPayload::Clipboard(clip)) => reaction.emit == Some(
                    UiEvent::ClipboardSync(clip.text),
                ),
                Some(ClientboundPayload::Error(e)) => reaction.emit == Some(
                    UiEvent::ConnectionError(e.message),
                ),
                _ => reaction.emit is None,
            },
            (ClientStage::Receiving, ClientEvent::Ended) => reaction.emit == Some(
                UiEvent::PeerDisconnected,
            ),
            (ClientStage::Receiving, ClientEvent::Failed(reason)) => reaction.emit == Some(
                UiEvent::ConnectionError(reason),
            ),
            _ => reaction.emit is None,
        },
        match (old(run).stage, event) {
            (ClientStage::Receiving, ClientEvent::Message(m)) => match m.payload {
                Some(ClientboundPayload::HostLeft) => reaction.outcome == Some(
                    Ok::<(), String>(()),
                ),
                Some(ClientboundPayload::Error(_)) => reaction.outcome == Some(
                    Ok::<(), String>(()),
                ),
                _ => reaction.outcome is None,
            },
            (ClientStage::Receiving, ClientEvent::Connected) => reaction.outcome is None,
            (ClientStage::Receiving, ClientEvent::Opened) => reaction.outcome is None,
            (ClientStage::Receiving, _) => reaction.outcome == Some(Ok::<(), String>(())),
            (ClientStage::Over, _) => reaction.outcome is None,
            _ => match reaction.signal {
                Some(Err(reason)) => reaction.outcome == Some(Err::<(), String>(reason)),
                _ => reaction.outcome is None,
            },
        },
        final(run).stage == match (old(run).stage, event) {
            (ClientStage::Connecting, ClientEvent::Connected) => ClientStage::Opening,
            (ClientStage::Opening, ClientEvent::Opened) => ClientStage::Joining,
            _ => if reaction.outcome is Some {
                ClientStage::Over
            } else if reaction.signal is Some {
                ClientStage::Receiving
            } else {
                old(run).stage
            },
        },
{
    let reaction = match (run.stage, event) {
        (ClientStage::Connecting, ClientEvent::Connected) => {
            run.stage = ClientStage::Opening;
            ClientReaction {
                send: Some(join(run.target_id.as_str(), run.password.as_str())),
                signal: None,
                emit: None,
                outcome: None,
            }
        },
        (ClientStage::Opening, ClientEvent::Opened) => {
            run.stage = ClientStage::Joining;
            client_reacts(None, None, None)
        },
        (ClientStage::Connecting | ClientStage::Opening, ClientEvent::Failed(reason)) => {
            client_reacts(Some(Err(reason.clone())), None, Some(Err(reason)))
        },
        (ClientStage::Joining, ClientEvent::Message(m)) => react_to_reply(JoinReply::Message(m)),
        (ClientStage::Joining, ClientEvent::Ended) => react_to_reply(JoinReply::Ended),
        (ClientStage::Joining, ClientEvent::Failed(reason)) => react_to_reply(
            JoinReply::Failed(reason),
        ),
        (ClientStage::Receiving, ClientEvent::Message(m)) => react_to_stream(m),
        (ClientStage::Receiving, ClientEvent::Stopped) => client_reacts(None, None, Some(Ok(()))),
        (ClientStage::Receiving, ClientEvent::Ended) => client_reacts(
            None,
            Some(UiEvent::PeerDisconnected),
            Some(Ok(())),
        ),
        (ClientStage::Receiving, ClientEvent::Failed(reason)) => client_reacts(
            None,
            Some(UiEvent::ConnectionError(reason)),
            Some(Ok(())),
        ),
        _ => client_reacts(None, None, None),
    };
    if reaction.outcome.is_some() {
        run.stage = ClientStage::Over;
    } else if reaction.signal.is_some() {
        run.stage = ClientStage::Receiving;
    }
    reaction
}

/// Input reaches the injector unchanged: a host that serves gets the event that
/// the server sent, does nothing else, and goes on.
pub proof fn law_input_is_injected_unchanged(
    run: HostRunView,
    message: ServerToHost,
    input: InputEvent,
)
    requires
        run.stage is Relaying,
        message.payload == Some(HostboundPayload::Input(input)),
    ensures
        ({
            let reaction = host_reaction(run, HostEvent::Message(message));
            &&& reaction.inject == Some(input)
            &&& reaction.emit is None
            &&& reaction.send is None
            &&& reaction.outcome is None
            &&& !reaction.force_keyframe
            &&& !reaction.start_capture
        }),
        host_stage_after(run, HostEvent::Message(message)) is Relaying,
{
}

/// Nothing is injected but the input that the server sent.
pub proof fn law_only_sent_input_is_injected(run: HostRunView, event: HostEvent)
    ensures
        host_reaction(run, event).inject matches Some(input) ==> {
            &&& run.stage is Relaying
            &&& event matches HostEvent::Message(m)
            &&& m.payload == Some(HostboundPayload::Input(input))
        },
{
}

/// A keyframe is forced when a client joins, and only then.
pub proof fn law_keyframe_is_forced_for_new_clients_only(run: HostRunView, event: HostEvent)
    ensures
        host_reaction(run, event).force_keyframe <==> {
            &&& run.stage is Relaying
            &&& event matches HostEvent::Message(m)
            &&& m.payload matches Some(HostboundPayload::ClientJoined(_))
        },
{
}

/// The user of a host sees the peer come and go, its clipboard text and the
/// errors of the server and the stream, each as it came, and nothing else.
pub proof fn law_host_shows_what_happens(run: HostRunView, event: HostEvent)
    requires
        run.stage is Relaying,
    ensures
        host_reaction(run, event).emit == match event {
            HostEvent::Message(m) => match m.payload {
                Some(HostboundPayload::ClientJoined(_)) => Some(UiEventView::PeerConnected),
                Some(HostboundPayload::ClientLeft(_)) => Some(UiEventView::PeerDisconnected),
                Some(HostboundPayload::Clipboard(clip)) => Some(
                    UiEventView::ClipboardSync(clip.text@),
                ),
                Some(HostboundPayload::Error(e)) => Some(UiEventView::ConnectionError(e.message@)),
                _ => None,
            },
            HostEvent::Failed(reason) => Some(UiEventView::ConnectionError(reason@)),
            _ => None,
        },
{
}

/// A host that serves goes on until the user stops it, the server closes or
/// refuses it, or the stream breaks; all of these end it well.
pub proof fn law_host_serves_until_the_end(run: HostRunView, event: HostEvent)
    requires
        run.stage is Relaying,
    ensures
        host_reaction(run, event).outcome is Some <==> match event {
            HostEvent::Stopped => true,
            HostEvent::Ended => true,
            HostEvent::Failed(_) => true,
            HostEvent::Message(m) => m.payload matches Some(HostboundPayload::Error(_)),
            _ => false,
        },
        host_reaction(run, event).outcome matches Some(outcome) ==> outcome is Ok,
        host_stage_after(run, event) is Relaying <==> host_reaction(run, event).outcome is None,
{
}

/// A host that does not get to serve fails with the reason it was given, and
/// with nothing else; until then it goes forward one stage at a time.
pub proof fn law_host_starts_step_by_step(run: HostRunView, event: HostEvent)
    requires
        run.stage is Connecting || run.stage is Opening,
    ensures
        event matches HostEvent::Failed(reason) ==> host_reaction(run, event).outcome == Some(
            Err::<(), Seq<char>>(reason@),
        ),
        !(event is Failed) ==> host_reaction(run, event).outcome is None,
        host_reaction(run, event).emit is None,
        run.stage is Connecting && event is Connected ==> host_stage_after(run, event) is Opening,
        run.stage is Opening && event is Opened ==> host_stage_after(run, event) is Relaying,
{
}

/// Whether a client is in is told by the first answer: it is if and only if the
/// server says so; else the reason is the server's, the stream's, or that there
/// was no answer.
pub proof fn law_first_answer_decides(reply: JoinReply)
    ensures
        join_failure(reply) is None <==> (reply matches JoinReply::Message(m)
            && m.payload matches Some(ClientboundPayload::JoinResult(r)) && r.ok),
        reply matches JoinReply::Message(m) ==> (m.payload matches Some(
            ClientboundPayload::JoinResult(r),
        ) ==> (!r.ok ==> join_failure(reply) == Some("join rejected: "@ + r.error@))),
        reply matches JoinReply::Failed(reason) ==> join_failure(reply) == Some(reason@),
        reply is Ended ==> join_failure(reply) == Some("server closed stream before join result"@),
{
}

/// A client that is in shows frames, clipboard text, the host's leaving and
/// errors, each as it came, and nothing else.
pub proof fn law_client_shows_what_happens(run: ClientRunView, event: ClientEvent)
    requires
        run.stage is Receiving,
    ensures
        match event {
            ClientEvent::Message(m) => match m.payload {
                Some(ClientboundPayload::Frame(frame)) => client_reaction(run, event).emit
                    == frame_event(frame@),
                Some(ClientboundPayload::HostLeft) => client_reaction(run, event).emit == Some(
                    UiEventView::PeerDisconnected,
                ),
                Some(ClientboundPayload::Clipboard(clip)) => client_reaction(run, event).emit
                    == Some(UiEventView::ClipboardSync(clip.text@)),
                Some(ClientboundPayload::Error(e)) => client_reaction(run, event).emit == Some(
                    UiEventView::ConnectionError(e.message@),
                ),
                _ => client_reaction(run, event).emit is None,
            },
            ClientEvent::Ended => client_reaction(run, event).emit == Some(
                UiEventView::PeerDisconnected,
            ),
            ClientEvent::Failed(reason) => client_reaction(run, event).emit == Some(
                UiEventView::ConnectionError(reason@),
            ),
            _ => client_reaction(run, event).emit is None,
        },
{
}

/// A client that is in stays until the user stops it, the host leaves, the
/// server closes or refuses it, or the stream breaks; all of these end it well.
pub proof fn law_client_watches_until_the_end(run: ClientRunView, event: ClientEvent)
    requires
        run.stage is Receiving,
    ensures
        client_reaction(run, event).outcome is Some <==> match event {
            ClientEvent::Stopped => true,
            ClientEvent::Ended => true,
            ClientEvent::Failed(_) => true,
            ClientEvent::Message(m) => m.payload matches Some(ClientboundPayload::Error(_))
                || m.payload == Some(ClientboundPayload::HostLeft),
            _ => false,
        },
        client_reaction(run, event).outcome matches Some(outcome) ==> outcome is Ok,
        client_stage_after(run, event) is Receiving <==> client_reaction(run, event).outcome
            is None,
{
}

/// A client goes forward one stage at a time until it is in, and fails with the
/// reason it was given.
pub proof fn law_client_starts_step_by_step(run: ClientRunView, event: ClientEvent)
    requires
        run.stage is Connecting || run.stage is Opening || run.stage is Joining,
    ensures
        event matches ClientEvent::Failed(reason) ==> client_reaction(run, event).signal == Some(
            Err::<(), Seq<char>>(reason@),
        ),
        run.stage is Connecting && event is Connected ==> client_stage_after(run, event) is Opening,
        run.stage is Opening && event is Opened ==> client_stage_after(run, event) is Joining,
        run.stage is Joining ==> (event matches ClientEvent::Message(m) ==> (
        client_stage_after(run, event) is Receiving <==> join_failure(JoinReply::Message(m))
            is None)),
        event is Stopped ==> client_stage_after(run, event) == run.stage,
{
}

/// It is known how joining went.
pub open spec fn join_known(stage: ClientStage) -> bool {
    stage is Receiving || stage is Over
}

/// How joining went is signalled as soon as it is known, and never again.
pub proof fn law_join_is_signalled_once(run: ClientRunView, event: ClientEvent)
    ensures
        client_reaction(run, event).signal is Some <==> !join_known(run.stage) && join_known(
            client_stage_after(run, event),
        ),
        join_known(run.stage) ==> join_known(client_stage_after(run, event)),
{
}

/// Nothing is shown before the client is in.
pub proof fn law_nothing_is_shown_before_joining(run: ClientRunView, event: ClientEvent)
    requires
        client_reaction(run, event).emit is Some,
    ensures
        run.stage is Receiving,
{
}

/// A client that could not join is done: the session ends with the reason that
/// was signalled, and nothing is shown.
pub proof fn law_failed_join_ends_the_session(
    run: ClientRunView,
    event: ClientEvent,
    reason: Seq<char>,
)
    requires
        client_reaction(run, event).signal == Some(Err::<(), Seq<char>>(reason)),
    ensures
        client_reaction(run, event).outcome == Some(Err::<(), Seq<char>>(reason)),
        client_reaction(run, event).emit is None,
        client_stage_after(run, event) is Over,
{
}

/// The first message of a client is its request, sent once; the first message
/// of a host is its announcement, sent once, before any frame is captured.
pub proof fn law_sessions_introduce_themselves_first(
    client: ClientRunView,
    client_event: ClientEvent,
    host: HostRunView,
    host_event: HostEvent,
)
    ensures
        client_reaction(client, client_event).send is Some <==> client.stage is Connecting
            && client_stage_after(client, client_event) is Opening,
        client_reaction(client, client_event).send matches Some(request) ==> request == Some(
            (client.target_id, client.password),
        ),
        client_stage_after(client, client_event) is Connecting ==> client.stage is Connecting,
        host_reaction(host, host_event).send is Some <==> host.stage is Connecting
            && host_stage_after(host, host_event) is Opening,
        host_reaction(host, host_event).send matches Some(announcement) ==> announcement == Some(
            (host.device_id, host.password),
        ),
        host_stage_after(host, host_event) is Connecting ==> host.stage is Connecting,
        host_reaction(host, host_event).start_capture <==> host.stage is Opening
            && host_stage_after(host, host_event) is Relaying,
        host_stage_after(host, host_event) is Opening ==> host.stage is Connecting || host.stage
            is Opening,
{
}

/// A session ends once: its result comes with the step that ends it, and after
/// that it does nothing more.
pub proof fn law_sessions_end_once(
    client: ClientRunView,
    client_event: ClientEvent,
    host: HostRunView,
    host_event: HostEvent,
)
    ensures
        client_reaction(client, client_event).outcome is Some <==> !(client.stage is Over)
            && client_stage_after(client, client_event) is Over,
        client.stage is Over ==> client_reaction(client, client_event) == client_idle()
            && client_stage_after(client, client_event) is Over,
        host_reaction(host, host_event).outcome is Some <==> !(host.stage is Over)
            && host_stage_after(host, host_event) is Over,
        host.stage is Over ==> host_reaction(host, host_event) == host_idle() && host_stage_after(
            host,
            host_event,
        ) is Over,
{
}

} // verus!
