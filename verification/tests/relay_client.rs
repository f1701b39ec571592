use remote_desktop::messages::{
    ClientJoined, ClientLeft, ClientPayload, ClientboundPayload, ClipboardSync, FrameData,
    HostPayload, HostboundPayload, InputEvent, JoinResult, PeerEndpoint, ServerError,
    ServerToClient, ServerToHost, TileUpdate,
};
use remote_desktop::relay_client::{
    announce, can_emit, connect, emit_frame, frame_message, input_message, join, join_outcome,
    keep_capturing, register_device, run_client_session, run_host_session, ClientEvent, ClientRun,
    ClientStage, Handoff, HostEvent, HostRun, HostStage, JoinReply, TileEvent, UiEvent,
};

fn keyframe(jpeg: &[u8]) -> FrameData {
    FrameData {
        width: 640,
        height: 480,
        is_keyframe: true,
        jpeg_data: jpeg.to_vec(),
        tiles: vec![],
    }
}

fn base64(data: &[u8]) -> String {
    match emit_frame(keyframe(data)) {
        Some(UiEvent::FrameKeyframe { width: 640, height: 480, data }) => data,
        other => panic!("unexpected event: {other:?}"),
    }
}

fn to_host(payload: HostboundPayload) -> HostEvent {
    HostEvent::Message(ServerToHost { payload: Some(payload) })
}

fn to_client(payload: ClientboundPayload) -> ClientEvent {
    ClientEvent::Message(ServerToClient { payload: Some(payload) })
}

fn join_result(ok: bool, error: &str) -> ClientboundPayload {
    ClientboundPayload::JoinResult(JoinResult {
        ok,
        error: error.into(),
        host_public_addr: String::new(),
    })
}

fn host_run(stage: HostStage) -> HostRun {
    HostRun { device_id: "D".into(), password: "secret".into(), stage }
}

fn client_run(stage: ClientStage) -> ClientRun {
    ClientRun { target_id: "D".into(), password: "secret".into(), stage }
}

#[test]
fn https_servers_are_reached_through_tls() {
    assert!(connect("https://example.org").tls);
    assert!(!connect("http://localhost:50051").tls);
    assert!(!connect("HTTPS://example.org").tls);
    assert!(!connect("https:/").tls);
    assert!(!connect("").tls);
}

#[test]
fn connections_are_kept_alive() {
    let options = connect("http://localhost:50051");
    assert_eq!(options.connect_timeout_secs, 10);
    assert_eq!(options.keep_alive_interval_secs, 20);
    assert_eq!(options.keep_alive_timeout_secs, 10);
    assert!(options.keep_alive_while_idle);
    assert_eq!(options.max_message_bytes, 64 * 1024 * 1024);
}

#[test]
fn registration_asks_for_the_id() {
    assert_eq!(register_device("A1B2C3D4").device_id, "A1B2C3D4");
    assert_eq!(register_device("").device_id, "");
}

#[test]
fn pictures_travel_in_base64() {
    assert_eq!(base64(b""), "");
    assert_eq!(base64(b"f"), "Zg==");
    assert_eq!(base64(b"fo"), "Zm8=");
    assert_eq!(base64(b"foo"), "Zm9v");
    assert_eq!(base64(b"foob"), "Zm9vYg==");
    assert_eq!(base64(&[0xfb, 0xff, 0xbf]), "+/+/");
    assert_eq!(base64(&[0x00, 0x10, 0x83, 0x10, 0x51, 0x87]), "ABCDEFGH");
}

#[test]
fn delta_frames_become_tile_events() {
    let frame = FrameData {
        width: 640,
        height: 480,
        is_keyframe: false,
        jpeg_data: vec![],
        tiles: vec![
            TileUpdate { x: 128, y: 0, tile_width: 128, tile_height: 64, jpeg_data: vec![1] },
            TileUpdate { x: 0, y: 128, tile_width: 5, tile_height: 6, jpeg_data: vec![0, 0] },
        ],
    };
    assert!(can_emit(&frame));
    assert_eq!(
        emit_frame(frame),
        Some(UiEvent::FrameDelta {
            width: 640,
            height: 480,
            tiles: vec![
                TileEvent { x: 128, y: 0, w: 128, h: 64, data: "AQ==".into() },
                TileEvent { x: 0, y: 128, w: 5, h: 6, data: "AAA=".into() },
            ],
        })
    );
}

#[test]
fn delta_frame_without_tiles_is_not_shown() {
    let frame = FrameData { is_keyframe: false, ..keyframe(&[1]) };
    assert!(can_emit(&frame));
    assert_eq!(emit_frame(frame), None);
}

#[test]
fn events_have_names() {
    let empty = String::new;
    assert_eq!(UiEvent::PeerConnected.name(), "peer-connected");
    assert_eq!(UiEvent::PeerDisconnected.name(), "peer-disconnected");
    assert_eq!(UiEvent::ClipboardSync(empty()).name(), "clipboard-sync");
    assert_eq!(UiEvent::ConnectionError(empty()).name(), "connection-error");
    let keyframe = UiEvent::FrameKeyframe { width: 0, height: 0, data: empty() };
    assert_eq!(keyframe.name(), "frame-keyframe");
    let delta = UiEvent::FrameDelta { width: 0, height: 0, tiles: vec![] };
    assert_eq!(delta.name(), "frame-delta");
}

#[test]
fn messages_carry_what_they_are_given() {
    match announce("D", "secret").payload {
        Some(HostPayload::Announce(a)) => {
            assert_eq!((a.device_id.as_str(), a.password.as_str()), ("D", "secret"))
        }
        other => panic!("unexpected payload: {other:?}"),
    }
    match join("D", "secret").payload {
        Some(ClientPayload::Join(j)) => {
            assert_eq!((j.device_id.as_str(), j.password.as_str()), ("D", "secret"))
        }
        other => panic!("unexpected payload: {other:?}"),
    }
    assert_eq!(frame_message(keyframe(&[1])).payload, Some(HostPayload::Frame(keyframe(&[1]))));
    assert_eq!(
        input_message(InputEvent { event: None }).payload,
        Some(ClientPayload::Input(InputEvent { event: None }))
    );
}

#[test]
fn only_a_closed_channel_ends_capturing() {
    assert!(keep_capturing(None));
    assert!(keep_capturing(Some(Handoff::Taken)));
    assert!(keep_capturing(Some(Handoff::Full)));
    assert!(!keep_capturing(Some(Handoff::Closed)));
}

#[test]
fn host_announces_itself_and_then_captures() {
    let mut run = host_run(HostStage::Connecting);
    let reaction = run_host_session(&mut run, HostEvent::Connected);
    assert_eq!(reaction.send, Some(announce("D", "secret")));
    assert!(!reaction.start_capture);
    assert_eq!(run.stage, HostStage::Opening);
    let reaction = run_host_session(&mut run, HostEvent::Opened);
    assert_eq!(reaction.send, None);
    assert!(reaction.start_capture);
    assert_eq!(reaction.outcome, None);
    assert_eq!(run.stage, HostStage::Relaying);
}

#[test]
fn host_that_cannot_connect_fails() {
    for stage in [HostStage::Connecting, HostStage::Opening] {
        let mut run = host_run(stage);
        let reaction = run_host_session(&mut run, HostEvent::Failed("refused".into()));
        assert_eq!(reaction.outcome, Some(Err("refused".into())));
        assert_eq!(reaction.emit, None);
        assert_eq!(run.stage, HostStage::Over);
    }
}

#[test]
fn host_reacts_to_the_server() {
    let mut run = host_run(HostStage::Relaying);
    let joined = ClientJoined { peer_id: "p".into(), public_addr: "a".into() };
    let reaction = run_host_session(&mut run, to_host(HostboundPayload::ClientJoined(joined)));
    assert!(reaction.force_keyframe);
    assert_eq!(reaction.emit, Some(UiEvent::PeerConnected));

    let left = ClientLeft { peer_id: "p".into() };
    let reaction = run_host_session(&mut run, to_host(HostboundPayload::ClientLeft(left)));
    assert!(!reaction.force_keyframe);
    assert_eq!(reaction.emit, Some(UiEvent::PeerDisconnected));

    let input = InputEvent { event: None };
    let reaction = run_host_session(&mut run, to_host(HostboundPayload::Input(input)));
    assert_eq!(reaction.inject, Some(InputEvent { event: None }));
    assert_eq!(reaction.emit, None);

    let clip = ClipboardSync { text: "copied".into() };
    let reaction = run_host_session(&mut run, to_host(HostboundPayload::Clipboard(clip)));
    assert_eq!(reaction.emit, Some(UiEvent::ClipboardSync("copied".into())));

    let endpoint = PeerEndpoint { addr: "a".into() };
    let reaction = run_host_session(&mut run, to_host(HostboundPayload::PeerEndpoint(endpoint)));
    assert_eq!(reaction.emit, None);
    assert_eq!(reaction.outcome, None);
    assert_eq!(run.stage, HostStage::Relaying);

    let error = ServerError { message: "bad".into() };
    let reaction = run_host_session(&mut run, to_host(HostboundPayload::Error(error)));
    assert_eq!(reaction.emit, Some(UiEvent::ConnectionError("bad".into())));
    assert_eq!(reaction.outcome, Some(Ok(())));
    assert_eq!(run.stage, HostStage::Over);
}

#[test]
fn host_session_ends() {
    let endings = [
        (HostEvent::Stopped, None),
        (HostEvent::Ended, None),
        (HostEvent::Failed("reset".into()), Some(UiEvent::ConnectionError("reset".into()))),
    ];
    for (event, emit) in endings {
        let mut run = host_run(HostStage::Relaying);
        let reaction = run_host_session(&mut run, event);
        assert_eq!(reaction.emit, emit);
        assert_eq!(reaction.outcome, Some(Ok(())));
        assert_eq!(run.stage, HostStage::Over);
        let reaction = run_host_session(&mut run, HostEvent::Failed("late".into()));
        assert_eq!((reaction.emit, reaction.outcome), (None, None));
    }
}

#[test]
fn join_outcome_is_told_by_the_first_message() {
    let reply = |payload| JoinReply::Message(ServerToClient { payload });
    assert_eq!(join_outcome(reply(Some(join_result(true, "")))), Ok(()));
    assert_eq!(
        join_outcome(reply(Some(join_result(false, "wrong password")))),
        Err("join rejected: wrong password".into())
    );
    assert_eq!(
        join_outcome(reply(Some(ClientboundPayload::HostLeft))),
        Err("unexpected first message: Some(\"non-join-result\")".into())
    );
    assert_eq!(join_outcome(reply(None)), Err("unexpected first message: None".into()));
    assert_eq!(
        join_outcome(JoinReply::Ended),
        Err("server closed stream before join result".into())
    );
    assert_eq!(join_outcome(JoinReply::Failed("reset".into())), Err("reset".into()));
}

#[test]
fn client_joins_and_receives() {
    let mut run = client_run(ClientStage::Connecting);
    let reaction = run_client_session(&mut run, ClientEvent::Connected);
    assert_eq!(reaction.send, Some(join("D", "secret")));
    assert_eq!(reaction.signal, None);
    assert_eq!(run.stage, ClientStage::Opening);
    let reaction = run_client_session(&mut run, ClientEvent::Opened);
    assert_eq!((reaction.send, reaction.signal), (None, None));
    assert_eq!(run.stage, ClientStage::Joining);
    let reaction = run_client_session(&mut run, to_client(join_result(true, "")));
    assert_eq!(reaction.signal, Some(Ok(())));
    assert_eq!(reaction.outcome, None);
    assert_eq!(run.stage, ClientStage::Receiving);
    let reaction =
        run_client_session(&mut run, to_client(ClientboundPayload::Frame(keyframe(b"foo"))));
    assert_eq!(
        reaction.emit,
        Some(UiEvent::FrameKeyframe { width: 640, height: 480, data: "Zm9v".into() })
    );
    assert_eq!(reaction.signal, None);
    let clip = ClipboardSync { text: "copied".into() };
    let reaction = run_client_session(&mut run, to_client(ClientboundPayload::Clipboard(clip)));
    assert_eq!(reaction.emit, Some(UiEvent::ClipboardSync("copied".into())));
    let reaction = run_client_session(&mut run, to_client(join_result(false, "late")));
    assert_eq!((reaction.signal, reaction.emit, reaction.outcome), (None, None, None));
    assert_eq!(run.stage, ClientStage::Receiving);
}

#[test]
fn client_that_cannot_join_fails() {
    let failures = [
        (ClientStage::Connecting, ClientEvent::Failed("refused".into()), "refused"),
        (ClientStage::Opening, ClientEvent::Failed("refused".into()), "refused"),
        (ClientStage::Joining, ClientEvent::Failed("reset".into()), "reset"),
        (ClientStage::Joining, ClientEvent::Ended, "server closed stream before join result"),
        (
            ClientStage::Joining,
            to_client(join_result(false, "room is full")),
            "join rejected: room is full",
        ),
    ];
    for (stage, event, reason) in failures {
        let mut run = client_run(stage);
        let reaction = run_client_session(&mut run, event);
        assert_eq!(reaction.signal, Some(Err(reason.to_string())));
        assert_eq!(reaction.outcome, Some(Err(reason.to_string())));
        assert_eq!(reaction.emit, None);
        assert_eq!(run.stage, ClientStage::Over);
    }
}

#[test]
fn client_session_ends() {
    let error = ServerError { message: "bad".into() };
    let endings = [
        (ClientEvent::Stopped, None),
        (ClientEvent::Ended, Some(UiEvent::PeerDisconnected)),
        (to_client(ClientboundPayload::HostLeft), Some(UiEvent::PeerDisconnected)),
        (
            to_client(ClientboundPayload::Error(error)),
            Some(UiEvent::ConnectionError("bad".into())),
        ),
        (ClientEvent::Failed("reset".into()), Some(UiEvent::ConnectionError("reset".into()))),
    ];
    for (event, emit) in endings {
        let mut run = client_run(ClientStage::Receiving);
        let reaction = run_client_session(&mut run, event);
        assert_eq!(reaction.emit, emit);
        assert_eq!(reaction.outcome, Some(Ok(())));
        assert_eq!(reaction.signal, None);
        assert_eq!(run.stage, ClientStage::Over);
        let reaction = run_client_session(&mut run, ClientEvent::Ended);
        assert_eq!((reaction.emit, reaction.outcome), (None, None));
    }
}

#[test]
fn stopping_waits_until_the_client_is_in() {
    for stage in [ClientStage::Connecting, ClientStage::Opening, ClientStage::Joining] {
        let mut run = client_run(stage);
        let reaction = run_client_session(&mut run, ClientEvent::Stopped);
        assert_eq!((reaction.signal, reaction.outcome), (None, None));
        assert_eq!(run.stage, stage);
    }
}
