use remote_desktop::auth::{hash_password, hash_password_with_salt, verify_password};
use remote_desktop::identity::{device_id_from, new_device_id, new_peer_id, peer_id_from};
use remote_desktop::messages::{
    ClientInbound, ClientJoin, ClientJoined, ClientLeft, ClientMessage, ClientPayload,
    ClientboundPayload, ClipboardSync, FrameData, HostAnnounce, HostInbound, HostMessage,
    HostPayload, HostboundPayload, InputEvent, JoinResult, PeerEndpoint, RegisterRequest,
    ServerError, ServerToClient, ServerToHost,
};
use remote_desktop::registry::Registry;
use remote_desktop::service::{
    bind_address, client_error, hash_announced, server_error, Args, ClientLink, ClientPhase, HostLink, HostPhase,
    Outgoing, RemoteDesktopService,
};

fn host_link(conn: u64) -> HostLink {
    HostLink { conn, public_addr: format!("10.0.0.{conn}:4000"), phase: HostPhase::AwaitAnnounce }
}

fn client_link(conn: u64) -> ClientLink {
    ClientLink { conn, public_addr: format!("10.0.0.{conn}:4000"), phase: ClientPhase::AwaitJoin }
}

fn host_message(payload: HostPayload) -> HostInbound {
    HostInbound::Message(HostMessage { payload: Some(payload) })
}

fn client_message(payload: ClientPayload) -> ClientInbound {
    ClientInbound::Message(ClientMessage { payload: Some(payload) })
}

fn announce(device_id: &str, password: &str) -> HostInbound {
    host_message(HostPayload::Announce(HostAnnounce {
        device_id: device_id.into(),
        password: password.into(),
    }))
}

fn join(device_id: &str, password: &str) -> ClientInbound {
    client_message(ClientPayload::Join(ClientJoin {
        device_id: device_id.into(),
        password: password.into(),
    }))
}

fn to_host(conn: u64, payload: HostboundPayload) -> Outgoing {
    Outgoing::ToHost { conn, message: ServerToHost { payload: Some(payload) } }
}

fn to_client(conn: u64, payload: ClientboundPayload) -> Outgoing {
    Outgoing::ToClient { conn, message: ServerToClient { payload: Some(payload) } }
}

fn refusal(conn: u64, error: &str) -> Vec<Outgoing> {
    vec![to_client(
        conn,
        ClientboundPayload::JoinResult(JoinResult {
            ok: false,
            error: error.into(),
            host_public_addr: String::new(),
        }),
    )]
}

fn frame(n: u8) -> FrameData {
    FrameData { width: 1, height: 1, is_keyframe: true, jpeg_data: vec![n], tiles: vec![] }
}

/// A server with a host of device `D` on connection 1 and its client on
/// connection 2.
fn connected() -> (RemoteDesktopService, HostLink, ClientLink) {
    let mut service = RemoteDesktopService::new();
    let mut host = host_link(1);
    assert_eq!(service.host_session(&mut host, announce("D", "secret")), vec![]);
    let mut client = client_link(2);
    let out =
        service.client_session_with(&mut client, join("D", "secret"), false, "peer".to_string());
    assert_eq!(out.len(), 3);
    (service, host, client)
}

#[test]
fn registry_creates_room_on_demand() {
    let mut reg = Registry::new();
    let _ = reg.get_or_create_room("AABB1122");
    assert!(reg.get_room("AABB1122").is_some());
    assert!(reg.get_room("NONEXIST").is_none());
}

#[test]
fn registry_room_count() {
    let mut reg = Registry::new();
    let _ = reg.get_or_create_room("AAA");
    let _ = reg.get_or_create_room("BBB");
    let _ = reg.get_or_create_room("AAA"); // idempotent
    assert_eq!(reg.room_count(), 2);
}

#[test]
fn registry_numbers_rooms_apart() {
    let mut reg = Registry::new();
    let a = reg.get_or_create_room("AAA");
    let b = reg.get_or_create_room("BBB");
    assert_ne!(a, b);
    assert_eq!(reg.get_or_create_room("AAA"), a);
    assert_eq!(reg.get_room("AAA"), Some(a));
    assert_eq!(reg.get_room("BBB"), Some(b));
    let room = reg.room("AAA").expect("was made");
    assert!(room.host.is_none() && room.client.is_none());
    assert!(reg.room("CCC").is_none());
}

#[test]
fn bind_address_joins_host_and_port() {
    let address = |host: &str, port| bind_address(&Args { host: host.into(), port });
    assert_eq!(address("0.0.0.0", 50055), "0.0.0.0:50055");
    assert_eq!(address("127.0.0.1", 0), "127.0.0.1:0");
    assert_eq!(address("::1", 65535), "::1:65535");
}

#[test]
fn device_ids_are_eight_hexadecimal_digits() {
    let bytes = [0x0a, 0xb1, 0xc2, 0xff, 5, 6, 7, 8, 9, 10, 11, 12, 13, 14, 15, 16];
    assert_eq!(device_id_from(bytes), "0AB1C2FF");
    let id = new_device_id();
    assert_eq!(id.len(), 8);
    assert!(id.chars().all(|c| c.is_ascii_digit() || ('A'..='F').contains(&c)), "{id}");
    assert_ne!(new_device_id(), new_device_id());
}

#[test]
fn peer_ids_are_uuids() {
    let bytes = [
        0x55, 0x0e, 0x84, 0x00, 0xe2, 0x9b, 0x41, 0xd4, 0xa7, 0x16, 0x44, 0x66, 0x55, 0x44, 0x00,
        0x0f,
    ];
    assert_eq!(peer_id_from(bytes), "550e8400-e29b-41d4-a716-44665544000f");
    let id = new_peer_id();
    assert_eq!(id.len(), 36);
    assert_eq!(id.as_bytes()[14], b'4');
    assert_ne!(new_peer_id(), new_peer_id());
}

#[test]
fn registration_confirms_or_issues_an_id() {
    let service = RemoteDesktopService::new();
    let register = |id: &str| service.register_device(RegisterRequest { device_id: id.into() });
    assert_eq!(register("A1B2C3D4").device_id, "A1B2C3D4");
    assert_eq!(register(" ").device_id, " ");
    let issued = register("").device_id;
    assert_eq!(issued.len(), 8);
    assert_eq!(register(&issued).device_id, issued);
    let empty = RegisterRequest { device_id: String::new() };
    assert_eq!(service.register_device_with(empty, [0xde; 16]).device_id, "DEDEDEDE");
}

#[test]
fn passwords_are_verified() {
    let hash = hash_password("secret").expect("short enough");
    assert!(verify_password("secret", &hash));
    assert!(!verify_password("Secret", &hash));
    assert!(!verify_password("", &hash));
    let empty = hash_password("").expect("short enough");
    assert!(verify_password("", &empty));
    assert!(!verify_password("secret", &empty));
    let salted = hash_password_with_salt("p\u{e4}ss", [7; 16]).expect("short enough");
    assert!(verify_password("p\u{e4}ss", &salted));
    assert!(!verify_password("pass", &salted));
}

#[test]
fn error_messages_carry_their_text() {
    assert_eq!(
        server_error("bad"),
        ServerToHost {
            payload: Some(HostboundPayload::Error(ServerError { message: "bad".into() }))
        }
    );
    assert_eq!(
        client_error("worse"),
        ServerToClient {
            payload: Some(ClientboundPayload::Error(ServerError { message: "worse".into() }))
        }
    );
}

#[test]
fn host_must_announce_first() {
    let firsts = [
        host_message(HostPayload::Frame(frame(1))),
        host_message(HostPayload::Heartbeat),
        HostInbound::Message(HostMessage { payload: None }),
    ];
    for first in firsts {
        let mut service = RemoteDesktopService::new();
        let mut link = host_link(1);
        let out = service.host_session(&mut link, first);
        let error = ServerError { message: "first message must be announce".into() };
        assert_eq!(out, vec![to_host(1, HostboundPayload::Error(error))]);
        assert!(matches!(link.phase, HostPhase::Closed));
        assert_eq!(service.registry.room_count(), 0);
    }
}

#[test]
fn host_must_name_its_device() {
    let mut service = RemoteDesktopService::new();
    let mut link = host_link(1);
    let out = service.host_session(&mut link, announce("", "secret"));
    let error = ServerError { message: "device_id must not be empty".into() };
    assert_eq!(out, vec![to_host(1, HostboundPayload::Error(error))]);
    assert!(matches!(link.phase, HostPhase::Closed));
}

#[test]
fn host_that_never_speaks_leaves_no_trace() {
    let mut service = RemoteDesktopService::new();
    let mut link = host_link(1);
    assert_eq!(service.host_session(&mut link, HostInbound::Ended), vec![]);
    assert!(matches!(link.phase, HostPhase::Closed));
    assert_eq!(service.registry.room_count(), 0);
}

#[test]
fn announcing_host_takes_its_room() {
    let mut service = RemoteDesktopService::new();
    let mut link = host_link(1);
    assert_eq!(service.host_session(&mut link, announce("D", "secret")), vec![]);
    assert!(matches!(&link.phase, HostPhase::Relaying { device_id } if device_id == "D"));
    let host = service.registry.room("D").and_then(|r| r.host.as_ref()).expect("in its room");
    assert_eq!(host.tx, 1);
    assert_eq!(host.public_addr, "10.0.0.1:4000");
    assert!(verify_password("secret", &host.password_hash));
    assert_eq!(service.watcher("D"), None);
}

#[test]
fn client_must_join_first() {
    let mut service = RemoteDesktopService::new();
    let mut link = client_link(2);
    let first = client_message(ClientPayload::Input(InputEvent { event: None }));
    let error = ServerError { message: "first message must be join".into() };
    assert_eq!(
        service.client_session(&mut link, first, false),
        vec![to_client(2, ClientboundPayload::Error(error))]
    );
    assert!(matches!(link.phase, ClientPhase::Closed));

    let mut silent = client_link(3);
    assert_eq!(service.client_session(&mut silent, ClientInbound::Ended, false), vec![]);
    assert!(matches!(silent.phase, ClientPhase::Closed));
}

#[test]
fn unknown_device_is_not_found() {
    let mut service = RemoteDesktopService::new();
    let mut link = client_link(2);
    assert_eq!(
        service.client_session(&mut link, join("D", "secret"), false),
        refusal(2, "device not found")
    );
    assert!(matches!(link.phase, ClientPhase::Closed));
    assert_eq!(service.registry.room_count(), 0);
}

#[test]
fn wrong_password_is_refused() {
    let mut service = RemoteDesktopService::new();
    let mut host = host_link(1);
    service.host_session(&mut host, announce("D", "secret"));
    let mut link = client_link(2);
    assert_eq!(
        service.client_session(&mut link, join("D", "guess"), false),
        refusal(2, "wrong password")
    );
    assert_eq!(service.watcher("D"), None);
}

#[test]
fn right_password_opens_the_room() {
    let mut service = RemoteDesktopService::new();
    let mut host = host_link(1);
    service.host_session(&mut host, announce("D", "secret"));
    let mut link = client_link(2);
    let out = service.client_session(&mut link, join("D", "secret"), false);
    let peer_id = match &link.phase {
        ClientPhase::Relaying { device_id, peer_id } if device_id == "D" => peer_id.clone(),
        _ => panic!("should be in"),
    };
    assert_eq!(peer_id.len(), 36);
    assert_eq!(
        out,
        vec![
            to_client(
                2,
                ClientboundPayload::JoinResult(JoinResult {
                    ok: true,
                    error: String::new(),
                    host_public_addr: "10.0.0.1:4000".into(),
                })
            ),
            to_host(
                1,
                HostboundPayload::ClientJoined(ClientJoined {
                    peer_id,
                    public_addr: "10.0.0.2:4000".into(),
                })
            ),
            to_host(
                1,
                HostboundPayload::PeerEndpoint(PeerEndpoint { addr: "10.0.0.2:4000".into() })
            ),
        ]
    );
    assert_eq!(service.watcher("D"), Some(2));
}

#[test]
fn room_has_one_client_at_a_time() {
    let (mut service, _, _) = connected();
    let mut second = client_link(3);
    assert_eq!(
        service.client_session(&mut second, join("D", "secret"), false),
        refusal(3, "room is full")
    );
    assert_eq!(service.watcher("D"), Some(2));
    // The first client's connection turns out to be closed.
    let mut third = client_link(4);
    assert_eq!(service.client_session(&mut third, join("D", "secret"), true).len(), 3);
    assert_eq!(service.watcher("D"), Some(4));
}

#[test]
fn wrong_password_is_refused_before_a_full_room() {
    let (mut service, _, _) = connected();
    let mut second = client_link(3);
    assert_eq!(
        service.client_session(&mut second, join("D", "guess"), false),
        refusal(3, "wrong password")
    );
}

#[test]
fn joined_pair_is_connected() {
    let (mut service, mut host, mut client) = connected();
    assert_eq!(
        service.host_session(&mut host, host_message(HostPayload::Frame(frame(9)))),
        vec![to_client(2, ClientboundPayload::Frame(frame(9)))]
    );
    let clip = || ClipboardSync { text: "copied".into() };
    assert_eq!(
        service.host_session(&mut host, host_message(HostPayload::Clipboard(clip()))),
        vec![to_client(2, ClientboundPayload::Clipboard(clip()))]
    );
    let input = client_message(ClientPayload::Input(InputEvent { event: None }));
    assert_eq!(
        service.client_session(&mut client, input, false),
        vec![to_host(1, HostboundPayload::Input(InputEvent { event: None }))]
    );
    assert_eq!(
        service.client_session(
            &mut client,
            client_message(ClientPayload::Clipboard(clip())),
            false
        ),
        vec![to_host(1, HostboundPayload::Clipboard(clip()))]
    );
}

#[test]
fn heartbeats_go_nowhere() {
    let (mut service, mut host, mut client) = connected();
    assert_eq!(service.host_session(&mut host, host_message(HostPayload::Heartbeat)), vec![]);
    assert_eq!(service.host_session(&mut host, announce("E", "other")), vec![]);
    assert_eq!(
        service.client_session(&mut client, client_message(ClientPayload::Heartbeat), false),
        vec![]
    );
    assert_eq!(service.client_session(&mut client, join("D", "secret"), false), vec![]);
    assert_eq!(service.registry.room_count(), 1);
}

#[test]
fn frames_without_a_client_are_dropped() {
    let mut service = RemoteDesktopService::new();
    let mut host = host_link(1);
    service.host_session(&mut host, announce("D", "secret"));
    assert_eq!(service.host_session(&mut host, host_message(HostPayload::Frame(frame(1)))), vec![]);
}

#[test]
fn leaving_client_frees_the_room() {
    let (mut service, _, mut client) = connected();
    assert_eq!(
        service.client_session(&mut client, ClientInbound::Ended, false),
        vec![to_host(1, HostboundPayload::ClientLeft(ClientLeft { peer_id: "peer".into() }))]
    );
    assert!(matches!(client.phase, ClientPhase::Closed));
    assert_eq!(service.watcher("D"), None);
    let mut second = client_link(3);
    assert_eq!(service.client_session(&mut second, join("D", "secret"), false).len(), 3);
}

#[test]
fn leaving_host_empties_the_room() {
    let (mut service, mut host, mut client) = connected();
    assert_eq!(
        service.host_session(&mut host, HostInbound::Ended),
        vec![to_client(2, ClientboundPayload::HostLeft)]
    );
    assert!(matches!(host.phase, HostPhase::Closed));
    let mut second = client_link(3);
    assert_eq!(
        service.client_session(&mut second, join("D", "secret"), true),
        refusal(3, "host not available")
    );
    let input = client_message(ClientPayload::Input(InputEvent { event: None }));
    assert_eq!(service.client_session(&mut client, input, false), vec![]);
    assert_eq!(service.client_session(&mut client, ClientInbound::Ended, false), vec![]);
}

#[test]
fn reconnecting_host_evicts_the_client() {
    let (mut service, _, _) = connected();
    let mut again = host_link(5);
    assert_eq!(
        service.host_session(&mut again, announce("D", "changed")),
        vec![to_client(2, ClientboundPayload::HostLeft)]
    );
    assert_eq!(service.watcher("D"), None);
    let mut old = client_link(6);
    assert_eq!(
        service.client_session(&mut old, join("D", "secret"), false),
        refusal(6, "wrong password")
    );
    let mut new = client_link(7);
    assert_eq!(service.client_session(&mut new, join("D", "changed"), false).len(), 3);
}

#[test]
fn rooms_are_isolated() {
    let (mut service, _, _) = connected();
    let mut other = host_link(10);
    assert_eq!(service.host_session(&mut other, announce("E", "other")), vec![]);
    assert_eq!(service.watcher("D"), Some(2));
    assert_eq!(
        service.host_session(&mut other, host_message(HostPayload::Frame(frame(1)))),
        vec![]
    );
    assert_eq!(service.host_session(&mut other, HostInbound::Ended), vec![]);
    assert_eq!(service.watcher("D"), Some(2));
    assert_eq!(service.registry.room_count(), 2);
}

#[test]
fn closed_sessions_are_silent() {
    let (mut service, mut host, mut client) = connected();
    service.client_session(&mut client, ClientInbound::Ended, false);
    service.host_session(&mut host, HostInbound::Ended);
    assert_eq!(service.host_session(&mut host, announce("D", "secret")), vec![]);
    assert_eq!(service.host_session(&mut host, HostInbound::Ended), vec![]);
    assert_eq!(service.client_session(&mut client, join("D", "secret"), false), vec![]);
    assert!(service.registry.room("D").expect("kept").host.is_none());
}

#[test]
fn announced_password_is_hashed() {
    let mut link = host_link(1);
    let hash = hash_announced(&link, &announce("D", "secret")).expect("a device is announced");
    assert!(verify_password("secret", &hash));
    assert!(!verify_password("D", &hash));
    assert!(hash_announced(&link, &announce("", "secret")).is_none());
    assert!(hash_announced(&link, &host_message(HostPayload::Heartbeat)).is_none());
    assert!(hash_announced(&link, &HostInbound::Ended).is_none());
    link.phase = HostPhase::Relaying { device_id: "D".into() };
    assert!(hash_announced(&link, &announce("D", "secret")).is_none());
}

#[test]
fn given_hash_decides_who_joins() {
    let mut service = RemoteDesktopService::new();
    let mut host = host_link(1);
    let hash = hash_password_with_salt("other", [3; 16]);
    assert_eq!(service.host_session_with(&mut host, announce("D", "secret"), hash), vec![]);
    let mut client = client_link(2);
    assert_eq!(
        service.client_session(&mut client, join("D", "secret"), false),
        refusal(2, "wrong password")
    );
    let mut second = client_link(3);
    assert_eq!(service.client_session(&mut second, join("D", "other"), false).len(), 3);

    let mut unhashed = host_link(4);
    assert_eq!(service.host_session_with(&mut unhashed, announce("E", "secret"), None), vec![]);
    assert!(matches!(unhashed.phase, HostPhase::Closed));
    assert!(service.registry.room("E").is_none());
}
