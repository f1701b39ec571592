use remote_desktop::commands::{
    create_room, device_id_with, disconnect, get_or_create_device_id, join_room, join_room_result,
    room_created, send_key, send_mouse_button, send_mouse_move, send_mouse_scroll, session_ended,
    set_server_url, CreateRoom, DeviceId,
};
use remote_desktop::messages::{
    Event, InputEvent, KeyEvent, MouseButton, MouseMove, MouseScroll,
};
use remote_desktop::relay_client::UiEvent;
use remote_desktop::state::{AppRole, AppState};

type State = AppState<&'static str, &'static str>;

fn idle() -> State {
    AppState::new("http://localhost:50051".to_string())
}

fn registration(step: CreateRoom) -> (String, String) {
    match step {
        CreateRoom::Register { server_url, device_id } => (server_url, device_id),
        CreateRoom::Hosting(id) => panic!("already hosting {id}"),
    }
}

#[test]
fn new_state_is_idle() {
    let state = idle();
    assert_eq!(state.role, AppRole::Idle);
    assert_eq!(state.room_id, None);
    assert_eq!(state.server_url, "http://localhost:50051");
    assert_eq!((state.stop_tx, state.input_tx), (None, None));
}

#[test]
fn server_url_can_be_set() {
    let mut state = idle();
    set_server_url(&mut state, "https://example.org".into());
    assert_eq!(state.server_url, "https://example.org");
    assert_eq!(state.role, AppRole::Idle);
}

#[test]
fn stored_device_id_is_used() {
    for stored in ["A1B2C3D4", "  A1B2C3D4\r\n", "\u{3000}A1B2C3D4\u{a0}"] {
        match get_or_create_device_id(Some(stored.to_string())) {
            DeviceId::Stored(id) => assert_eq!(id, "A1B2C3D4"),
            DeviceId::Created(id) => panic!("created {id}"),
        }
    }
    match get_or_create_device_id(Some(" my pc ".to_string())) {
        DeviceId::Stored(id) => assert_eq!(id, "my pc"),
        DeviceId::Created(id) => panic!("created {id}"),
    }
}

#[test]
fn missing_device_id_is_created() {
    for stored in [None, Some(String::new()), Some(" \t\n".to_string())] {
        match get_or_create_device_id(stored) {
            DeviceId::Created(id) => assert_eq!(id.len(), 8),
            DeviceId::Stored(id) => panic!("stored {id}"),
        }
    }
    match device_id_with(None, [0x0f; 16]) {
        DeviceId::Created(id) => assert_eq!(id, "0F0F0F0F"),
        DeviceId::Stored(id) => panic!("stored {id}"),
    }
}

#[test]
fn created_device_id_is_found_again() {
    let created = match get_or_create_device_id(None) {
        DeviceId::Created(id) => id,
        DeviceId::Stored(id) => panic!("stored {id}"),
    };
    match get_or_create_device_id(Some(created.clone())) {
        DeviceId::Stored(id) => assert_eq!(id, created),
        DeviceId::Created(id) => panic!("created {id}"),
    }
}

#[test]
fn room_is_registered_under_the_known_id() {
    let state = idle();
    let url = "http://localhost:50051".to_string();
    assert_eq!(
        registration(create_room(&state, Some(" given ".into()), Some("stored".into()))),
        (url.clone(), " given ".into())
    );
    assert_eq!(
        registration(create_room(&state, None, Some(" stored\n".into()))),
        (url.clone(), "stored".into())
    );
    assert_eq!(registration(create_room(&state, None, None)), (url, String::new()));
}

#[test]
fn hosted_room_is_kept() {
    let mut state = idle();
    room_created(&mut state, "D".into(), "stop", "input");
    assert_eq!(state.role, AppRole::Host);
    assert_eq!(state.room_id, Some("D".to_string()));
    assert_eq!((state.stop_tx, state.input_tx), (Some("stop"), Some("input")));
    match create_room(&state, Some("E".into()), None) {
        CreateRoom::Hosting(id) => assert_eq!(id, "D"),
        CreateRoom::Register { .. } => panic!("already hosting"),
    }
}

#[test]
fn identity_survives_a_session() {
    let mut state = idle();
    room_created(&mut state, "D".into(), "stop", "input");
    assert_eq!(disconnect(&mut state), Some("stop"));
    assert_eq!(state.role, AppRole::Idle);
    assert_eq!(state.room_id, Some("D".to_string()));
    assert_eq!(state.server_url, "http://localhost:50051");
    assert_eq!((state.stop_tx, state.input_tx), (None, None));
    assert_eq!(disconnect(&mut state), None);
    assert_eq!(registration(create_room(&state, Some("D".into()), None)).1, "D");
}

#[test]
fn joining_makes_a_client() {
    let mut state = idle();
    assert_eq!(join_room(&mut state, "stop", "input"), "http://localhost:50051");
    assert_eq!(state.role, AppRole::Client);
    assert_eq!(state.room_id, None);
    assert_eq!((state.stop_tx, state.input_tx), (Some("stop"), Some("input")));
    state.room_id = Some("D".into());
    assert_eq!(registration(create_room(&state, None, None)).1, "");
}

#[test]
fn join_result_is_handed_on() {
    assert_eq!(join_room_result(Some(Ok(()))), Ok(()));
    assert_eq!(join_room_result(Some(Err("refused".into()))), Err("refused".into()));
    assert_eq!(
        join_room_result(None),
        Err("connection task dropped before join result".into())
    );
}

#[test]
fn input_goes_to_the_session() {
    let mut state = idle();
    assert_eq!(send_key(&state, "a".into(), true), None);
    join_room(&mut state, "stop", "input");
    let sent = |event| Some((&"input", InputEvent { event: Some(event) }));
    assert_eq!(
        send_key(&state, "a".into(), true),
        sent(Event::Key(KeyEvent { key: "a".into(), pressed: true }))
    );
    assert_eq!(
        send_mouse_button(&state, "right".into(), false),
        sent(Event::MouseButton(MouseButton { button: "right".into(), pressed: false }))
    );
    assert_eq!(
        send_mouse_scroll(&state, -3, 4),
        sent(Event::MouseScroll(MouseScroll { dx: -3, dy: 4 }))
    );
    let (x, y) = (0.5f32.to_bits(), 0.25f32.to_bits());
    assert_eq!(send_mouse_move(&state, x, y), sent(Event::MouseMove(MouseMove { x, y })));
}

#[test]
fn no_input_goes_anywhere_after_a_session() {
    let mut state = idle();
    join_room(&mut state, "stop", "input");
    assert_eq!(session_ended(&mut state, Ok(())), None);
    assert_eq!(state.role, AppRole::Idle);
    assert_eq!(send_mouse_move(&state, 0, 0), None);
    assert_eq!(send_mouse_button(&state, "left".into(), true), None);
    assert_eq!(send_mouse_scroll(&state, 1, 1), None);
}

#[test]
fn failed_session_is_reported() {
    let mut state = idle();
    room_created(&mut state, "D".into(), "stop", "input");
    assert_eq!(
        session_ended(&mut state, Err("refused".into())),
        Some(UiEvent::ConnectionError("refused".into()))
    );
    assert_eq!(state.role, AppRole::Idle);
    assert_eq!(state.room_id, Some("D".to_string()));
}

#[test]
fn reset_keeps_the_device_id() {
    let mut state = idle();
    room_created(&mut state, "D".into(), "stop", "input");
    state.reset();
    assert_eq!(state.role, AppRole::Idle);
    assert_eq!(state.room_id, Some("D".to_string()));
    assert_eq!((state.stop_tx, state.input_tx), (None, None));
}
