use remote_desktop::input::{
    map_button, map_key, Axis, Button, Direction, InputAction, InputController, Key,
};
use remote_desktop::messages::{
    Event, InputEvent, KeyEvent, MouseButton, MouseMove, MouseScroll,
};

fn event(event: Event) -> InputEvent {
    InputEvent { event: Some(event) }
}

#[test]
fn map_key_known_keys() {
    assert!(matches!(map_key("Return"), Key::Return));
    assert!(matches!(map_key("Escape"), Key::Escape));
    assert!(matches!(map_key("ArrowLeft"), Key::LeftArrow));
    assert!(matches!(map_key("Control"), Key::Control));
}

#[test]
fn map_key_single_char() {
    assert!(matches!(map_key("a"), Key::Unicode('a')));
    assert!(matches!(map_key("Z"), Key::Unicode('Z')));
}

#[test]
fn map_button_variants() {
    assert!(matches!(map_button("left"), Button::Left));
    assert!(matches!(map_button("right"), Button::Right));
    assert!(matches!(map_button("middle"), Button::Middle));
}

#[test]
fn coordinate_normalisation() {
    let controller = InputController::new(1920, 1080);
    let evt = event(Event::MouseMove(MouseMove { x: 0.5f32.to_bits(), y: 0.75f32.to_bits() }));
    match controller.handle(&evt).as_slice() {
        [InputAction::MoveMouse { x, y, screen_width, screen_height }] => {
            let px = (f32::from_bits(*x) as f64 * *screen_width as f64) as i32;
            let py = (f32::from_bits(*y) as f64 * *screen_height as f64) as i32;
            assert_eq!(px, 960);
            assert_eq!(py, 810);
        }
        other => panic!("unexpected actions: {other:?}"),
    }
    let px = (0.5f64 * 1920f64) as i32;
    let py = (0.75f64 * 1080f64) as i32;
    assert_eq!(px, 960);
    assert_eq!(py, 810);
}

#[test]
fn every_key_name_has_its_key() {
    let names = [
        ("Return", Key::Return),
        ("Enter", Key::Return),
        ("Escape", Key::Escape),
        ("Backspace", Key::Backspace),
        ("Tab", Key::Tab),
        ("Space", Key::Space),
        (" ", Key::Space),
        ("Delete", Key::Delete),
        ("Home", Key::Home),
        ("End", Key::End),
        ("PageUp", Key::PageUp),
        ("PageDown", Key::PageDown),
        ("ArrowLeft", Key::LeftArrow),
        ("Left", Key::LeftArrow),
        ("ArrowRight", Key::RightArrow),
        ("Right", Key::RightArrow),
        ("ArrowUp", Key::UpArrow),
        ("Up", Key::UpArrow),
        ("ArrowDown", Key::DownArrow),
        ("Down", Key::DownArrow),
        ("F1", Key::F1),
        ("F2", Key::F2),
        ("F3", Key::F3),
        ("F4", Key::F4),
        ("F5", Key::F5),
        ("F6", Key::F6),
        ("F7", Key::F7),
        ("F8", Key::F8),
        ("F9", Key::F9),
        ("F10", Key::F10),
        ("F11", Key::F11),
        ("F12", Key::F12),
        ("Control", Key::Control),
        ("ControlLeft", Key::Control),
        ("ControlRight", Key::Control),
        ("Shift", Key::Shift),
        ("ShiftLeft", Key::Shift),
        ("ShiftRight", Key::Shift),
        ("Alt", Key::Alt),
        ("AltLeft", Key::Alt),
        ("AltRight", Key::Alt),
        ("Meta", Key::Meta),
        ("MetaLeft", Key::Meta),
        ("MetaRight", Key::Meta),
    ];
    for (name, key) in names {
        assert_eq!(map_key(name), key, "{name}");
    }
}

#[test]
fn unknown_keys_go_by_their_first_character() {
    assert_eq!(map_key("\u{e9}"), Key::Unicode('\u{e9}'));
    assert_eq!(map_key("F13"), Key::Other('F' as u32));
    assert_eq!(map_key("\u{4e2d}\u{6587}"), Key::Other(0x4e2d));
    assert_eq!(map_key(""), Key::Other('?' as u32));
}

#[test]
fn unknown_buttons_are_the_left_one() {
    assert_eq!(map_button(""), Button::Left);
    assert_eq!(map_button("Right"), Button::Left);
}

#[test]
fn events_become_actions() {
    let controller = InputController::new(1920, 1080);
    let press = event(Event::MouseButton(MouseButton { button: "right".into(), pressed: true }));
    assert_eq!(
        controller.handle(&press),
        vec![InputAction::Button(Button::Right, Direction::Press)]
    );
    let release = event(Event::Key(KeyEvent { key: "Tab".into(), pressed: false }));
    assert_eq!(controller.handle(&release), vec![InputAction::Key(Key::Tab, Direction::Release)]);
    assert_eq!(controller.handle(&InputEvent { event: None }), vec![]);
}

#[test]
fn scrolling_leaves_out_still_axes() {
    let controller = InputController::new(1920, 1080);
    let scroll = |dx, dy| controller.handle(&event(Event::MouseScroll(MouseScroll { dx, dy })));
    assert_eq!(
        scroll(3, -2),
        vec![
            InputAction::Scroll(3, Axis::Horizontal),
            InputAction::Scroll(-2, Axis::Vertical)
        ]
    );
    assert_eq!(scroll(0, 5), vec![InputAction::Scroll(5, Axis::Vertical)]);
    assert_eq!(scroll(-1, 0), vec![InputAction::Scroll(-1, Axis::Horizontal)]);
    assert_eq!(scroll(0, 0), vec![]);
}

#[test]
fn screen_size_can_change() {
    let mut controller = InputController::new(1920, 1080);
    controller.set_screen_size(800, 600);
    let evt = event(Event::MouseMove(MouseMove { x: 1, y: 2 }));
    assert_eq!(
        controller.handle(&evt),
        vec![InputAction::MoveMouse { x: 1, y: 2, screen_width: 800, screen_height: 600 }]
    );
}
