//! Input injection: what a client's input events have the host do.

use crate::messages::{Event, InputEvent};
use crate::text;
use vstd::prelude::*;
use vstd::string::*;

verus! {

/// A mouse button.
#[derive(Clone, Copy, Debug, PartialEq, Eq, Structural)]
pub enum Button {
    Left,
    Right,
    Middle,
}

/// A key of the keyboard.
#[derive(Clone, Copy, Debug, PartialEq, Eq, Structural)]
pub enum Key {
    Return,
    Escape,
    Backspace,
    Tab,
    Space,
    Delete,
    Home,
    End,
    PageUp,
    PageDown,
    LeftArrow,
    RightArrow,
    UpArrow,
    DownArrow,
    F1,
    F2,
    F3,
    F4,
    F5,
    F6,
    F7,
    F8,
    F9,
    F10,
    F11,
    F12,
    Control,
    Shift,
    Alt,
    Meta,
    /// The key that types a character.
    Unicode(char),
    /// A key known by its code alone.
    Other(u32),
}

/// Whether a button or key goes down or up.
#[derive(Clone, Copy, Debug, PartialEq, Eq, Structural)]
pub enum Direction {
    Press,
    Release,
}

#[derive(Clone, Copy, Debug, PartialEq, Eq, Structural)]
pub enum Axis {
    Horizontal,
    Vertical,
}

/// One thing to inject.
#[derive(Clone, Copy, Debug, PartialEq, Eq, Structural)]
pub enum InputAction {
    /// Move the pointer to a fraction of the screen: the coordinates are the
    /// bit patterns of two single-precision numbers, to be multiplied by the
    /// screen's width and height.
    MoveMouse { x: u32, y: u32, screen_width: u32, screen_height: u32 },
    Button(Button, Direction),
    Scroll(i32, Axis),
    Key(Key, Direction),
}

/// The button of a name; the left one for a name that is not known.
pub open spec fn button_named(name: Seq<char>) -> Button {
    if name == "right"@ {
        Button::Right
    } else if name == "middle"@ {
        Button::Middle
    } else {
        Button::Left
    }
}

/// The button of a name; the left one for a name that is not known.
pub fn map_button(btn: &str) -> (button: Button)
    ensures
        button == button_named(btn@),
{
    if text::same_text(btn, "right") {
        Button::Right
    } else if text::same_text(btn, "middle") {
        Button::Middle
    } else {
        Button::Left
    }
}

/// The key of a name. A name that is not known stands for the character it
/// consists of, or, if it is longer, for the code of its first character; the
/// empty name for the code of the question mark.
pub open spec fn key_named(name: Seq<char>) -> Key {
    if name == "Return"@ || name == "Enter"@ {
        Key::Return
    } else if name == "Escape"@ {
        Key::Escape
    } else if name == "Backspace"@ {
        Key::Backspace
    } else if name == "Tab"@ {
        Key::Tab
    } else if name == "Space"@ || name == " "@ {
        Key::Space
    } else if name == "Delete"@ {
        Key::Delete
    } else if name == "Home"@ {
        Key::Home
    } else if name == "End"@ {
        Key::End
    } else if name == "PageUp"@ {
        Key::PageUp
    } else if name == "PageDown"@ {
        Key::PageDown
    } else if name == "ArrowLeft"@ || name == "Left"@ {
        Key::LeftArrow
    } else if name == "ArrowRight"@ || name == "Right"@ {
        Key::RightArrow
    } else if name == "ArrowUp"@ || name == "Up"@ {
        Key::UpArrow
    } else if name == "ArrowDown"@ || name == "Down"@ {
        Key::DownArrow
    } else if name == "F1"@ {
        Key::F1
    } else if name == "F2"@ {
        Key::F2
    } else if name == "F3"@ {
        Key::F3
    } else if name == "F4"@ {
        Key::F4
    } else if name == "F5"@ {
        Key::F5
    } else if name == "F6"@ {
        Key::F6
    } else if name == "F7"@ {
        Key::F7
    } else if name == "F8"@ {
        Key::F8
    } else if name == "F9"@ {
        Key::F9
    } else if name == "F10"@ {
        Key::F10
    } else if name == "F11"@ {
        Key::F11
    } else if name == "F12"@ {
        Key::F12
    } else if name == "Control"@ || name == "ControlLeft"@ || name == "ControlRight"@ {
        Key::Control
    } else if name == "Shift"@ || name == "ShiftLeft"@ || name == "ShiftRight"@ {
        Key::Shift
    } else if name == "Alt"@ || name == "AltLeft"@ || name == "AltRight"@ {
        Key::Alt
    } else if name == "Meta"@ || name == "MetaLeft"@ || name == "MetaRight"@ {
        Key::Meta
    } else if name.len() == 1 {
        Key::Unicode(name[0])
    } else if name.len() == 0 {
        Key::Other('?' as u32)
    } else {
        Key::Other(name[0] as u32)
    }
}

/// The names that stand for a key of their own.
pub open spec fn is_key_name(name: Seq<char>) -> bool {
    ||| name == "Return"@
    ||| name == "Enter"@
    ||| name == "Escape"@
    ||| name == "Backspace"@
    ||| name == "Tab"@
    ||| name == "Space"@
    ||| name == " "@
    ||| name == "Delete"@
    ||| name == "Home"@
    ||| name == "End"@
    ||| name == "PageUp"@
    ||| name == "PageDown"@
    ||| name == "ArrowLeft"@
    ||| name == "Left"@
    ||| name == "ArrowRight"@
    ||| name == "Right"@
    ||| name == "ArrowUp"@
    ||| name == "Up"@
    ||| name == "ArrowDown"@
    ||| name == "Down"@
    ||| name == "F1"@
    ||| name == "F2"@
    ||| name == "F3"@
    ||| name == "F4"@
    ||| name == "F5"@
    ||| name == "F6"@
    ||| name == "F7"@
    ||| name == "F8"@
    ||| name == "F9"@
    ||| name == "F10"@
    ||| name == "F11"@
    ||| name == "F12"@
    ||| name == "Control"@
    ||| name == "ControlLeft"@
    ||| name == "ControlRight"@
    ||| name == "Shift"@
    ||| name == "ShiftLeft"@
    ||| name == "ShiftRight"@
    ||| name == "Alt"@
    ||| name == "AltLeft"@
    ||| name == "AltRight"@
    ||| name == "Meta"@
    ||| name == "MetaLeft"@
    ||| name == "MetaRight"@
}

/// Every key is reached by its own names only: a named key by its names, the key
/// of a character by that character alone, and a code by a text that names no
/// key and is no single character. So a name can stand for no other key.
pub proof fn law_keys_are_reached_by_their_names(name: Seq<char>)
    ensures
        key_named(name) is Return ==> name == "Return"@ || name == "Enter"@,
        key_named(name) is Escape ==> name == "Escape"@,
        key_named(name) is Backspace ==> name == "Backspace"@,
        key_named(name) is Tab ==> name == "Tab"@,
        key_named(name) is Space ==> name == "Space"@ || name == " "@,
        key_named(name) is Delete ==> name == "Delete"@,
        key_named(name) is Home ==> name == "Home"@,
        key_named(name) is End ==> name == "End"@,
        key_named(name) is PageUp ==> name == "PageUp"@,
        key_named(name) is PageDown ==> name == "PageDown"@,
        key_named(name) is LeftArrow ==> name == "ArrowLeft"@ || name == "Left"@,
        key_named(name) is RightArrow ==> name == "ArrowRight"@ || name == "Right"@,
        key_named(name) is UpArrow ==> name == "ArrowUp"@ || name == "Up"@,
        key_named(name) is DownArrow ==> name == "ArrowDown"@ || name == "Down"@,
        key_named(name) is F1 ==> name == "F1"@,
        key_named(name) is F2 ==> name == "F2"@,
        key_named(name) is F3 ==> name == "F3"@,
        key_named(name) is F4 ==> name == "F4"@,
        key_named(name) is F5 ==> name == "F5"@,
        key_named(name) is F6 ==> name == "F6"@,
        key_named(name) is F7 ==> name == "F7"@,
        key_named(name) is F8 ==> name == "F8"@,
        key_named(name) is F9 ==> name == "F9"@,
        key_named(name) is F10 ==> name == "F10"@,
        key_named(name) is F11 ==> name == "F11"@,
        key_named(name) is F12 ==> name == "F12"@,
        key_named(name) is Control ==> {
            ||| name == "Control"@
            ||| name == "ControlLeft"@
            ||| name == "ControlRight"@
        },
        key_named(name) is Shift ==> {
            ||| name == "Shift"@
            ||| name == "ShiftLeft"@
            ||| name == "ShiftRight"@
        },
        key_named(name) is Alt ==> name == "Alt"@ || name == "AltLeft"@ || name == "AltRight"@,
        key_named(name) is Meta ==> name == "Meta"@ || name == "MetaLeft"@ || name == "MetaRight"@,
        key_named(name) matches Key::Unicode(c) ==> name == seq![c] && !is_key_name(name),
        key_named(name) matches Key::Other(code) ==> {
            &&& !is_key_name(name)
            &&& name.len() != 1
            &&& name.len() == 0 ==> code == 63
            &&& name.len() > 1 ==> code == name[0] as u32
        },
{
    if name.len() == 1 {
        assert(name =~= seq![name[0]]);
    }
}

/// Every button is reached by its name; all other names are the left one's.
pub proof fn law_buttons_are_reached_by_their_names(name: Seq<char>)
    ensures
        button_named(name) is Right ==> name == "right"@,
        button_named(name) is Middle ==> name == "middle"@,
        button_named(name) is Left ==> name != "right"@ && name != "middle"@,
{
}

/// The key of a name.
pub fn map_key(key: &str) -> (res: Key)
    ensures
        res == key_named(key@),
{
    if text::same_text(key, "Return") || text::same_text(key, "Enter") {
        Key::Return
    } else if text::same_text(key, "Escape") {
        Key::Escape
    } else if text::same_text(key, "Backspace") {
        Key::Backspace
    } else if text::same_text(key, "Tab") {
        Key::Tab
    } else if text::same_text(key, "Space") || text::same_text(key, " ") {
        Key::Space
    } else if text::same_text(key, "Delete") {
        Key::Delete
    } else if text::same_text(key, "Home") {
        Key::Home
    } else if text::same_text(key, "End") {
        Key::End
    } else if text::same_text(key, "PageUp") {
        Key::PageUp
    } else if text::same_text(key, "PageDown") {
        Key::PageDown
    } else if text::same_text(key, "ArrowLeft") || text::same_text(key, "Left") {
        Key::LeftArrow
    } else if text::same_text(key, "ArrowRight") || text::same_text(key, "Right") {
        Key::RightArrow
    } else if text::same_text(key, "ArrowUp") || text::same_text(key, "Up") {
        Key::UpArrow
    } else if text::same_text(key, "ArrowDown") || text::same_text(key, "Down") {
        Key::DownArrow
    } else if text::same_text(key, "F1") {
        Key::F1
    } else if text::same_text(key, "F2") {
        Key::F2
    } else if text::same_text(key, "F3") {
        Key::F3
    } else if text::same_text(key, "F4") {
        Key::F4
    } else if text::same_text(key, "F5") {
        Key::F5
    } else if text::same_text(key, "F6") {
        Key::F6
    } else if text::same_text(key, "F7") {
        Key::F7
    } else if text::same_text(key, "F8") {
        Key::F8
    } else if text::same_text(key, "F9") {
        Key::F9
    } else if text::same_text(key, "F10") {
        Key::F10
    } else if text::same_text(key, "F11") {
        Key::F11
    } else if text::same_text(key, "F12") {
        Key::F12
    } else if text::same_text(key, "Control") || text::same_text(key, "ControlLeft") || text::same_text(key, "ControlRight") {
        Key::Control
    } else if text::same_text(key, "Shift") || text::same_text(key, "ShiftLeft") || text::same_text(key, "ShiftRight") {
        Key::Shift
    } else if text::same_text(key, "Alt") || text::same_text(key, "AltLeft") || text::same_text(key, "AltRight") {
        Key::Alt
    } else if text::same_text(key, "Meta") || text::same_text(key, "MetaLeft") || text::same_text(key, "MetaRight") {
        Key::Meta
    } else {
        let count: usize = key.unicode_len();
        if count == 1 {
            Key::Unicode(key.get_char(0))
        } else if count == 0 {
            Key::Other('?' as u32)
        } else {
            Key::Other(key.get_char(0) as u32)
        }
    }
}

impl Direction {
    /// The direction for the state of a button or key.
    pub open spec fn of(pressed: bool) -> Direction {
        if pressed {
            Direction::Press
        } else {
            Direction::Release
        }
    }
}

/// What an input event has the host do on a screen of the given size.
pub open spec fn actions_for(evt: InputEvent, width: u32, height: u32) -> Seq<InputAction> {
    match evt.event {
        Some(Event::MouseMove(m)) => seq![
            InputAction::MoveMouse { x: m.x, y: m.y, screen_width: width, screen_height: height },
        ],
        Some(Event::MouseButton(mb)) => seq![
            InputAction::Button(button_named(mb.button@), Direction::of(mb.pressed)),
        ],
        Some(Event::MouseScroll(ms)) => {
            let horizontal = if ms.dx != 0 {
                seq![InputAction::Scroll(ms.dx, Axis::Horizontal)]
            } else {
                Seq::empty()
            };
            let vertical = if ms.dy != 0 {
                seq![InputAction::Scroll(ms.dy, Axis::Vertical)]
            } else {
                Seq::empty()
            };
            horizontal + vertical
        },
        Some(Event::Key(k)) => seq![
            InputAction::Key(key_named(k.key@), Direction::of(k.pressed)),
        ],
        None => Seq::empty(),
    }
}

/// A button or key goes the way the event says: there is exactly one action, on
/// the button or key of the event's name, down if and only if it was pressed.
pub proof fn law_buttons_and_keys_go_the_way_the_event_says(
    evt: InputEvent,
    width: u32,
    height: u32,
)
    ensures
        evt.event matches Some(Event::MouseButton(mb)) ==> {
            let actions = actions_for(evt, width, height);
            &&& actions.len() == 1
            &&& actions[0] matches InputAction::Button(button, direction)
            &&& button == button_named(mb.button@)
            &&& direction is Press <==> mb.pressed
            &&& direction is Release <==> !mb.pressed
        },
        evt.event matches Some(Event::Key(k)) ==> {
            let actions = actions_for(evt, width, height);
            &&& actions.len() == 1
            &&& actions[0] matches InputAction::Key(key, direction)
            &&& key == key_named(k.key@)
            &&& direction is Press <==> k.pressed
            &&& direction is Release <==> !k.pressed
        },
{
}

/// What goes down comes up: a press and a release by the same name move the same
/// button or key, first down, then up.
pub proof fn law_release_undoes_press(down: InputEvent, up: InputEvent, width: u32, height: u32)
    ensures
        (down.event, up.event) matches (Some(Event::MouseButton(d)), Some(Event::MouseButton(u)))
            ==> (d.button@ == u.button@ && d.pressed && !u.pressed ==> {
            let (before, after) = (
                actions_for(down, width, height)[0],
                actions_for(up, width, height)[0],
            );
            &&& before matches InputAction::Button(b, Direction::Press)
            &&& after == InputAction::Button(b, Direction::Release)
        }),
        (down.event, up.event) matches (Some(Event::Key(d)), Some(Event::Key(u))) ==> (d.key@
            == u.key@ && d.pressed && !u.pressed ==> {
            let (before, after) = (
                actions_for(down, width, height)[0],
                actions_for(up, width, height)[0],
            );
            &&& before matches InputAction::Key(k, Direction::Press)
            &&& after == InputAction::Key(k, Direction::Release)
        }),
{
}

/// The pointer moves to the event's own place on a screen of the given size, and
/// nothing else happens.
pub proof fn law_pointer_moves_to_its_place(evt: InputEvent, width: u32, height: u32)
    ensures
        evt.event matches Some(Event::MouseMove(m)) ==> {
            let actions = actions_for(evt, width, height);
            &&& actions.len() == 1
            &&& actions[0] matches InputAction::MoveMouse { x, y, screen_width, screen_height }
            &&& x == m.x
            &&& y == m.y
            &&& screen_width == width
            &&& screen_height == height
        },
{
}

/// Scrolling goes by the event's own steps, sideways first, and leaves a still
/// axis alone; an empty event does nothing.
pub proof fn law_scrolling_goes_by_the_steps(evt: InputEvent, width: u32, height: u32)
    ensures
        evt.event matches Some(Event::MouseScroll(ms)) ==> {
            let actions = actions_for(evt, width, height);
            &&& actions.contains(InputAction::Scroll(ms.dx, Axis::Horizontal)) <==> ms.dx != 0
            &&& actions.contains(InputAction::Scroll(ms.dy, Axis::Vertical)) <==> ms.dy != 0
            &&& ms.dx != 0 ==> actions[0] == InputAction::Scroll(ms.dx, Axis::Horizontal)
            &&& forall|i: int|
                0 <= i < actions.len() ==> (#[trigger] actions[i] == InputAction::Scroll(
                    ms.dx,
                    Axis::Horizontal,
                ) || actions[i] == InputAction::Scroll(ms.dy, Axis::Vertical))
            &&& ms.dx != 0 && ms.dy != 0 ==> actions.len() == 2
            &&& ms.dx == 0 || ms.dy == 0 ==> actions.len() <= 1
        },
        evt.event is None ==> actions_for(evt, width, height).len() == 0,
{
    if let Some(Event::MouseScroll(ms)) = evt.event {
        let actions = actions_for(evt, width, height);
        if ms.dx != 0 {
            assert(actions[0] == InputAction::Scroll(ms.dx, Axis::Horizontal));
        }
        if ms.dy != 0 {
            assert(actions[actions.len() - 1] == InputAction::Scroll(ms.dy, Axis::Vertical));
        }
    }
}

/// Turns input events into actions on a screen of a known size.
pub struct InputController {
    pub screen_width: u32,
    pub screen_height: u32,
}

impl InputController {
    pub fn new(screen_width: u32, screen_height: u32) -> (controller: Self)
        ensures
            controller.screen_width == screen_width,
            controller.screen_height == screen_height,
    {
        InputController { screen_width, screen_height }
    }

    /// What an input event has the host do, in order.
    pub fn handle(&self, evt: &InputEvent) -> (actions: Vec<InputAction>)
        ensures
            actions@ == actions_for(*evt, self.screen_width, self.screen_height),
            match evt.event {
                Some(Event::MouseMove(m)) => {
                    &&& actions@.len() == 1
                    &&& actions@[0] == (InputAction::MoveMouse {
                        x: m.x,
                        y: m.y,
                        screen_width: self.screen_width,
                        screen_height: self.screen_height,
                    })
                },
                Some(Event::MouseButton(mb)) => {
                    &&& actions@.len() == 1
                    &&& actions@[0] matches InputAction::Button(button, direction)
                    &&& button == button_named(mb.button@)
                    &&& direction is Press <==> mb.pressed
                    &&& direction is Release <==> !mb.pressed
                },
                Some(Event::MouseScroll(ms)) => {
                    &&& ms.dx == 0 && ms.dy == 0 ==> actions@.len() == 0
                    &&& ms.dx != 0 ==> actions@.first() == InputAction::Scroll(
                        ms.dx,
                        Axis::Horizontal,
                    )
                    &&& ms.dy != 0 ==> actions@.last() == InputAction::Scroll(
                        ms.dy,
                        Axis::Vertical,
                    )
                    &&& ms.dx != 0 && ms.dy != 0 ==> actions@.len() == 2
                    &&& ms.dx != 0 && ms.dy == 0 ==> actions@.len() == 1
                    &&& ms.dx == 0 && ms.dy != 0 ==> actions@.len() == 1
                },
                Some(Event::Key(k)) => {
                    &&& actions@.len() == 1
                    &&& actions@[0] matches InputAction::Key(key, direction)
                    &&& key == key_named(k.key@)
                    &&& direction is Press <==> k.pressed
                    &&& direction is Release <==> !k.pressed
                },
                None => actions@.len() == 0,
            },
    {
        let mut actions: Vec<InputAction> = Vec::new();
        match &evt.event {
            Some(Event::MouseMove(m)) => {
                actions.push(
                    InputAction::MoveMouse {
                        x: m.x,
                        y: m.y,
                        screen_width: self.screen_width,
                        screen_height: self.screen_height,
                    },
                );
            },
            Some(Event::MouseButton(mb)) => {
                let dir = if mb.pressed { Direction::Press } else { Direction::Release };
                actions.push(InputAction::Button(map_button(mb.button.as_str()), dir));
            },
            Some(Event::MouseScroll(ms)) => {
                if ms.dx != 0 {
                    actions.push(InputAction::Scroll(ms.dx, Axis::Horizontal));
                }
                if ms.dy != 0 {
                    actions.push(InputAction::Scroll(ms.dy, Axis::Vertical));
                }
            },
            Some(Event::Key(k)) => {
                let dir = if k.pressed { Direction::Press } else { Direction::Release };
                actions.push(InputAction::Key(map_key(k.key.as_str()), dir));
            },
            None => {},
        }
        assert(actions@ =~= actions_for(*evt, self.screen_width, self.screen_height));
        actions
    }

    /// Takes note of a new screen size.
    pub fn set_screen_size(&mut self, width: u32, height: u32)
        ensures
            final(self).screen_width == width,
            final(self).screen_height == height,
    {
        self.screen_width = width;
        self.screen_height = height;
    }
}

} // verus!
