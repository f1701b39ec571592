//! The desktop application's commands: what each does to the state, and what it
//! has the application do.

use crate::identity;
use crate::messages::{Event, InputEvent, KeyEvent, MouseButton, MouseMove, MouseScroll};
use crate::relay_client::UiEvent;
use crate::state::{AppRole, AppState};
use crate::text;
use vstd::prelude::*;
use vstd::string::*;

verus! {

/// Sets the server to connect to.
pub fn set_server_url<S, I>(state: &mut AppState<S, I>, url: String)
    ensures
        *final(state) == (AppState { server_url: url, ..*old(state) }),
{
    state.server_url = url;
}

/// The device's ID, and whether it has to be written to disk.
pub enum DeviceId {
    /// The ID that was on disk.
    Stored(String),
    /// A new one.
    Created(String),
}

/// The ID that the text stored on disk holds, if there is any.
pub open spec fn stored_id(stored: Option<String>) -> Option<Seq<char>> {
    match stored {
        Some(s) if text::trimmed(s@).len() != 0 => Some(text::trimmed(s@)),
        _ => None,
    }
}

/// The ID that the text stored on disk holds, if there is any.
fn read_id(stored: &Option<String>) -> (id: Option<String>)
    ensures
        match id {
            Some(text) => stored_id(*stored) == Some(text@),
            None => stored_id(*stored) is None,
        },
{
    if let Some(s) = stored {
        let id = text::trim(s.as_str());
        if !id.is_empty() {
            return Some(id.to_owned());
        }
    }
    None
}

/// Takes the ID from the text stored on disk, or makes one from `bytes` if
/// there is none or it is blank.
pub fn device_id_with(stored: Option<String>, bytes: [u8; 16]) -> (id: DeviceId)
    ensures
        match id {
            DeviceId::Stored(text) => stored_id(stored) == Some(text@),
            DeviceId::Created(text) => stored_id(stored) is None && text@
                == identity::device_id_text(bytes@),
        },
        match id {
            DeviceId::Stored(text) => text@.len() > 0 && (stored matches Some(s) && text@
                == text::trimmed(s@)),
            DeviceId::Created(_) => stored matches Some(s) ==> text::trimmed(s@).len() == 0,
        },
{
    match read_id(&stored) {
        Some(id) => DeviceId::Stored(id),
        None => DeviceId::Created(identity::device_id_from(bytes)),
    }
}

/// The device's ID: the one stored on disk, or a new random one if there is
/// none or it is blank.
pub fn get_or_create_device_id(stored: Option<String>) -> (id: DeviceId)
    ensures
        match id {
            DeviceId::Stored(text) => stored_id(stored) == Some(text@),
            DeviceId::Created(text) => stored_id(stored) is None && exists|bytes: Seq<u8>|
                #[trigger]
                identity::is_uuid_v4(bytes) && text@ == identity::device_id_text(bytes),
        },
        match id {
            DeviceId::Stored(text) => text@.len() > 0 && (stored matches Some(s) && text@
                == text::trimmed(s@)),
            DeviceId::Created(text) => text@.len() == 8 && (stored matches Some(s)
                ==> text::trimmed(s@).len() == 0),
        },
{
    match read_id(&stored) {
        Some(id) => DeviceId::Stored(id),
        None => DeviceId::Created(identity::new_device_id()),
    }
}

/// How a room is created.
pub enum CreateRoom {
    /// It already exists: the device's ID.
    Hosting(String),
    /// Register the device with the server first.
    Register { server_url: String, device_id: String },
}

/// The room that is already being hosted.
pub open spec fn hosted_room<S, I>(state: AppState<S, I>) -> Option<String> {
    if state.role == AppRole::Host {
        state.room_id
    } else {
        None
    }
}

/// The ID to register with: the given one, else the one stored on disk, else
/// none.
pub open spec fn local_device_id(device_id: Option<String>, stored: Option<String>) -> Seq<char> {
    match device_id {
        Some(id) => id@,
        None => match stored {
            Some(s) => text::trimmed(s@),
            None => Seq::empty(),
        },
    }
}

/// Starts creating a room: the one that is already hosted is kept, otherwise
/// the device is to be registered. `stored` is the text of the ID file, needed
/// where no ID is given.
pub fn create_room<S, I>(
    state: &AppState<S, I>,
    device_id: Option<String>,
    stored: Option<String>,
) -> (step: CreateRoom)
    ensures
        match step {
            CreateRoom::Hosting(id) => hosted_room(*state) == Some(id),
            CreateRoom::Register { server_url, device_id: id } => {
                &&& hosted_room(*state) is None
                &&& server_url == state.server_url
                &&& id@ == local_device_id(device_id, stored)
            },
        },
        step is Hosting <==> state.role is Host && state.room_id is Some,
        step matches CreateRoom::Hosting(id) ==> state.room_id == Some(id),
        step matches CreateRoom::Register { server_url, device_id: id } ==> {
            &&& server_url == state.server_url
            &&& device_id matches Some(given) ==> id@ == given@
            &&& device_id is None ==> (stored matches Some(s) ==> id@ == text::trimmed(s@))
            &&& device_id is None && stored is None ==> id@.len() == 0
        },
{
    if state.role == AppRole::Host {
        if let Some(id) = &state.room_id {
            return CreateRoom::Hosting(id.clone());
        }
    }
    let local_id = match device_id {
        Some(id) => id,
        None => match stored {
            Some(s) => text::trim(s.as_str()).to_owned(),
            None => String::new(),
        },
    };
    CreateRoom::Register { server_url: state.server_url.clone(), device_id: local_id }
}

/// The state once the server confirmed the device's ID and the session that
/// hosts it was started.
pub open spec fn hosting<S, I>(
    state: AppState<S, I>,
    confirmed_id: String,
    stop_tx: S,
    input_tx: I,
) -> AppState<S, I> {
    AppState {
        role: AppRole::Host,
        room_id: Some(confirmed_id),
        stop_tx: Some(stop_tx),
        input_tx: Some(input_tx),
        ..state
    }
}

/// Takes note that the device is being hosted under the ID that the server
/// confirmed.
pub fn room_created<S, I>(
    state: &mut AppState<S, I>,
    confirmed_id: String,
    stop_tx: S,
    input_tx: I,
)
    ensures
        *final(state) == hosting(*old(state), confirmed_id, stop_tx, input_tx),
        final(state).role is Host,
        final(state).room_id == Some(confirmed_id),
        final(state).stop_tx == Some(stop_tx),
        final(state).input_tx == Some(input_tx),
        final(state).server_url == old(state).server_url,
{
    state.role = AppRole::Host;
    state.room_id = Some(confirmed_id);
    state.input_tx = Some(input_tx);
    state.stop_tx = Some(stop_tx);
}

/// The state once a session that controls another device was started.
pub open spec fn controlling<S, I>(state: AppState<S, I>, stop_tx: S, input_tx: I) -> AppState<
    S,
    I,
> {
    AppState {
        role: AppRole::Client,
        stop_tx: Some(stop_tx),
        input_tx: Some(input_tx),
        ..state
    }
}

/// Starts a session that controls another device, through the server whose URL
/// is returned.
pub fn join_room<S, I>(state: &mut AppState<S, I>, stop_tx: S, input_tx: I) -> (server_url: String)
    ensures
        *final(state) == controlling(*old(state), stop_tx, input_tx),
        final(state).role is Client,
        final(state).room_id == old(state).room_id,
        final(state).stop_tx == Some(stop_tx),
        final(state).input_tx == Some(input_tx),
        final(state).server_url == old(state).server_url,
        server_url == old(state).server_url,
{
    state.input_tx = Some(input_tx);
    state.stop_tx = Some(stop_tx);
    state.role = AppRole::Client;
    state.server_url.clone()
}

/// What joining a room comes to, given what the session signalled: nothing if
/// it ended without a signal.
pub fn join_room_result(signal: Option<Result<(), String>>) -> (res: Result<(), String>)
    ensures
        match (signal, res) {
            (Some(outcome), _) => res == outcome,
            (None, Ok(())) => false,
            (None, Err(error)) => error@ == "connection task dropped before join result"@,
        },
{
    match signal {
        Some(outcome) => outcome,
        None => Err("connection task dropped before join result".to_owned()),
    }
}

/// Where an input event goes: the event and the handle that takes it, or
/// nowhere while no session is running.
pub open spec fn routed<S, I>(state: AppState<S, I>, event: Event) -> Option<(I, InputEvent)> {
    match state.input_tx {
        Some(tx) => Some((tx, InputEvent { event: Some(event) })),
        None => None,
    }
}

/// Sends an input event on, if a session is running.
fn send_input_event<S, I>(state: &AppState<S, I>, event: Event) -> (res: Option<(&I, InputEvent)>)
    ensures
        match res {
            Some((tx, evt)) => routed(*state, event) == Some((*tx, evt)),
            None => routed(*state, event) is None,
        },
        res is Some <==> state.input_tx is Some,
        res matches Some((tx, evt)) ==> state.input_tx == Some(*tx) && evt.event == Some(event),
{
    match &state.input_tx {
        Some(tx) => Some((tx, InputEvent { event: Some(event) })),
        None => None,
    }
}

/// Sends a mouse-move input event (client mode). The coordinates are the bit
/// patterns of two single-precision numbers.
pub fn send_mouse_move<S, I>(state: &AppState<S, I>, x: u32, y: u32) -> (res: Option<
    (&I, InputEvent),
>)
    ensures
        match res {
            Some((tx, evt)) => routed(*state, Event::MouseMove(MouseMove { x, y })) == Some(
                (*tx, evt),
            ),
            None => state.input_tx is None,
        },
        res is Some <==> state.input_tx is Some,
        res matches Some((tx, evt)) ==> state.input_tx == Some(*tx) && evt.event == Some(
            Event::MouseMove(MouseMove { x, y }),
        ),
{
    send_input_event(state, Event::MouseMove(MouseMove { x, y }))
}

/// Sends a mouse-button input event (client mode).
pub fn send_mouse_button<S, I>(state: &AppState<S, I>, button: String, pressed: bool) -> (res:
    Option<(&I, InputEvent)>)
    ensures
        match res {
            Some((tx, evt)) => routed(
                *state,
                Event::MouseButton(MouseButton { button, pressed }),
            ) == Some((*tx, evt)),
            None => state.input_tx is None,
        },
        res is Some <==> state.input_tx is Some,
        res matches Some((tx, evt)) ==> state.input_tx == Some(*tx) && evt.event == Some(
            Event::MouseButton(MouseButton { button, pressed }),
        ),
{
    send_input_event(state, Event::MouseButton(MouseButton { button, pressed }))
}

/// Sends a mouse-scroll input event (client mode).
pub fn send_mouse_scroll<S, I>(state: &AppState<S, I>, dx: i32, dy: i32) -> (res: Option<
    (&I, InputEvent),
>)
    ensures
        match res {
            Some((tx, evt)) => routed(*state, Event::MouseScroll(MouseScroll { dx, dy })) == Some(
                (*tx, evt),
            ),
            None => state.input_tx is None,
        },
        res is Some <==> state.input_tx is Some,
        res matches Some((tx, evt)) ==> state.input_tx == Some(*tx) && evt.event == Some(
            Event::MouseScroll(MouseScroll { dx, dy }),
        ),
{
    send_input_event(state, Event::MouseScroll(MouseScroll { dx, dy }))
}

/// Sends a key input event (client mode).
pub fn send_key<S, I>(state: &AppState<S, I>, key: String, pressed: bool) -> (res: Option<
    (&I, InputEvent),
>)
    ensures
        match res {
            Some((tx, evt)) => routed(*state, Event::Key(KeyEvent { key, pressed })) == Some(
                (*tx, evt),
            ),
            None => state.input_tx is None,
        },
        res is Some <==> state.input_tx is Some,
        res matches Some((tx, evt)) ==> state.input_tx == Some(*tx) && evt.event == Some(
            Event::Key(KeyEvent { key, pressed }),
        ),
{
    send_input_event(state, Event::Key(KeyEvent { key, pressed }))
}

/// Takes note that a session is over, with the given result: what the user
/// interface is told.
pub fn session_ended<S, I>(state: &mut AppState<S, I>, result: Result<(), String>) -> (emit: Option<
    UiEvent,
>)
    ensures
        *final(state) == old(state).after_session(),
        final(state).role is Idle,
        final(state).stop_tx is None,
        final(state).input_tx is None,
        final(state).room_id == old(state).room_id,
        final(state).server_url == old(state).server_url,
        emit == match result {
            Ok(()) => None,
            Err(reason) => Some(UiEvent::ConnectionError(reason)),
        },
{
    state.reset();
    match result {
        Ok(()) => None,
        Err(reason) => Some(UiEvent::ConnectionError(reason)),
    }
}

/// Ends the running session: returns the handle that stops it, if there is one,
/// and resets the state.
pub fn disconnect<S, I>(state: &mut AppState<S, I>) -> (stop: Option<S>)
    ensures
        stop == old(state).stop_tx,
        *final(state) == old(state).after_session(),
        final(state).role is Idle,
        final(state).stop_tx is None,
        final(state).input_tx is None,
        final(state).room_id == old(state).room_id,
        final(state).server_url == old(state).server_url,
{
    let stop = state.stop_tx.take();
    state.reset();
    stop
}

/// A device keeps its ID: once a new one has been written to disk, it is found
/// there.
pub proof fn law_created_id_is_found_again(bytes: Seq<u8>, stored: Option<String>)
    requires
        bytes.len() == 16,
        stored matches Some(s) && s@ == identity::device_id_text(bytes),
    ensures
        stored_id(stored) == Some(identity::device_id_text(bytes)),
{
    let id = identity::device_id_text(bytes);
    reveal_with_fuel(text::hex_upper, 5);
    assert(id.len() == 8);
    assert(!text::is_white_space(id.first()));
    assert(!text::is_white_space(id.last()));
}

/// A room is hosted if and only if the role is the host's and the device's ID is
/// known; the room is the device's own.
pub proof fn law_hosting_is_told_by_role_and_room<S, I>(state: AppState<S, I>)
    ensures
        hosted_room(state) is Some <==> state.role is Host && state.room_id is Some,
        hosted_room(state) is Some ==> hosted_room(state) == state.room_id,
{
}

/// A session changes nothing but what belongs to it: hosting sets the role, the
/// ID and the two handles; controlling sets the role and the two handles.
pub proof fn law_sessions_set_role_and_handles<S, I>(
    state: AppState<S, I>,
    id: String,
    stop_tx: S,
    input_tx: I,
)
    ensures
        ({
            let host = hosting(state, id, stop_tx, input_tx);
            &&& host.role is Host
            &&& host.room_id == Some(id)
            &&& host.stop_tx == Some(stop_tx)
            &&& host.input_tx == Some(input_tx)
            &&& host.server_url == state.server_url
        }),
        ({
            let client = controlling(state, stop_tx, input_tx);
            &&& client.role is Client
            &&& client.room_id == state.room_id
            &&& client.stop_tx == Some(stop_tx)
            &&& client.input_tx == Some(input_tx)
            &&& client.server_url == state.server_url
        }),
{
}

/// While a session runs, every input event goes to its handle, unchanged.
pub proof fn law_input_goes_to_the_session<S, I>(state: AppState<S, I>, event: Event, tx: I)
    requires
        state.input_tx == Some(tx),
    ensures
        routed(state, event) matches Some((to, evt)) && to == tx && evt.event == Some(event),
{
}

/// The ID to register with is the given one, whatever is stored; else what is
/// stored, trimmed; else none.
pub proof fn law_given_id_comes_first(given: String, stored: Option<String>)
    ensures
        local_device_id(Some(given), stored) == given@,
        stored matches Some(s) ==> local_device_id(None, stored) == text::trimmed(s@),
        stored is None ==> local_device_id(None, stored).len() == 0,
{
}

/// What is stored is an ID exactly where something is left of it when trimmed.
pub proof fn law_blank_text_is_no_id(stored: Option<String>)
    ensures
        stored_id(stored) is Some <==> (stored matches Some(s) && text::trimmed(s@).len() > 0),
        (stored matches Some(s) && text::trimmed(s@).len() > 0) ==> stored_id(stored) == Some(
            text::trimmed(stored->0@),
        ),
{
}

/// A room that is hosted is not created again: asking for one returns its ID,
/// whatever ID is asked for.
pub proof fn law_hosted_room_is_kept<S, I>(
    state: AppState<S, I>,
    confirmed_id: String,
    stop_tx: S,
    input_tx: I,
)
    ensures
        hosted_room(hosting(state, confirmed_id, stop_tx, input_tx)) == Some(confirmed_id),
{
}

/// The device's identity and the server survive sessions: after a session, of
/// either kind, both are as they were, and nothing is hosted.
pub proof fn law_identity_survives_sessions<S, I>(
    state: AppState<S, I>,
    confirmed_id: String,
    stop_tx: S,
    input_tx: I,
)
    ensures
        hosting(state, confirmed_id, stop_tx, input_tx).after_session().room_id == Some(
            confirmed_id,
        ),
        controlling(state, stop_tx, input_tx).after_session().room_id == state.room_id,
        hosting(state, confirmed_id, stop_tx, input_tx).after_session().server_url
            == state.server_url,
        controlling(state, stop_tx, input_tx).after_session().server_url == state.server_url,
        hosted_room(hosting(state, confirmed_id, stop_tx, input_tx).after_session()) is None,
        hosted_room(controlling(state, stop_tx, input_tx)) is None,
{
}

/// After a session no input event goes anywhere, and there is nothing left to
/// stop.
pub proof fn law_no_input_after_a_session<S, I>(state: AppState<S, I>, event: Event)
    ensures
        routed(state.after_session(), event) is None,
        state.after_session().stop_tx is None,
        state.after_session().after_session() == state.after_session(),
{
}

} // verus!
