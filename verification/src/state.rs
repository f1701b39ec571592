//! The desktop application's state.

use vstd::prelude::*;

verus! {

/// Whether this instance is acting as host (controlled) or client (controller).
#[derive(Clone, Copy, Debug, PartialEq, Eq, Structural)]
pub enum AppRole {
    Idle,
    Host,
    Client,
}

/// The state that the application's commands share. `S` is a handle by which a
/// session is stopped, `I` one by which input events are sent on.
pub struct AppState<S, I> {
    pub role: AppRole,
    /// Confirmed device ID (same as what is stored on disk).
    pub room_id: Option<String>,
    /// gRPC server URL.
    pub server_url: String,
    /// Stops the running session gracefully.
    pub stop_tx: Option<S>,
    /// Takes input events. Set while a session is running.
    pub input_tx: Option<I>,
}

impl<S, I> AppState<S, I> {
    /// No session, no known device ID.
    pub fn new(server_url: String) -> (state: Self)
        ensures
            state == (AppState::<S, I> {
                role: AppRole::Idle,
                room_id: None,
                server_url,
                stop_tx: None,
                input_tx: None,
            }),
    {
        AppState { role: AppRole::Idle, room_id: None, server_url, stop_tx: None, input_tx: None }
    }

    /// The state after a session: idle, without its handles. The device ID is
    /// kept: it is the device's identity and survives session restarts.
    pub open spec fn after_session(self) -> AppState<S, I> {
        AppState { role: AppRole::Idle, stop_tx: None, input_tx: None, ..self }
    }

    /// Resets the state after a session ends.
    pub fn reset(&mut self)
        ensures
            *final(self) == old(self).after_session(),
            final(self).role is Idle,
            final(self).stop_tx is None,
            final(self).input_tx is None,
            final(self).room_id == old(self).room_id,
            final(self).server_url == old(self).server_url,
    {
        self.role = AppRole::Idle;
        self.stop_tx = None;
        self.input_tx = None;
    }
}

} // verus!
