//! What the authentication service reports about the user at the charger.

use vstd::prelude::*;

verus! {

/// Progress of an authentication.
#[derive(Clone, Copy, Debug, PartialEq, Eq, Structural)]
pub enum AuthMsg {
    Done,
    Fail,
    Pending,
    Idle,
}

/// State of the authentication service: progress, identity tag, and the
/// current and power the contract of the user allows.
#[derive(Debug, PartialEq, Eq)]
pub struct AuthState {
    pub auth: AuthMsg,
    pub tagid: String,
    pub imax: u32,
    pub pmax: u32,
}

/// What a client can ask of the authentication service.
#[derive(Clone, Copy, Debug, PartialEq, Eq, Structural)]
pub enum AuthAction {
    READ,
    SUBSCRIBE,
    UNSUBSCRIBE,
}

impl AuthState {
    /// The state before any authentication: idle, no tag, no allowance.
    pub fn default() -> (state: AuthState)
        ensures
            state.auth == AuthMsg::Idle,
            state.tagid@ == Seq::<char>::empty(),
            state.imax == 0,
            state.pmax == 0,
    {
        AuthState { auth: AuthMsg::Idle, imax: 0, pmax: 0, tagid: String::new() }
    }
}

impl Clone for AuthState {
    fn clone(&self) -> (copy: Self)
        ensures
            copy == *self,
    {
        AuthState { auth: self.auth, tagid: self.tagid.clone(), imax: self.imax, pmax: self.pmax }
    }
}

impl AuthAction {
    /// The action a request without an explicit action stands for.
    pub fn default() -> (action: AuthAction)
        ensures
            action == AuthAction::READ,
    {
        AuthAction::READ
    }
}

} // verus!
