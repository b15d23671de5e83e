//! What the charging manager reports: plug, power, protocol and reservation
//! state of the charger.

use vstd::prelude::*;
use crate::auth_types::AuthMsg;
use crate::clock::Span;

verus! {

/// Hardware fault of the charger.
#[derive(Clone, Copy, Debug, PartialEq, Eq, Structural)]
pub enum ErrorState {
    ErrE,
    ErrDf,
    ErrRelay,
    ErrRdc,
    ErrOverCurrent,
    ErrPermanent,
    ErrVentilation,
}

/// What the vehicle asks of the power stage.
#[derive(Clone, Copy, Debug, PartialEq, Eq, Structural)]
pub enum PowerRequest {
    Start,
    Charging(u32),
    Stop(i32),
    Idle,
}

/// Position of the plug.
#[derive(Clone, Copy, Debug, PartialEq, Eq, Structural)]
pub enum PlugState {
    PlugIn,
    Lock,
    Error,
    PlugOut,
    Unknown,
}

/// Protocol the vehicle and the charger agreed on.
#[derive(Clone, Copy, Debug, PartialEq, Eq, Structural)]
pub enum IsoState {
    Iso20,
    Iso2,
    Iec,
    Unset,
}

/// Progress of a reservation as the charging manager tracks it.
#[derive(Clone, Copy, Debug, PartialEq, Eq, Structural)]
pub enum ReservationStatus {
    Accepted,
    Refused,
    Pending,
    Cancel,
    Request,
}

/// Time window of a reservation.
#[derive(Clone, Copy, Debug, PartialEq, Eq, Structural)]
pub struct ReservationState {
    pub id: i64,
    pub start: Span,
    pub stop: Span,
}

/// State of the charging manager.
#[derive(Clone, Copy, Debug, PartialEq, Eq, Structural)]
pub struct ChargingState {
    pub updated: bool,
    pub reservation: Option<ReservationState>,
    pub imax: u32,
    pub pmax: u32,
    pub plugged: PlugState,
    pub power: PowerRequest,
    pub iso: IsoState,
    pub auth: AuthMsg,
}

/// Event of the charging manager.
#[derive(Clone, Copy, Debug, PartialEq, Eq, Structural)]
pub enum ChargingMsg {
    Plugged(PlugState),
    Power(PowerRequest),
    Iso(IsoState),
    Auth(AuthMsg),
    State(ChargingState),
    Reservation(ReservationStatus),
}

/// What a client can ask of the charging manager.
#[derive(Clone, Copy, Debug, PartialEq, Eq, Structural)]
pub enum ChargingAction {
    READ,
    SUBSCRIBE,
    UNSUBSCRIBE,
}

/// What a client can ask about a reservation.
#[derive(Clone, Copy, Debug, PartialEq, Eq, Structural)]
pub enum ReservationAction {
    NOW,
    DELAY,
    CANCEL,
}

/// A reservation of the connector for the holder of an identity tag.
///
/// `stop` is the time left, when the reservation was made, until it expires.
#[derive(Debug, PartialEq, Eq)]
pub struct ReservationSession {
    pub id: i32,
    pub tagid: String,
    pub start: Span,
    pub stop: Span,
    pub status: ReservationStatus,
}

impl ChargingState {
    /// The state of a charger nothing has happened to yet: 32 A and 22 kW
    /// allowed, nothing plugged, no protocol, nobody authenticated.
    pub fn default() -> (state: ChargingState)
        ensures
            state == (ChargingState {
                updated: false,
                reservation: None,
                imax: 32,
                pmax: 22,
                plugged: PlugState::Unknown,
                power: PowerRequest::Idle,
                iso: IsoState::Unset,
                auth: AuthMsg::Idle,
            }),
    {
        ChargingState {
            updated: false,
            imax: 32,
            pmax: 22,
            plugged: PlugState::Unknown,
            power: PowerRequest::Idle,
            iso: IsoState::Unset,
            auth: AuthMsg::Idle,
            reservation: None,
        }
    }
}

impl ChargingAction {
    /// The action a request without an explicit action stands for.
    pub fn default() -> (action: ChargingAction)
        ensures
            action == ChargingAction::READ,
    {
        ChargingAction::READ
    }
}

impl ReservationSession {
    /// The same reservation with another status.
    pub open spec fn with_status(self, status: ReservationStatus) -> ReservationSession {
        ReservationSession { status, ..self }
    }
}

impl Clone for ReservationSession {
    fn clone(&self) -> (copy: Self)
        ensures
            copy == *self,
    {
        ReservationSession {
            id: self.id,
            tagid: self.tagid.clone(),
            start: self.start,
            stop: self.stop,
            status: self.status,
        }
    }
}

} // verus!
