//! The charging-domain model of a connector: the session state, the events
//! that tell of its changes, and the charger status and error with their
//! mapping to the OCPP vocabulary.

use vstd::prelude::*;
use crate::chmgr_types::ReservationSession;
use crate::v106::ChargePointErrorCode;
use crate::v106::ChargePointStatus;

verus! {

/// Fault that a charger reports while its status is `Error`.
#[derive(Clone, Copy, Debug, PartialEq, Eq, Structural)]
pub enum OcppErrorCode {
    ConnectorLockFailure,
    GroundFailure,
    HighTemperature,
    InternalError,
    NoError,
    OtherError,
    OverCurrentFailure,
    OverVoltage,
    PowerMeterFailure,
    PowerSwitchFailure,
    ReaderFailure,
    UnderVoltage,
    WeakSignal,
}

/// Status of the charger as the charging manager sees it.
#[derive(Clone, Copy, Debug, PartialEq, Eq, Structural)]
pub enum OcppStatus {
    Charging,
    Reserved,
    Unavailable,
    Available,
    Finishing,
    Preparing,
    /// The charger is faulted; the code says why.
    Error(OcppErrorCode),
}

/// A limit on the charging current that the backend sets for a transaction.
///
/// `imax` is in hundredths of an ampere, `duration` in seconds.
#[derive(Clone, Copy, Debug, PartialEq, Eq, Structural)]
pub struct PowerLimit {
    pub tid: i32,
    pub imax: i32,
    pub duration: u32,
}

/// An event that the session manager publishes to its subscribers.
#[derive(Debug, PartialEq, Eq)]
pub enum OcppMsg {
    Initialized,
    Reset,
    Authorized(bool),
    /// A transaction started (`true`) or stopped (`false`); the number is its id.
    Transaction(bool, i32),
    Reservation(ReservationSession),
    PowerLimit(PowerLimit),
    Unknown,
}

/// What a client asks about a transaction: to start one for an identity tag,
/// or to stop the running one at a meter reading.
#[derive(Debug, PartialEq, Eq)]
pub enum OcppTransaction {
    Start(String),
    Stop(i32),
}

/// The session state of one connector.
///
/// `tid` is the id of the running transaction, 0 while there is none.
#[derive(Debug, PartialEq, Eq)]
pub struct OcppState {
    pub connector_id: u32,
    pub tid: i32,
    pub reservation: Option<ReservationSession>,
    pub authorized: bool,
    pub status: OcppStatus,
}

impl Clone for OcppMsg {
    fn clone(&self) -> (copy: Self)
        ensures
            copy == *self,
    {
        match self {
            OcppMsg::Initialized => OcppMsg::Initialized,
            OcppMsg::Reset => OcppMsg::Reset,
            OcppMsg::Authorized(flag) => OcppMsg::Authorized(*flag),
            OcppMsg::Transaction(started, tid) => OcppMsg::Transaction(*started, *tid),
            OcppMsg::Reservation(session) => OcppMsg::Reservation(session.clone()),
            OcppMsg::PowerLimit(limit) => OcppMsg::PowerLimit(*limit),
            OcppMsg::Unknown => OcppMsg::Unknown,
        }
    }
}

impl Clone for OcppTransaction {
    fn clone(&self) -> (copy: Self)
        ensures
            copy == *self,
    {
        match self {
            OcppTransaction::Start(tag) => OcppTransaction::Start(tag.clone()),
            OcppTransaction::Stop(meter) => OcppTransaction::Stop(*meter),
        }
    }
}

impl Clone for OcppState {
    fn clone(&self) -> (copy: Self)
        ensures
            copy == *self,
    {
        let reservation = match &self.reservation {
            Some(session) => Some(session.clone()),
            None => None,
        };
        OcppState {
            connector_id: self.connector_id,
            tid: self.tid,
            reservation,
            authorized: self.authorized,
            status: self.status,
        }
    }
}

impl OcppState {
    /// The state of connector `cid` before anything happened: no transaction,
    /// no reservation, nobody authorized, the charger available.
    pub open spec fn initial(cid: u32) -> OcppState {
        OcppState {
            connector_id: cid,
            tid: 0,
            reservation: None,
            authorized: false,
            status: OcppStatus::Available,
        }
    }

    /// The state of connector 0 before anything happened.
    pub fn default() -> (state: OcppState)
        ensures
            state == OcppState::initial(0),
    {
        OcppState {
            connector_id: 0,
            tid: 0,
            reservation: None,
            authorized: false,
            status: OcppStatus::Available,
        }
    }
}

impl OcppErrorCode {
    /// The OCPP error code that stands for this fault.
    pub open spec fn wire(self) -> ChargePointErrorCode {
        match self {
            OcppErrorCode::ConnectorLockFailure => ChargePointErrorCode::ConnectorLockFailure,
            OcppErrorCode::GroundFailure => ChargePointErrorCode::GroundFailure,
            OcppErrorCode::HighTemperature => ChargePointErrorCode::HighTemperature,
            OcppErrorCode::InternalError => ChargePointErrorCode::InternalError,
            OcppErrorCode::NoError => ChargePointErrorCode::NoError,
            OcppErrorCode::OtherError => ChargePointErrorCode::OtherError,
            OcppErrorCode::OverCurrentFailure => ChargePointErrorCode::OverCurrentFailure,
            OcppErrorCode::OverVoltage => ChargePointErrorCode::OverVoltage,
            OcppErrorCode::PowerMeterFailure => ChargePointErrorCode::PowerMeterFailure,
            OcppErrorCode::PowerSwitchFailure => ChargePointErrorCode::PowerSwitchFailure,
            OcppErrorCode::ReaderFailure => ChargePointErrorCode::ReaderFailure,
            OcppErrorCode::UnderVoltage => ChargePointErrorCode::UnderVoltage,
            OcppErrorCode::WeakSignal => ChargePointErrorCode::WeakSignal,
        }
    }

    /// Maps the fault to its OCPP error code.
    pub fn to_wire(&self) -> (code: ChargePointErrorCode)
        ensures
            code == self.wire(),
    {
        match self {
            OcppErrorCode::ConnectorLockFailure => ChargePointErrorCode::ConnectorLockFailure,
            OcppErrorCode::GroundFailure => ChargePointErrorCode::GroundFailure,
            OcppErrorCode::HighTemperature => ChargePointErrorCode::HighTemperature,
            OcppErrorCode::InternalError => ChargePointErrorCode::InternalError,
            OcppErrorCode::NoError => ChargePointErrorCode::NoError,
            OcppErrorCode::OtherError => ChargePointErrorCode::OtherError,
            OcppErrorCode::OverCurrentFailure => ChargePointErrorCode::OverCurrentFailure,
            OcppErrorCode::OverVoltage => ChargePointErrorCode::OverVoltage,
            OcppErrorCode::PowerMeterFailure => ChargePointErrorCode::PowerMeterFailure,
            OcppErrorCode::PowerSwitchFailure => ChargePointErrorCode::PowerSwitchFailure,
            OcppErrorCode::ReaderFailure => ChargePointErrorCode::ReaderFailure,
            OcppErrorCode::UnderVoltage => ChargePointErrorCode::UnderVoltage,
            OcppErrorCode::WeakSignal => ChargePointErrorCode::WeakSignal,
        }
    }
}

impl OcppStatus {
    /// Whether the charger is faulted.
    pub open spec fn is_faulted(self) -> bool {
        self is Error
    }

    /// The OCPP status that stands for this charger status.
    pub open spec fn wire_status(self) -> ChargePointStatus {
        match self {
            OcppStatus::Charging => ChargePointStatus::Charging,
            OcppStatus::Reserved => ChargePointStatus::Reserved,
            OcppStatus::Unavailable => ChargePointStatus::Unavailable,
            OcppStatus::Available => ChargePointStatus::Available,
            OcppStatus::Finishing => ChargePointStatus::Finishing,
            OcppStatus::Preparing => ChargePointStatus::Preparing,
            OcppStatus::Error(_) => ChargePointStatus::Faulted,
        }
    }

    /// The OCPP error code that goes with this charger status: the code of the
    /// fault while faulted, `NoError` otherwise.
    pub open spec fn wire_error(self) -> ChargePointErrorCode {
        match self {
            OcppStatus::Error(code) => code.wire(),
            _ => ChargePointErrorCode::NoError,
        }
    }

    /// Maps the charger status to the OCPP status and error code.
    pub fn to_wire(&self) -> (pair: (ChargePointStatus, ChargePointErrorCode))
        ensures
            pair.0 == self.wire_status(),
            pair.1 == self.wire_error(),
    {
        match self {
            OcppStatus::Charging => (ChargePointStatus::Charging, ChargePointErrorCode::NoError),
            OcppStatus::Reserved => (ChargePointStatus::Reserved, ChargePointErrorCode::NoError),
            OcppStatus::Unavailable => (
                ChargePointStatus::Unavailable,
                ChargePointErrorCode::NoError,
            ),
            OcppStatus::Available => (ChargePointStatus::Available, ChargePointErrorCode::NoError),
            OcppStatus::Finishing => (ChargePointStatus::Finishing, ChargePointErrorCode::NoError),
            OcppStatus::Preparing => (ChargePointStatus::Preparing, ChargePointErrorCode::NoError),
            OcppStatus::Error(code) => (ChargePointStatus::Faulted, code.to_wire()),
        }
    }
}

/// No two faults share an OCPP error code: the mapping loses nothing.
pub proof fn lemma_error_code_wire_injective(a: OcppErrorCode, b: OcppErrorCode)
    requires
        a.wire() == b.wire(),
    ensures
        a == b,
{
}

/// A status that is not a fault maps to the OCPP error code `NoError`,
/// and never to the OCPP status `Faulted`.
pub proof fn lemma_sound_status_has_no_error(status: OcppStatus)
    requires
        !status.is_faulted(),
    ensures
        status.wire_error() == ChargePointErrorCode::NoError,
        status.wire_status() != ChargePointStatus::Faulted,
{
}

/// A fault maps to the OCPP status `Faulted` together with the OCPP
/// code of the fault.
pub proof fn lemma_fault_maps_to_faulted(code: OcppErrorCode)
    ensures
        OcppStatus::Error(code).wire_status() == ChargePointStatus::Faulted,
        OcppStatus::Error(code).wire_error() == code.wire(),
{
}

/// The mapping of the status keeps the statuses apart: two charger
/// statuses with the same OCPP status and error code are the same status.
pub proof fn lemma_status_wire_injective(a: OcppStatus, b: OcppStatus)
    requires
        a.wire_status() == b.wire_status(),
        a.wire_error() == b.wire_error(),
    ensures
        a == b,
{
}

} // verus!
