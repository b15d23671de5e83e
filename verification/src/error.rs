//! Errors that the session operations and the message mapper report.

use vstd::prelude::*;
use crate::v106::AuthorizationStatus;

verus! {

/// The kind of an OCPP message, whatever its direction.
#[derive(Clone, Copy, Debug, PartialEq, Eq, Structural)]
pub enum MessageKind {
    Authorize,
    BootNotification,
    CancelReservation,
    ChangeAvailability,
    Heartbeat,
    MeterValues,
    RemoteStartTransaction,
    RemoteStopTransaction,
    ReserveNow,
    Reset,
    SetChargingProfile,
    StartTransaction,
    StatusNotification,
    StopTransaction,
}

/// The four families of errors.
#[derive(Clone, Copy, Debug, PartialEq, Eq, Structural)]
pub enum ErrorClass {
    /// The session state does not allow the operation.
    State,
    /// An identifier or a value of the request does not fit.
    Validation,
    /// A reply is not what the protocol asks for.
    Protocol,
    /// A request could not be delivered.
    Transport,
}

/// What can go wrong in an operation on the session.
#[derive(Clone, Copy, Debug, PartialEq, Eq, Structural)]
pub enum OcppError {
    /// A running transaction was expected and there is none.
    NoActiveSession,
    /// No transaction was expected and `tid` is running.
    SessionAlreadyActive { tid: i32 },
    /// The lock that guards the session state is poisoned.
    LockPoisoned,
    /// A meter report needs a running transaction.
    NoActiveTransaction,
    /// A stop names transaction `got` while `expected` is the running one.
    TransactionMismatch { expected: i32, got: i32 },
    /// A charging profile lacks its duration or its first period.
    InvalidProfile,
    /// A meter update names a phase other than total, L1, L2 or L3.
    InvalidPhase { phase: usize },
    /// A date lies before now, or outside of the supported range.
    DurationOutOfRange,
    /// The system clock is set before the Unix epoch.
    ClockBeforeEpoch,
    /// The system clock is set beyond the instants the library computes with.
    ClockOutOfRange,
    /// A reply of kind `kind` came as a request.
    UnexpectedVariant { kind: MessageKind },
    /// The backend did not accept the identity tag.
    AuthorizationRefused { status: AuthorizationStatus },
    /// The backend did not accept the start of a transaction.
    TransactionRefused { status: AuthorizationStatus },
    /// A request asks for something the verb does not do.
    UnsupportedAction,
    /// A request could not be delivered to its destination.
    Transport,
}

impl OcppError {
    /// The family an error belongs to.
    pub open spec fn spec_class(self) -> ErrorClass {
        match self {
            OcppError::NoActiveSession => ErrorClass::State,
            OcppError::SessionAlreadyActive { .. } => ErrorClass::State,
            OcppError::LockPoisoned => ErrorClass::State,
            OcppError::NoActiveTransaction => ErrorClass::State,
            OcppError::TransactionMismatch { .. } => ErrorClass::Validation,
            OcppError::InvalidProfile => ErrorClass::Validation,
            OcppError::InvalidPhase { .. } => ErrorClass::Validation,
            OcppError::DurationOutOfRange => ErrorClass::Validation,
            OcppError::ClockBeforeEpoch => ErrorClass::State,
            OcppError::ClockOutOfRange => ErrorClass::State,
            OcppError::UnexpectedVariant { .. } => ErrorClass::Protocol,
            OcppError::AuthorizationRefused { .. } => ErrorClass::Protocol,
            OcppError::TransactionRefused { .. } => ErrorClass::Protocol,
            OcppError::UnsupportedAction => ErrorClass::Validation,
            OcppError::Transport => ErrorClass::Transport,
        }
    }

    /// Returns the family the error belongs to.
    pub fn class(&self) -> (class: ErrorClass)
        ensures
            class == self.spec_class(),
    {
        match self {
            OcppError::NoActiveSession => ErrorClass::State,
            OcppError::SessionAlreadyActive { .. } => ErrorClass::State,
            OcppError::LockPoisoned => ErrorClass::State,
            OcppError::NoActiveTransaction => ErrorClass::State,
            OcppError::TransactionMismatch { .. } => ErrorClass::Validation,
            OcppError::InvalidProfile => ErrorClass::Validation,
            OcppError::InvalidPhase { .. } => ErrorClass::Validation,
            OcppError::DurationOutOfRange => ErrorClass::Validation,
            OcppError::ClockBeforeEpoch => ErrorClass::State,
            OcppError::ClockOutOfRange => ErrorClass::State,
            OcppError::UnexpectedVariant { .. } => ErrorClass::Protocol,
            OcppError::AuthorizationRefused { .. } => ErrorClass::Protocol,
            OcppError::TransactionRefused { .. } => ErrorClass::Protocol,
            OcppError::UnsupportedAction => ErrorClass::Validation,
            OcppError::Transport => ErrorClass::Transport,
        }
    }
}

} // verus!
