use ocpp_session::error::ErrorClass;
use ocpp_session::error::MessageKind;
use ocpp_session::error::OcppError;
use ocpp_session::ocpp_types::OcppErrorCode;
use ocpp_session::ocpp_types::OcppStatus;
use ocpp_session::v106::AuthorizationStatus;
use ocpp_session::v106::ChargePointErrorCode;
use ocpp_session::v106::ChargePointStatus;

fn all_codes() -> Vec<(OcppErrorCode, ChargePointErrorCode)> {
    vec![
        (OcppErrorCode::ConnectorLockFailure, ChargePointErrorCode::ConnectorLockFailure),
        (OcppErrorCode::GroundFailure, ChargePointErrorCode::GroundFailure),
        (OcppErrorCode::HighTemperature, ChargePointErrorCode::HighTemperature),
        (OcppErrorCode::InternalError, ChargePointErrorCode::InternalError),
        (OcppErrorCode::NoError, ChargePointErrorCode::NoError),
        (OcppErrorCode::OtherError, ChargePointErrorCode::OtherError),
        (OcppErrorCode::OverCurrentFailure, ChargePointErrorCode::OverCurrentFailure),
        (OcppErrorCode::OverVoltage, ChargePointErrorCode::OverVoltage),
        (OcppErrorCode::PowerMeterFailure, ChargePointErrorCode::PowerMeterFailure),
        (OcppErrorCode::PowerSwitchFailure, ChargePointErrorCode::PowerSwitchFailure),
        (OcppErrorCode::ReaderFailure, ChargePointErrorCode::ReaderFailure),
        (OcppErrorCode::UnderVoltage, ChargePointErrorCode::UnderVoltage),
        (OcppErrorCode::WeakSignal, ChargePointErrorCode::WeakSignal),
    ]
}

#[test]
fn over_voltage_fault_maps_to_faulted_over_voltage() {
    let status = OcppStatus::Error(OcppErrorCode::OverVoltage);
    assert_eq!(
        status.to_wire(),
        (ChargePointStatus::Faulted, ChargePointErrorCode::OverVoltage)
    );
    assert_eq!(status.to_wire(), status.to_wire());
}

#[test]
fn every_error_code_has_its_own_wire_code() {
    let codes = all_codes();
    assert_eq!(codes.len(), 13);
    for (code, wire) in codes.iter() {
        assert_eq!(code.to_wire(), *wire);
        assert_eq!(
            OcppStatus::Error(*code).to_wire(),
            (ChargePointStatus::Faulted, *wire)
        );
    }
    for (i, (_, a)) in codes.iter().enumerate() {
        for (j, (_, b)) in codes.iter().enumerate() {
            if i != j {
                assert_ne!(a, b);
            }
        }
    }
}

#[test]
fn sound_statuses_map_to_no_error() {
    let table = vec![
        (OcppStatus::Charging, ChargePointStatus::Charging),
        (OcppStatus::Reserved, ChargePointStatus::Reserved),
        (OcppStatus::Unavailable, ChargePointStatus::Unavailable),
        (OcppStatus::Available, ChargePointStatus::Available),
        (OcppStatus::Finishing, ChargePointStatus::Finishing),
        (OcppStatus::Preparing, ChargePointStatus::Preparing),
    ];
    for (status, wire) in table {
        assert_eq!(status.to_wire(), (wire, ChargePointErrorCode::NoError));
    }
}

#[test]
fn fault_without_error_still_reports_faulted() {
    assert_eq!(
        OcppStatus::Error(OcppErrorCode::NoError).to_wire(),
        (ChargePointStatus::Faulted, ChargePointErrorCode::NoError)
    );
}

#[test]
fn every_error_has_a_class() {
    assert_eq!(OcppError::NoActiveSession.class(), ErrorClass::State);
    assert_eq!(OcppError::SessionAlreadyActive { tid: 1 }.class(), ErrorClass::State);
    assert_eq!(OcppError::LockPoisoned.class(), ErrorClass::State);
    assert_eq!(OcppError::NoActiveTransaction.class(), ErrorClass::State);
    assert_eq!(OcppError::ClockBeforeEpoch.class(), ErrorClass::State);
    assert_eq!(OcppError::ClockOutOfRange.class(), ErrorClass::State);
    assert_eq!(
        OcppError::TransactionMismatch { expected: 1, got: 2 }.class(),
        ErrorClass::Validation
    );
    assert_eq!(OcppError::InvalidProfile.class(), ErrorClass::Validation);
    assert_eq!(OcppError::InvalidPhase { phase: 4 }.class(), ErrorClass::Validation);
    assert_eq!(OcppError::DurationOutOfRange.class(), ErrorClass::Validation);
    assert_eq!(OcppError::UnsupportedAction.class(), ErrorClass::Validation);
    assert_eq!(
        OcppError::UnexpectedVariant { kind: MessageKind::Heartbeat }.class(),
        ErrorClass::Protocol
    );
    assert_eq!(
        OcppError::AuthorizationRefused { status: AuthorizationStatus::Blocked }.class(),
        ErrorClass::Protocol
    );
    assert_eq!(
        OcppError::TransactionRefused { status: AuthorizationStatus::Expired }.class(),
        ErrorClass::Protocol
    );
    assert_eq!(OcppError::Transport.class(), ErrorClass::Transport);
}
