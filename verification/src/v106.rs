//! The OCPP 1.6 vocabulary: the status and error enumerations that travel on
//! the wire, the messages the session layer reads or writes, and for each
//! kind of message the pair of its request and its response.
//!
//! A message holds what the session layer reads or fills in; optional parts
//! that it never touches are left out. Quantities that OCPP writes as decimal
//! numbers are held as integers: a current limit in hundredths of an ampere.

use vstd::prelude::*;
use crate::clock::Timestamp;

verus! {

/// Status of a connector as OCPP 1.6 reports it in a status notification.
#[derive(Clone, Copy, Debug, PartialEq, Eq, Structural)]
pub enum ChargePointStatus {
    Available,
    Preparing,
    Charging,
    SuspendedEVSE,
    SuspendedEV,
    Finishing,
    Reserved,
    Unavailable,
    Faulted,
}

/// Error code that accompanies a status notification.
#[derive(Clone, Copy, Debug, PartialEq, Eq, Structural)]
pub enum ChargePointErrorCode {
    ConnectorLockFailure,
    EVCommunicationError,
    GroundFailure,
    HighTemperature,
    InternalError,
    LocalListConflict,
    NoError,
    OtherError,
    OverCurrentFailure,
    OverVoltage,
    PowerMeterFailure,
    PowerSwitchFailure,
    ReaderFailure,
    ResetFailure,
    UnderVoltage,
    WeakSignal,
}

/// Outcome of an authorization, as the backend reports it for an identity tag.
#[derive(Clone, Copy, Debug, PartialEq, Eq, Structural)]
pub enum AuthorizationStatus {
    Accepted,
    Blocked,
    Expired,
    Invalid,
    ConcurrentTx,
}

/// Answer to a reserve-now request.
#[derive(Clone, Copy, Debug, PartialEq, Eq, Structural)]
pub enum ReservationStatus {
    Accepted,
    Faulted,
    Occupied,
    Rejected,
    Unavailable,
}

/// Answer to a cancel-reservation request.
#[derive(Clone, Copy, Debug, PartialEq, Eq, Structural)]
pub enum CancelReservationStatus {
    Accepted,
    Rejected,
}

/// Answer to a set-charging-profile request.
#[derive(Clone, Copy, Debug, PartialEq, Eq, Structural)]
pub enum ChargingProfileStatus {
    Accepted,
    Rejected,
    NotSupported,
}

/// Requested availability of a connector.
#[derive(Clone, Copy, Debug, PartialEq, Eq, Structural)]
pub enum AvailabilityType {
    Inoperative,
    Operative,
}

/// Answer to a change-availability request.
#[derive(Clone, Copy, Debug, PartialEq, Eq, Structural)]
pub enum AvailabilityStatus {
    Accepted,
    Rejected,
    Scheduled,
}

/// Kind of reset the backend asks for.
#[derive(Clone, Copy, Debug, PartialEq, Eq, Structural)]
pub enum ResetRequestStatus {
    Hard,
    Soft,
}

/// Answer to a reset request.
#[derive(Clone, Copy, Debug, PartialEq, Eq, Structural)]
pub enum ResetResponseStatus {
    Accepted,
    Rejected,
}

/// Answer to a remote start or stop request.
#[derive(Clone, Copy, Debug, PartialEq, Eq, Structural)]
pub enum RemoteStartStopStatus {
    Accepted,
    Rejected,
}

/// Answer of the backend to a boot notification.
#[derive(Clone, Copy, Debug, PartialEq, Eq, Structural)]
pub enum RegistrationStatus {
    Accepted,
    Pending,
    Rejected,
}

/// Unit in which a sampled value is expressed.
#[derive(Clone, Copy, Debug, PartialEq, Eq, Structural)]
pub enum UnitOfMeasure {
    Wh,
    KWh,
    Varh,
    Kvarh,
    W,
    Kw,
    Va,
    Kva,
    Var,
    Kvar,
    A,
    V,
    Celsius,
    Fahrenheit,
    K,
    Percent,
}

/// Physical quantity that a sampled value measures.
#[derive(Clone, Copy, Debug, PartialEq, Eq, Structural)]
pub enum Measurand {
    CurrentExport,
    CurrentImport,
    CurrentOffered,
    EnergyActiveExportRegister,
    EnergyActiveImportRegister,
    EnergyReactiveExportRegister,
    EnergyReactiveImportRegister,
    EnergyActiveExportInterval,
    EnergyActiveImportInterval,
    EnergyReactiveExportInterval,
    EnergyReactiveImportInterval,
    Frequency,
    PowerActiveExport,
    PowerActiveImport,
    PowerFactor,
    PowerOffered,
    PowerReactiveExport,
    PowerReactiveImport,
    Rpm,
    SoC,
    Temperature,
    Voltage,
}

/// What the backend knows about an identity tag.
#[derive(Clone, Debug, PartialEq, Eq)]
pub struct IdTagInfo {
    pub expiry_date: Option<Timestamp>,
    pub parent_id_tag: Option<String>,
    pub status: AuthorizationStatus,
}

/// One measured figure, written in decimal, with its unit and its measurand.
#[derive(Clone, Debug, PartialEq, Eq)]
pub struct SampledValue {
    pub value: String,
    pub measurand: Option<Measurand>,
    pub unit: Option<UnitOfMeasure>,
}

/// The figures sampled at one instant.
#[derive(Clone, Debug, PartialEq, Eq)]
pub struct MeterValue {
    pub timestamp: Timestamp,
    pub sampled_value: Vec<SampledValue>,
}

/// One period of a charging schedule: from `start_period` seconds into the
/// schedule the current is limited to `limit` hundredths of an ampere.
#[derive(Clone, Copy, Debug, PartialEq, Eq, Structural)]
pub struct ChargingSchedulePeriod {
    pub start_period: i32,
    pub limit: i32,
    pub number_phases: Option<i32>,
}

/// A charging schedule: its duration in seconds and its periods.
#[derive(Clone, Debug, PartialEq, Eq)]
pub struct ChargingSchedule {
    pub duration: Option<u32>,
    pub charging_schedule_period: Vec<ChargingSchedulePeriod>,
}

/// A charging profile for a transaction.
#[derive(Clone, Debug, PartialEq, Eq)]
pub struct ChargingProfile {
    pub charging_profile_id: i32,
    pub transaction_id: Option<i32>,
    pub stack_level: u32,
    pub charging_schedule: ChargingSchedule,
}

#[derive(Clone, Debug, PartialEq, Eq)]
pub struct AuthorizeRequest {
    pub id_tag: String,
}

#[derive(Clone, Debug, PartialEq, Eq)]
pub struct AuthorizeResponse {
    pub id_tag_info: IdTagInfo,
}

#[derive(Clone, Debug, PartialEq, Eq)]
pub struct BootNotificationRequest {
    pub charge_box_serial_number: Option<String>,
    pub charge_point_model: String,
    pub charge_point_serial_number: Option<String>,
    pub charge_point_vendor: String,
    pub firmware_version: Option<String>,
    pub iccid: Option<String>,
    pub imsi: Option<String>,
    pub meter_serial_number: Option<String>,
    pub meter_type: Option<String>,
}

#[derive(Clone, Copy, Debug, PartialEq, Eq, Structural)]
pub struct BootNotificationResponse {
    pub current_time: Timestamp,
    pub interval: u32,
    pub status: RegistrationStatus,
}

#[derive(Clone, Copy, Debug, PartialEq, Eq, Structural)]
pub struct CancelReservationRequest {
    pub reservation_id: i32,
}

#[derive(Clone, Copy, Debug, PartialEq, Eq, Structural)]
pub struct CancelReservationResponse {
    pub status: CancelReservationStatus,
}

#[derive(Clone, Copy, Debug, PartialEq, Eq, Structural)]
pub struct ChangeAvailabilityRequest {
    pub connector_id: u32,
    pub kind: AvailabilityType,
}

#[derive(Clone, Copy, Debug, PartialEq, Eq, Structural)]
pub struct ChangeAvailabilityResponse {
    pub status: AvailabilityStatus,
}

#[derive(Clone, Copy, Debug, PartialEq, Eq, Structural)]
pub struct HeartbeatRequest {}

#[derive(Clone, Copy, Debug, PartialEq, Eq, Structural)]
pub struct HeartbeatResponse {
    pub current_time: Timestamp,
}

#[derive(Clone, Debug, PartialEq, Eq)]
pub struct MeterValuesRequest {
    pub connector_id: u32,
    pub transaction_id: Option<i32>,
    pub meter_value: Vec<MeterValue>,
}

#[derive(Clone, Copy, Debug, PartialEq, Eq, Structural)]
pub struct MeterValuesResponse {}

#[derive(Clone, Debug, PartialEq, Eq)]
pub struct RemoteStartTransactionRequest {
    pub connector_id: Option<u32>,
    pub id_tag: String,
}

#[derive(Clone, Copy, Debug, PartialEq, Eq, Structural)]
pub struct RemoteStartTransactionResponse {
    pub status: RemoteStartStopStatus,
}

#[derive(Clone, Copy, Debug, PartialEq, Eq, Structural)]
pub struct RemoteStopTransactionRequest {
    pub transaction_id: i32,
}

#[derive(Clone, Copy, Debug, PartialEq, Eq, Structural)]
pub struct RemoteStopTransactionResponse {
    pub status: RemoteStartStopStatus,
}

#[derive(Clone, Debug, PartialEq, Eq)]
pub struct ReserveNowRequest {
    pub connector_id: u32,
    pub expiry_date: Timestamp,
    pub id_tag: String,
    pub parent_id_tag: Option<String>,
    pub reservation_id: i32,
}

#[derive(Clone, Copy, Debug, PartialEq, Eq, Structural)]
pub struct ReserveNowResponse {
    pub status: ReservationStatus,
}

#[derive(Clone, Copy, Debug, PartialEq, Eq, Structural)]
pub struct ResetRequest {
    pub kind: ResetRequestStatus,
}

#[derive(Clone, Copy, Debug, PartialEq, Eq, Structural)]
pub struct ResetResponse {
    pub status: ResetResponseStatus,
}

#[derive(Clone, Debug, PartialEq, Eq)]
pub struct SetChargingProfileRequest {
    pub connector_id: i32,
    pub cs_charging_profiles: ChargingProfile,
}

#[derive(Clone, Copy, Debug, PartialEq, Eq, Structural)]
pub struct SetChargingProfileResponse {
    pub status: ChargingProfileStatus,
}

#[derive(Clone, Debug, PartialEq, Eq)]
pub struct StartTransactionRequest {
    pub connector_id: u32,
    pub id_tag: String,
    pub meter_start: i32,
    pub reservation_id: Option<i32>,
    pub timestamp: Timestamp,
}

#[derive(Clone, Debug, PartialEq, Eq)]
pub struct StartTransactionResponse {
    pub id_tag_info: IdTagInfo,
    pub transaction_id: i32,
}

#[derive(Clone, Debug, PartialEq, Eq)]
pub struct StatusNotificationRequest {
    pub connector_id: u32,
    pub error_code: ChargePointErrorCode,
    pub info: Option<String>,
    pub status: ChargePointStatus,
    pub timestamp: Option<Timestamp>,
    pub vendor_id: Option<String>,
    pub vendor_error_code: Option<String>,
}

#[derive(Clone, Copy, Debug, PartialEq, Eq, Structural)]
pub struct StatusNotificationResponse {}

#[derive(Clone, Debug, PartialEq, Eq)]
pub struct StopTransactionRequest {
    pub id_tag: Option<String>,
    pub meter_stop: i32,
    pub timestamp: Timestamp,
    pub transaction_id: i32,
}

#[derive(Clone, Debug, PartialEq, Eq)]
pub struct StopTransactionResponse {
    pub id_tag_info: Option<IdTagInfo>,
}

/// An authorize message, tagged with its direction.
#[derive(Clone, Debug, PartialEq, Eq)]
pub enum Authorize {
    Request(AuthorizeRequest),
    Response(AuthorizeResponse),
}

#[derive(Clone, Debug, PartialEq, Eq)]
pub enum BootNotification {
    Request(BootNotificationRequest),
    Response(BootNotificationResponse),
}

#[derive(Clone, Copy, Debug, PartialEq, Eq, Structural)]
pub enum CancelReservation {
    Request(CancelReservationRequest),
    Response(CancelReservationResponse),
}

#[derive(Clone, Copy, Debug, PartialEq, Eq, Structural)]
pub enum ChangeAvailability {
    Request(ChangeAvailabilityRequest),
    Response(ChangeAvailabilityResponse),
}

/// A heartbeat message. A heartbeat request is empty, so only the tag tells a
/// request from a response without a readable time.
#[derive(Clone, Copy, Debug, PartialEq, Eq, Structural)]
pub enum Heartbeat {
    Response(HeartbeatResponse),
    Request(HeartbeatRequest),
}

#[derive(Clone, Debug, PartialEq, Eq)]
pub enum MeterValues {
    Request(MeterValuesRequest),
    Response(MeterValuesResponse),
}

#[derive(Clone, Debug, PartialEq, Eq)]
pub enum RemoteStartTransaction {
    Request(RemoteStartTransactionRequest),
    Response(RemoteStartTransactionResponse),
}

#[derive(Clone, Copy, Debug, PartialEq, Eq, Structural)]
pub enum RemoteStopTransaction {
    Request(RemoteStopTransactionRequest),
    Response(RemoteStopTransactionResponse),
}

#[derive(Clone, Debug, PartialEq, Eq)]
pub enum ReserveNow {
    Request(ReserveNowRequest),
    Response(ReserveNowResponse),
}

#[derive(Clone, Copy, Debug, PartialEq, Eq, Structural)]
pub enum Reset {
    Request(ResetRequest),
    Response(ResetResponse),
}

#[derive(Clone, Debug, PartialEq, Eq)]
pub enum SetChargingProfile {
    Request(SetChargingProfileRequest),
    Response(SetChargingProfileResponse),
}

#[derive(Clone, Debug, PartialEq, Eq)]
pub enum StartTransaction {
    Request(StartTransactionRequest),
    Response(StartTransactionResponse),
}

#[derive(Clone, Debug, PartialEq, Eq)]
pub enum StatusNotification {
    Request(StatusNotificationRequest),
    Response(StatusNotificationResponse),
}

#[derive(Clone, Debug, PartialEq, Eq)]
pub enum StopTransaction {
    Request(StopTransactionRequest),
    Response(StopTransactionResponse),
}

} // verus!
