//! The verbs that the local services call, and what the manager does with
//! the replies of the backend to the requests these verbs send.
//!
//! A verb that asks something of the backend returns the request to send; the
//! function that takes the reply checks that it is a response, commits the
//! change to the session, and returns the answer for the caller.

use vstd::prelude::*;
use crate::clock::clock_error;
use crate::clock::get_utc;
use crate::clock::Timestamp;
use crate::engy_types::div_toward_zero;
use crate::engy_types::EnergyState;
use crate::error::MessageKind;
use crate::error::OcppError;
use crate::manager::ManagerHandle;
use crate::manager::SessionOp;
use crate::manager::Subscription;
use crate::ocpp_types::OcppStatus;
use crate::ocpp_types::OcppTransaction;
use crate::text::decimal_string;
use crate::text::decimal_text;
use crate::v106;
use crate::v106::AuthorizationStatus;
use crate::v106::ChargePointErrorCode;
use crate::v106::ChargePointStatus;
use crate::v106::Measurand;
use crate::v106::UnitOfMeasure;

verus! {

/// The requests that announce the charge point to the backend when the
/// service starts, in the order in which they are sent, and the period in
/// milliseconds of the timer that keeps the connection alive afterwards.
#[derive(Clone, Debug, PartialEq, Eq)]
pub struct BootPlan {
    pub boot: v106::BootNotificationRequest,
    pub status: v106::StatusNotificationRequest,
    pub heartbeat: v106::HeartbeatRequest,
    pub timer_period: Option<u32>,
}

/// The request that a transaction verb sends to the backend.
#[derive(Clone, Debug, PartialEq, Eq)]
pub enum TransactionQuery {
    Start(v106::StartTransactionRequest),
    Stop(v106::StopTransactionRequest),
}

/// What a pushed measure sends to the backend: the meter report, then a
/// status notification that the charger is charging.
#[derive(Clone, Debug, PartialEq, Eq)]
pub struct MeasurePush {
    pub meter_values: v106::MeterValuesRequest,
    pub status: v106::StatusNotificationRequest,
}

/// What the reply to a heartbeat needs to remember of its request.
#[derive(Clone, Copy, Debug, PartialEq, Eq, Structural)]
pub struct HeartbeatRspCtx {
    pub nonce: u32,
}

/// The text of an optional string.
pub open spec fn opt_text(field: Option<String>) -> Option<Seq<char>> {
    match field {
        Some(text) => Some(text@),
        None => None,
    }
}

/// Whether `r` is the status notification of connector `cid` with the given
/// status, error code, comment and time, and nothing else.
pub open spec fn is_status_report(
    r: v106::StatusNotificationRequest,
    cid: u32,
    status: ChargePointStatus,
    error_code: ChargePointErrorCode,
    info: Option<Seq<char>>,
    now: Timestamp,
) -> bool {
    &&& r.connector_id == cid
    &&& r.status == status
    &&& r.error_code == error_code
    &&& opt_text(r.info) == info
    &&& r.timestamp == Some(now)
    &&& r.vendor_id is None
    &&& r.vendor_error_code is None
}

/// Whether `r` is the boot notification of the station `station`.
pub open spec fn is_boot_request(r: v106::BootNotificationRequest, station: Seq<char>) -> bool {
    &&& r.charge_point_vendor@ == station
    &&& r.charge_point_model@ == "Tux-Evse OCPP-1.6"@
    &&& opt_text(r.firmware_version) == Some("v1234"@)
    &&& r.charge_box_serial_number is None
    &&& r.charge_point_serial_number is None
    &&& r.iccid is None
    &&& r.imsi is None
    &&& r.meter_serial_number is None
    &&& r.meter_type is None
}

/// Whether `plan` announces the station `station` at the time `now` and asks
/// for a timer of period `tic`, where `tic` is not 0.
pub open spec fn is_boot_plan(plan: BootPlan, station: Seq<char>, tic: u32, now: Timestamp) -> bool {
    &&& is_boot_request(plan.boot, station)
    &&& is_status_report(
        plan.status,
        1,
        ChargePointStatus::Available,
        ChargePointErrorCode::NoError,
        Some("Tux-Evse booting report"@),
        now,
    )
    &&& plan.timer_period == if tic > 0 {
        Some(tic)
    } else {
        None
    }
}

/// Whether `s` holds `figure` in decimal notation with the given unit and
/// measurand.
pub open spec fn is_sample(
    s: v106::SampledValue,
    figure: int,
    unit: UnitOfMeasure,
    measurand: Measurand,
) -> bool {
    &&& s.value@ == decimal_text(figure)
    &&& s.unit == Some(unit)
    &&& s.measurand == Some(measurand)
}

/// Whether `r` is the meter report of the snapshot `state` for transaction
/// `tid` on connector `cid`, sampled at `now`: the tension in volts, the
/// current in amperes, the power in watts and the energy of the session in
/// watt-hours, in this order.
pub open spec fn is_meter_report(
    r: v106::MeterValuesRequest,
    state: EnergyState,
    cid: u32,
    tid: i32,
    now: Timestamp,
) -> bool {
    &&& r.connector_id == cid
    &&& r.transaction_id == Some(tid)
    &&& r.meter_value@.len() == 1
    &&& r.meter_value@[0].timestamp == now
    &&& r.meter_value@[0].sampled_value@.len() == 4
    &&& is_sample(
        r.meter_value@[0].sampled_value@[0],
        div_toward_zero(state.tension as int, 100),
        UnitOfMeasure::V,
        Measurand::Voltage,
    )
    &&& is_sample(
        r.meter_value@[0].sampled_value@[1],
        div_toward_zero(state.current as int, 100),
        UnitOfMeasure::A,
        Measurand::CurrentImport,
    )
    &&& is_sample(
        r.meter_value@[0].sampled_value@[2],
        div_toward_zero(state.power as int, 100),
        UnitOfMeasure::W,
        Measurand::PowerActiveImport,
    )
    &&& is_sample(
        r.meter_value@[0].sampled_value@[3],
        state.session * 10,
        UnitOfMeasure::Wh,
        Measurand::EnergyActiveImportRegister,
    )
}

/// Whether `r` asks to start a transaction for the tag `tag` on connector
/// `cid` at the time `now`: from a meter at 0 and without a reservation.
pub open spec fn is_start_query(
    r: v106::StartTransactionRequest,
    cid: u32,
    tag: Seq<char>,
    now: Timestamp,
) -> bool {
    &&& r.connector_id == cid
    &&& r.id_tag@ == tag
    &&& r.meter_start == 0
    &&& r.reservation_id is None
    &&& r.timestamp == now
}

/// Whether `r` asks to stop the transaction `tid` at the meter reading
/// `meter` and the time `now`, without naming a tag.
pub open spec fn is_stop_query(
    r: v106::StopTransactionRequest,
    tid: i32,
    meter: i32,
    now: Timestamp,
) -> bool {
    &&& r.id_tag is None
    &&& r.meter_stop == meter
    &&& r.timestamp == now
    &&& r.transaction_id == tid
}

/// What a transaction verb answers in the session state `mgr` at the time
/// `now`: the guard decides, then the request is the start or the stop query.
pub open spec fn is_transaction_query(
    r: Result<TransactionQuery, OcppError>,
    mgr: ManagerHandle,
    data: OcppTransaction,
    now: Timestamp,
) -> bool {
    match data {
        OcppTransaction::Start(tag) => match mgr.state().session_check(false) {
            Err(e) => r == Err::<TransactionQuery, OcppError>(e),
            Ok(_) => r matches Ok(TransactionQuery::Start(query)) && is_start_query(
                query,
                mgr.state().connector_id,
                tag@,
                now,
            ),
        },
        OcppTransaction::Stop(meter) => match mgr.state().session_check(true) {
            Err(e) => r == Err::<TransactionQuery, OcppError>(e),
            Ok(_) => r matches Ok(TransactionQuery::Stop(query)) && is_stop_query(
                query,
                mgr.state().tid,
                meter,
                now,
            ),
        },
    }
}

/// The guard that a transaction verb applies before anything else: no
/// transaction may run before a start, one has to run before a stop.
pub open spec fn transaction_guard(mgr: ManagerHandle, data: OcppTransaction) -> Result<
    (),
    OcppError,
> {
    match data {
        OcppTransaction::Start(_) => mgr.state().session_check(false),
        OcppTransaction::Stop(_) => mgr.state().session_check(true),
    }
}

/// What the reply `data` to an authorize request means.
pub open spec fn authorize_verdict(data: v106::Authorize) -> Result<(), OcppError> {
    match data {
        v106::Authorize::Response(response) => if response.id_tag_info.status
            == AuthorizationStatus::Accepted {
            Ok(())
        } else {
            Err(OcppError::AuthorizationRefused { status: response.id_tag_info.status })
        },
        v106::Authorize::Request(_) => Err(
            OcppError::UnexpectedVariant { kind: MessageKind::Authorize },
        ),
    }
}

/// What the reply `data` to a start-transaction request means: the id of the
/// transaction that the backend opened, if it accepted the tag.
pub open spec fn start_verdict(data: v106::StartTransaction) -> Result<i32, OcppError> {
    match data {
        v106::StartTransaction::Response(response) => if response.id_tag_info.status
            == AuthorizationStatus::Accepted {
            Ok(response.transaction_id)
        } else {
            Err(OcppError::TransactionRefused { status: response.id_tag_info.status })
        },
        v106::StartTransaction::Request(_) => Err(
            OcppError::UnexpectedVariant { kind: MessageKind::StartTransaction },
        ),
    }
}

/// The requests that announce the station `station` at the time `now`.
pub fn boot_plan(station: &str, tic: u32, now: Timestamp) -> (plan: BootPlan)
    ensures
        is_boot_plan(plan, station@, tic, now),
{
    let boot = v106::BootNotificationRequest {
        charge_point_vendor: station.to_string(),
        charge_point_model: "Tux-Evse OCPP-1.6".to_string(),
        firmware_version: Some("v1234".to_string()),
        charge_box_serial_number: None,
        charge_point_serial_number: None,
        iccid: None,
        imsi: None,
        meter_serial_number: None,
        meter_type: None,
    };
    let status = v106::StatusNotificationRequest {
        connector_id: 1,
        status: ChargePointStatus::Available,
        error_code: ChargePointErrorCode::NoError,
        info: Some("Tux-Evse booting report".to_string()),
        timestamp: Some(now),
        vendor_id: None,
        vendor_error_code: None,
    };
    let timer_period = if tic > 0 {
        Some(tic)
    } else {
        None
    };
    BootPlan { boot, status, heartbeat: v106::HeartbeatRequest {  }, timer_period }
}

/// Prepares what the service sends to the backend when it starts: a boot
/// notification for the station, a status notification that connector 1 is
/// available, and a heartbeat. With `tic` above 0 the plan asks for a timer
/// of that period.
///
/// The time of the status notification is read from the clock; the only
/// errors are those of the clock.
pub fn ocpp_bootstrap(station: &str, tic: u32) -> (r: Result<BootPlan, OcppError>)
    ensures
        r matches Ok(plan) ==> (plan.status.timestamp matches Some(now) && is_boot_plan(
            plan,
            station@,
            tic,
            now,
        )),
        r matches Err(e) ==> clock_error(e),
{
    match get_utc() {
        Ok(now) => Ok(boot_plan(station, tic, now)),
        Err(e) => Err(e),
    }
}

/// The status notification that reports `status` for connector `cid` at the
/// time `now`.
///
/// A fault is reported as the OCPP status `Faulted` with the OCPP code of the
/// fault; any other status with the code `NoError`.
pub fn status_report(cid: u32, status: &OcppStatus, now: Timestamp) -> (query:
    v106::StatusNotificationRequest)
    ensures
        is_status_report(query, cid, status.wire_status(), status.wire_error(), None, now),
{
    let (charger_status, error_code) = status.to_wire();
    v106::StatusNotificationRequest {
        connector_id: cid,
        error_code,
        status: charger_status,
        info: None,
        timestamp: Some(now),
        vendor_id: None,
        vendor_error_code: None,
    }
}

/// The status notification that reports `status` for the connector of `mgr`.
///
/// The time of the notification is read from the clock; the only errors are
/// those of the clock.
pub fn update_charger_status(mgr: &ManagerHandle, status: &OcppStatus) -> (r: Result<
    v106::StatusNotificationRequest,
    OcppError,
>)
    ensures
        r matches Ok(query) ==> (query.timestamp matches Some(now) && is_status_report(
            query,
            mgr.state().connector_id,
            status.wire_status(),
            status.wire_error(),
            None,
            now,
        )),
        r matches Err(e) ==> clock_error(e),
{
    match get_utc() {
        Ok(now) => Ok(status_report(mgr.get_cid(), status, now)),
        Err(e) => Err(e),
    }
}

/// One sampled value.
fn sample(figure: i64, unit: UnitOfMeasure, measurand: Measurand) -> (s: v106::SampledValue)
    ensures
        is_sample(s, figure as int, unit, measurand),
{
    v106::SampledValue {
        value: decimal_string(figure),
        unit: Some(unit),
        measurand: Some(measurand),
    }
}

/// The meter report of the snapshot `state` for transaction `tid` on
/// connector `cid`, sampled at `now`.
///
/// Fails with `NoActiveTransaction` where `tid` is 0.
pub fn meter_report(state: &EnergyState, cid: u32, tid: i32, now: Timestamp) -> (r: Result<
    v106::MeterValuesRequest,
    OcppError,
>)
    ensures
        tid == 0 ==> r == Err::<v106::MeterValuesRequest, OcppError>(
            OcppError::NoActiveTransaction,
        ),
        tid != 0 ==> (r matches Ok(query) && is_meter_report(query, *state, cid, tid, now)),
{
    if tid == 0 {
        return Err(OcppError::NoActiveTransaction);
    }
    let tension_value = sample(
        (state.tension / 100) as i64,
        UnitOfMeasure::V,
        Measurand::Voltage,
    );
    let current_value = sample(
        (state.current / 100) as i64,
        UnitOfMeasure::A,
        Measurand::CurrentImport,
    );
    let power_value = sample(
        (state.power / 100) as i64,
        UnitOfMeasure::W,
        Measurand::PowerActiveImport,
    );
    let session_value = sample(
        (state.session as i64) * 10,
        UnitOfMeasure::Wh,
        Measurand::EnergyActiveImportRegister,
    );
    let mut sampled_value: Vec<v106::SampledValue> = Vec::new();
    sampled_value.push(tension_value);
    sampled_value.push(current_value);
    sampled_value.push(power_value);
    sampled_value.push(session_value);
    let mut meter_value: Vec<v106::MeterValue> = Vec::new();
    meter_value.push(v106::MeterValue { timestamp: now, sampled_value });
    Ok(v106::MeterValuesRequest { connector_id: cid, transaction_id: Some(tid), meter_value })
}

/// The meter report of the snapshot `state` for the running transaction.
///
/// Fails with `NoActiveTransaction`, without a look at the clock, while no
/// transaction is running. Otherwise the time of the sample is read from the
/// clock, and the only errors are those of the clock.
pub fn engy_event_action(state: &EnergyState, mgr: &ManagerHandle) -> (r: Result<
    v106::MeterValuesRequest,
    OcppError,
>)
    ensures
        mgr.state().tid == 0 ==> r == Err::<v106::MeterValuesRequest, OcppError>(
            OcppError::NoActiveTransaction,
        ),
        mgr.state().tid != 0 ==> match r {
            Ok(query) => query.meter_value@.len() == 1 && is_meter_report(
                query,
                *state,
                mgr.state().connector_id,
                mgr.state().tid,
                query.meter_value@[0].timestamp,
            ),
            Err(e) => clock_error(e),
        },
{
    let tid: i32 = mgr.get_tid();
    if tid == 0 {
        return Err(OcppError::NoActiveTransaction);
    }
    match get_utc() {
        Ok(now) => meter_report(state, mgr.get_cid(), tid, now),
        Err(e) => Err(e),
    }
}

/// Checks the reply to a meter report: it has to be a response.
pub fn meter_values_response(data: &v106::MeterValues) -> (r: Result<(), OcppError>)
    ensures
        data is Response ==> r is Ok,
        data is Request ==> r == Err::<(), OcppError>(
            OcppError::UnexpectedVariant { kind: MessageKind::MeterValues },
        ),
{
    match data {
        v106::MeterValues::Response(_) => Ok(()),
        _ => Err(OcppError::UnexpectedVariant { kind: MessageKind::MeterValues }),
    }
}

/// Pushes a snapshot of the energy meter to the backend: the meter report of
/// the running transaction, then the notification that connector 1 is
/// charging.
///
/// Fails with `NoActiveTransaction`, without a look at the clock, while no
/// transaction is running. Otherwise the times are read from the clock, and
/// the only errors are those of the clock.
pub fn engy_state_request(state: &EnergyState, mgr: &ManagerHandle) -> (r: Result<
    MeasurePush,
    OcppError,
>)
    ensures
        mgr.state().tid == 0 ==> r == Err::<MeasurePush, OcppError>(
            OcppError::NoActiveTransaction,
        ),
        mgr.state().tid != 0 ==> match r {
            Ok(push) => push.meter_values.meter_value@.len() == 1 && is_meter_report(
                push.meter_values,
                *state,
                mgr.state().connector_id,
                mgr.state().tid,
                push.meter_values.meter_value@[0].timestamp,
            ) && push.status.timestamp is Some && is_status_report(
                push.status,
                1,
                ChargePointStatus::Charging,
                ChargePointErrorCode::NoError,
                Some("Tux-Evse refresh report"@),
                push.status.timestamp->Some_0,
            ),
            Err(e) => clock_error(e),
        },
{
    let meter_values = match engy_event_action(state, mgr) {
        Ok(query) => query,
        Err(e) => {
            return Err(e);
        },
    };
    let now = match get_utc() {
        Ok(now) => now,
        Err(e) => {
            return Err(e);
        },
    };
    let status = v106::StatusNotificationRequest {
        connector_id: 1,
        status: ChargePointStatus::Charging,
        error_code: ChargePointErrorCode::NoError,
        info: Some("Tux-Evse refresh report".to_string()),
        timestamp: Some(now),
        vendor_id: None,
        vendor_error_code: None,
    };
    Ok(MeasurePush { meter_values, status })
}

/// Checks the reply to a heartbeat: a response is answered with the nonce of
/// the request, a request is a protocol error.
pub fn heartbeat_response(data: &v106::Heartbeat, ctx: &HeartbeatRspCtx) -> (r: Result<
    u32,
    OcppError,
>)
    ensures
        data is Response ==> r == Ok::<u32, OcppError>(ctx.nonce),
        data is Request ==> r == Err::<u32, OcppError>(
            OcppError::UnexpectedVariant { kind: MessageKind::Heartbeat },
        ),
{
    match data {
        v106::Heartbeat::Response(_) => Ok(ctx.nonce),
        _ => Err(OcppError::UnexpectedVariant { kind: MessageKind::Heartbeat }),
    }
}

/// The heartbeat to send to the backend, and the nonce to answer the caller
/// with once the backend has replied.
pub fn heartbeat_request(nonce: u32) -> (call: (v106::Heartbeat, HeartbeatRspCtx))
    ensures
        call.0 == v106::Heartbeat::Request(v106::HeartbeatRequest {  }),
        call.1.nonce == nonce,
{
    (v106::Heartbeat::Request(v106::HeartbeatRequest {  }), HeartbeatRspCtx { nonce })
}

/// Takes the reply to an authorize request.
///
/// A response that accepts the tag marks the session as authorized and
/// publishes that. Any other response fails with `AuthorizationRefused`, a
/// request with `UnexpectedVariant`; neither changes anything.
pub fn authorize_response(mgr: &mut ManagerHandle, data: &v106::Authorize) -> (r: Result<
    (),
    OcppError,
>)
    ensures
        r == authorize_verdict(*data),
        r is Ok ==> final(mgr).follows(old(mgr), SessionOp::Authorized(true)),
        r is Err ==> *final(mgr) == *old(mgr),
{
    let response = match data {
        v106::Authorize::Response(response) => response,
        _ => {
            return Err(OcppError::UnexpectedVariant { kind: MessageKind::Authorize });
        },
    };
    match response.id_tag_info.status {
        AuthorizationStatus::Accepted => {
            mgr.authorized(true);
            Ok(())
        },
        status => Err(OcppError::AuthorizationRefused { status }),
    }
}

/// The authorize request for the tag `id_tag`.
pub fn authorize_request(id_tag: String) -> (query: v106::Authorize)
    ensures
        query == v106::Authorize::Request(v106::AuthorizeRequest { id_tag }),
{
    v106::Authorize::Request(v106::AuthorizeRequest { id_tag })
}

/// Takes the reply to a start-transaction request.
///
/// A response that accepts the tag makes its transaction the running one,
/// publishes the start, and answers with the transaction id. Any other
/// response fails with `TransactionRefused`, a request with
/// `UnexpectedVariant`; neither changes anything.
pub fn transac_start_rsp(mgr: &mut ManagerHandle, data: &v106::StartTransaction) -> (r: Result<
    i32,
    OcppError,
>)
    ensures
        r == start_verdict(*data),
        r matches Ok(tid) ==> final(mgr).follows(old(mgr), SessionOp::Login(tid)),
        r is Err ==> *final(mgr) == *old(mgr),
{
    let response = match data {
        v106::StartTransaction::Response(response) => response,
        _ => {
            return Err(OcppError::UnexpectedVariant { kind: MessageKind::StartTransaction });
        },
    };
    let tid: i32 = match response.id_tag_info.status {
        AuthorizationStatus::Accepted => response.transaction_id,
        status => {
            return Err(OcppError::TransactionRefused { status });
        },
    };
    mgr.login(tid);
    Ok(tid)
}

/// Takes the reply to a stop-transaction request.
///
/// A response ends the running transaction and publishes the stop. A request
/// fails with `UnexpectedVariant` and changes nothing.
pub fn transac_stop_rsp(mgr: &mut ManagerHandle, data: &v106::StopTransaction) -> (r: Result<
    (),
    OcppError,
>)
    ensures
        data is Response ==> r is Ok && final(mgr).follows(old(mgr), SessionOp::Logout),
        data is Request ==> r == Err::<(), OcppError>(
            OcppError::UnexpectedVariant { kind: MessageKind::StopTransaction },
        ) && *final(mgr) == *old(mgr),
{
    match data {
        v106::StopTransaction::Response(_) => {},
        _ => {
            return Err(OcppError::UnexpectedVariant { kind: MessageKind::StopTransaction });
        },
    };
    mgr.logout();
    Ok(())
}

/// The request to start a transaction for `tag` on connector `cid`.
pub fn start_query(cid: u32, tag: &String, now: Timestamp) -> (query:
    v106::StartTransactionRequest)
    ensures
        is_start_query(query, cid, tag@, now),
{
    v106::StartTransactionRequest {
        connector_id: cid,
        id_tag: tag.clone(),
        meter_start: 0,
        reservation_id: None,
        timestamp: now,
    }
}

/// The request to stop the transaction `tid` at the meter reading `meter`.
pub fn stop_query(tid: i32, meter: i32, now: Timestamp) -> (query: v106::StopTransactionRequest)
    ensures
        is_stop_query(query, tid, meter, now),
{
    v106::StopTransactionRequest {
        id_tag: None,
        meter_stop: meter,
        timestamp: now,
        transaction_id: tid,
    }
}

/// Turns the wish of a client to start or to stop a transaction, at the time
/// `now`, into the request for the backend.
///
/// A start fails with `SessionAlreadyActive` while a transaction is running;
/// a stop fails with `NoActiveSession` while none is.
pub fn transaction_query(mgr: &ManagerHandle, data: &OcppTransaction, now: Timestamp) -> (r:
    Result<TransactionQuery, OcppError>)
    ensures
        is_transaction_query(r, *mgr, *data, now),
{
    match data {
        OcppTransaction::Start(tag) => {
            match mgr.check_active_session(false) {
                Err(e) => Err(e),
                Ok(_) => Ok(TransactionQuery::Start(start_query(mgr.get_cid(), tag, now))),
            }
        },
        OcppTransaction::Stop(meter) => {
            let tid: i32 = mgr.get_tid();
            match mgr.check_active_session(true) {
                Err(e) => Err(e),
                Ok(_) => Ok(TransactionQuery::Stop(stop_query(tid, *meter, now))),
            }
        },
    }
}

/// Turns the wish of a client to start or to stop a transaction into the
/// request for the backend; the time of the request is read from the clock.
///
/// A start fails with `SessionAlreadyActive` while a transaction is running;
/// a stop fails with `NoActiveSession` while none is: both without a look at
/// the clock. Otherwise the result is that of `transaction_query` for the
/// instant that the clock gave, or the error of the clock. The session does
/// not change before the backend has replied.
pub fn transaction_request(mgr: &ManagerHandle, data: &OcppTransaction) -> (r: Result<
    TransactionQuery,
    OcppError,
>)
    ensures
        transaction_guard(*mgr, *data) matches Err(e) ==> r == Err::<TransactionQuery, OcppError>(
            e,
        ),
        (exists|now: Timestamp| #[trigger] is_transaction_query(r, *mgr, *data, now)) || (r matches Err(
            e,
        ) && clock_error(e)),
{
    let guard = match data {
        OcppTransaction::Start(_) => mgr.check_active_session(false),
        OcppTransaction::Stop(_) => mgr.check_active_session(true),
    };
    match guard {
        Err(e) => {
            assert(is_transaction_query(
                Err::<TransactionQuery, OcppError>(e),
                *mgr,
                *data,
                Timestamp { secs: 0, nanos: 0 },
            ));
            Err(e)
        },
        Ok(_) => match get_utc() {
            Ok(now) => {
                let r = transaction_query(mgr, data, now);
                assert(is_transaction_query(r, *mgr, *data, now));
                r
            },
            Err(e) => Err(e),
        },
    }
}

/// Checks the reply to a status notification: it has to be a response.
pub fn status_notification_rsp(data: &v106::StatusNotification) -> (r: Result<(), OcppError>)
    ensures
        data is Response ==> r is Ok,
        data is Request ==> r == Err::<(), OcppError>(
            OcppError::UnexpectedVariant { kind: MessageKind::StatusNotification },
        ),
{
    match data {
        v106::StatusNotification::Response(_) => Ok(()),
        _ => Err(OcppError::UnexpectedVariant { kind: MessageKind::StatusNotification }),
    }
}

/// Records the status that the charging manager reports and prepares the
/// status notification for the backend. Publishes no event.
///
/// The time of the notification is read from the clock first: with an error
/// of the clock nothing is recorded.
pub fn status_notification_rqt(mgr: &mut ManagerHandle, status: &OcppStatus) -> (r: Result<
    v106::StatusNotificationRequest,
    OcppError,
>)
    ensures
        match r {
            Ok(query) => final(mgr).follows(old(mgr), SessionOp::SetStatus(*status))
                && query.timestamp is Some && is_status_report(
                query,
                old(mgr).state().connector_id,
                status.wire_status(),
                status.wire_error(),
                None,
                query.timestamp->Some_0,
            ),
            Err(e) => clock_error(e) && *final(mgr) == *old(mgr),
        },
{
    let now = match get_utc() {
        Ok(now) => now,
        Err(e) => {
            return Err(e);
        },
    };
    mgr.set_status(status);
    Ok(status_report(mgr.get_cid(), status, now))
}

/// The status notification to send once the connection to the backend is
/// back: it repeats the recorded status of the charger.
///
/// The time of the notification is read from the clock; the only errors are
/// those of the clock.
pub fn monitor_event_cb(mgr: &ManagerHandle) -> (r: Result<
    v106::StatusNotificationRequest,
    OcppError,
>)
    ensures
        r matches Ok(query) ==> (query.timestamp matches Some(now) && is_status_report(
            query,
            mgr.state().connector_id,
            mgr.state().status.wire_status(),
            mgr.state().status.wire_error(),
            None,
            now,
        )),
        r matches Err(e) ==> clock_error(e),
{
    let status = mgr.get_status();
    update_charger_status(mgr, &status)
}

/// The status notification to send at a tick of the keep-alive timer: one
/// that the charger is available while that is its recorded status, and none
/// while it is in any other status.
///
/// The clock is read only for a notification; the only errors are those of
/// the clock.
pub fn timer_cb(mgr: &ManagerHandle) -> (r: Result<
    Option<v106::StatusNotificationRequest>,
    OcppError,
>)
    ensures
        mgr.state().status != OcppStatus::Available ==> r == Ok::<
            Option<v106::StatusNotificationRequest>,
            OcppError,
        >(None),
        mgr.state().status == OcppStatus::Available ==> match r {
            Ok(query) => query is Some && query->Some_0.timestamp is Some && is_status_report(
                query->Some_0,
                mgr.state().connector_id,
                ChargePointStatus::Available,
                ChargePointErrorCode::NoError,
                None,
                query->Some_0.timestamp->Some_0,
            ),
            Err(e) => clock_error(e),
        },
{
    let status = mgr.get_status();
    match status {
        OcppStatus::Available => {},
        _ => {
            return Ok(None);
        },
    }
    match update_charger_status(mgr, &status) {
        Ok(query) => Ok(Some(query)),
        Err(e) => Err(e),
    }
}

/// Tells the event publisher to subscribe the caller to the events of the
/// manager, or to unsubscribe it.
pub fn subscribe_callback(mgr: &ManagerHandle, subscription: bool) -> (action: Subscription)
    ensures
        action == if subscription {
            Subscription::Subscribe
        } else {
            Subscription::Unsubscribe
        },
{
    mgr.subscribe(subscription)
}

} // verus!
