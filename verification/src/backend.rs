//! The verbs that the backend calls on the charge point: reservation, reset,
//! charging profile, remote stop, availability and heartbeat.
//!
//! Each verb takes the message of the backend, changes the session through
//! the manager where the message asks for it, and returns the answer.

use vstd::prelude::*;
use crate::chmgr_types::ReservationSession;
use crate::chmgr_types::ReservationStatus;
use crate::clock::clock_error;
use crate::clock::clock_failed;
use crate::clock::get_utc;
use crate::clock::duration_until;
use crate::clock::spec_duration_until;
use crate::clock::Span;
use crate::clock::Timestamp;
use crate::error::OcppError;
use crate::frontend::is_stop_query;
use crate::frontend::stop_query;
use crate::manager::ManagerHandle;
use crate::manager::SessionOp;
use crate::ocpp_types::PowerLimit;
use crate::v106;

verus! {

/// The answer of a verb: a message, or none, and a status code.
#[derive(Clone, Copy, Debug, PartialEq, Eq)]
pub struct VerbReply<M> {
    pub data: Option<M>,
    pub status: i32,
}

/// The state of the heartbeat verb: how many heartbeats it has answered.
#[derive(Clone, Copy, Debug, PartialEq, Eq, Structural)]
pub struct HeartbeatCtxData {
    pub count: u32,
}

/// What a charging profile of the backend leads to: the answer, and for a
/// profile that names a transaction other than the running one the request
/// that makes the backend stop that transaction.
#[derive(Clone, Debug, PartialEq, Eq)]
pub struct ProfileOutcome {
    pub reply: VerbReply<v106::SetChargingProfile>,
    pub force_stop: Option<v106::StopTransactionRequest>,
}

/// Status code of an answer to a message the verb accepts.
pub const STATUS_DONE: i32 = 0;

/// Status code of an answer to a message the verb does not take.
pub const STATUS_REFUSED: i32 = -1;

impl<M> VerbReply<M> {
    /// The answer that carries the message `data` with the status `STATUS_DONE`.
    pub open spec fn message(data: M) -> VerbReply<M> {
        VerbReply { data: Some(data), status: STATUS_DONE }
    }

    /// The answer without a message.
    pub open spec fn empty(status: i32) -> VerbReply<M> {
        VerbReply { data: None, status }
    }
}

/// The transaction id that stands for a charging profile that names no
/// transaction. It is not 0, so such a profile never fits a connector
/// without a running transaction.
pub const NO_TRANSACTION: i32 = -1;

/// The transaction a charging profile is meant for; `NO_TRANSACTION` where it
/// names none.
pub open spec fn profile_target(request: v106::SetChargingProfileRequest) -> i32 {
    match request.cs_charging_profiles.transaction_id {
        Some(tid) => tid,
        None => NO_TRANSACTION,
    }
}

/// The power limit that a charging profile asks for: the limit of its first
/// period for the duration of its schedule. There is none where the schedule
/// has no duration or no period.
pub open spec fn profile_limit(request: v106::SetChargingProfileRequest) -> Option<PowerLimit> {
    let schedule = request.cs_charging_profiles.charging_schedule;
    if schedule.duration is Some && schedule.charging_schedule_period@.len() > 0 {
        Some(
            PowerLimit {
                tid: profile_target(request),
                imax: schedule.charging_schedule_period@[0].limit,
                duration: schedule.duration->Some_0,
            },
        )
    } else {
        None
    }
}

/// Whether `r` and `after` are what a heartbeat message `data` leads to from
/// the state `before` at the time `now`: a request is counted and answered
/// with the time, anything else is refused with the status `STATUS_REFUSED`.
pub open spec fn is_heartbeat_outcome(
    r: VerbReply<v106::Heartbeat>,
    before: HeartbeatCtxData,
    after: HeartbeatCtxData,
    data: v106::Heartbeat,
    now: Timestamp,
) -> bool {
    match data {
        v106::Heartbeat::Request(_) => {
            &&& after.count == before.count + 1
            &&& r == VerbReply::message(
                v106::Heartbeat::Response(v106::HeartbeatResponse { current_time: now }),
            )
        },
        v106::Heartbeat::Response(_) => {
            &&& after == before
            &&& r == VerbReply::<v106::Heartbeat>::empty(STATUS_REFUSED)
        },
    }
}

/// The reservation that a reserve-now request asks for, where `stop` is the
/// time left until it expires.
pub open spec fn requested_reservation(
    request: v106::ReserveNowRequest,
    stop: Span,
) -> ReservationSession {
    ReservationSession {
        id: request.reservation_id,
        tagid: request.id_tag,
        start: Span::spec_zero(),
        stop,
        status: ReservationStatus::Pending,
    }
}

/// Whether `r` and `after` are what a reserve-now message `data` leads to
/// from the manager `before` at the time `now`.
///
/// A request whose expiry date is not ahead of `now` fails and changes
/// nothing. Any other request is handed to the manager, and its answer is
/// sent back. Anything but a request is refused with the status `STATUS_REFUSED`.
pub open spec fn is_reserve_outcome(
    r: Result<VerbReply<v106::ReserveNow>, OcppError>,
    before: ManagerHandle,
    after: ManagerHandle,
    data: v106::ReserveNow,
    now: Timestamp,
) -> bool {
    match data {
        v106::ReserveNow::Request(request) => match spec_duration_until(
            request.expiry_date,
            now,
        ) {
            Err(e) => r == Err::<VerbReply<v106::ReserveNow>, OcppError>(e) && after == before,
            Ok(stop) => {
                &&& r == Ok::<VerbReply<v106::ReserveNow>, OcppError>(
                    VerbReply::message(
                        v106::ReserveNow::Response(
                            v106::ReserveNowResponse { status: before.state().reserve_answer() },
                        ),
                    ),
                )
                &&& after.follows(
                    &before,
                    SessionOp::ReserveNow(requested_reservation(request, stop)),
                )
            },
        },
        v106::ReserveNow::Response(_) => {
            &&& r == Ok::<VerbReply<v106::ReserveNow>, OcppError>(
                VerbReply::<v106::ReserveNow>::empty(STATUS_REFUSED),
            )
            &&& after == before
        },
    }
}

/// Whether `data` is a charging profile for another transaction than the one
/// that runs in `mgr`.
pub open spec fn is_stale_profile(mgr: ManagerHandle, data: v106::SetChargingProfile) -> bool {
    data matches v106::SetChargingProfile::Request(request) && profile_target(request)
        != mgr.state().tid
}

/// Whether `r` and `after` are what a set-charging-profile message `data`
/// leads to from the manager `before` at the time `now`.
///
/// A profile for another transaction than the running one is rejected, and
/// the answer comes with the request to stop that transaction at the meter
/// reading 0. A profile for the running transaction is applied as a power
/// limit and accepted; it fails with `InvalidProfile` where it holds no
/// limit. Anything but a request is answered without a message.
pub open spec fn is_profile_outcome(
    r: Result<ProfileOutcome, OcppError>,
    before: ManagerHandle,
    after: ManagerHandle,
    data: v106::SetChargingProfile,
    now: Timestamp,
) -> bool {
    match data {
        v106::SetChargingProfile::Request(request) => if profile_target(request)
            != before.state().tid {
            &&& r matches Ok(outcome)
            &&& outcome.reply == VerbReply::message(
                v106::SetChargingProfile::Response(
                    v106::SetChargingProfileResponse {
                        status: v106::ChargingProfileStatus::Rejected,
                    },
                ),
            )
            &&& outcome.force_stop matches Some(stop)
            &&& is_stop_query(stop, profile_target(request), 0, now)
            &&& after == before
        } else {
            match profile_limit(request) {
                None => r == Err::<ProfileOutcome, OcppError>(OcppError::InvalidProfile) && after
                    == before,
                Some(limit) => {
                    &&& r matches Ok(outcome)
                    &&& outcome.reply == VerbReply::message(
                        v106::SetChargingProfile::Response(
                            v106::SetChargingProfileResponse {
                                status: v106::ChargingProfileStatus::Accepted,
                            },
                        ),
                    )
                    &&& outcome.force_stop is None
                    &&& after.follows(&before, SessionOp::SetLimit(limit))
                },
            }
        },
        v106::SetChargingProfile::Response(_) => {
            &&& r matches Ok(outcome)
            &&& outcome.reply == VerbReply::<v106::SetChargingProfile>::empty(STATUS_DONE)
            &&& outcome.force_stop is None
            &&& after == before
        },
    }
}

/// Answers a heartbeat of the backend at the time `now`.
///
/// A request is counted and answered with the time. Anything else is refused
/// with the status `STATUS_REFUSED`. The count must have room for one more.
pub fn heartbeat_answer(ctx: &mut HeartbeatCtxData, data: &v106::Heartbeat, now: Timestamp) -> (r:
    VerbReply<v106::Heartbeat>)
    requires
        data is Request ==> old(ctx).count < u32::MAX,
    ensures
        is_heartbeat_outcome(r, *old(ctx), *final(ctx), *data, now),
{
    match data {
        v106::Heartbeat::Request(_) => {
            ctx.count = ctx.count + 1;
            VerbReply {
                data: Some(
                    v106::Heartbeat::Response(v106::HeartbeatResponse { current_time: now }),
                ),
                status: STATUS_DONE,
            }
        },
        _ => VerbReply { data: None, status: STATUS_REFUSED },
    }
}

/// Answers a heartbeat of the backend with the time read from the clock.
///
/// A request is counted and answered with the time; with an error of the
/// clock it is not counted. Anything else is refused with the status
/// `STATUS_REFUSED`, without a look at the clock. The count must have room
/// for one more.
pub fn heartbeat_cb(ctx: &mut HeartbeatCtxData, data: &v106::Heartbeat) -> (r: Result<
    VerbReply<v106::Heartbeat>,
    OcppError,
>)
    requires
        data is Request ==> old(ctx).count < u32::MAX,
    ensures
        match r {
            Ok(reply) => exists|now: Timestamp| #[trigger]
                is_heartbeat_outcome(reply, *old(ctx), *final(ctx), *data, now),
            Err(e) => data is Request && clock_error(e) && *final(ctx) == *old(ctx),
        },
{
    let now = match data {
        v106::Heartbeat::Request(_) => match get_utc() {
            Ok(now) => now,
            Err(e) => {
                return Err(e);
            },
        },
        // The answer to anything else holds no time.
        _ => Timestamp::epoch(),
    };
    let reply = heartbeat_answer(ctx, data, now);
    assert(is_heartbeat_outcome(reply, *old(ctx), *ctx, *data, now));
    Ok(reply)
}

/// Cancels a reservation at the request of the backend.
///
/// The reservation id of a request is handed to the manager, and its answer
/// is sent back. Anything but a request is refused with the status `STATUS_REFUSED` and
/// changes nothing.
pub fn cancel_notification_cb(mgr: &mut ManagerHandle, data: &v106::CancelReservation) -> (r:
    VerbReply<v106::CancelReservation>)
    ensures
        data matches v106::CancelReservation::Request(request) ==> {
            &&& r == VerbReply::message(
                v106::CancelReservation::Response(
                    v106::CancelReservationResponse {
                        status: old(mgr).state().cancel_answer(request.reservation_id),
                    },
                ),
            )
            &&& final(mgr).follows(old(mgr), SessionOp::ReserveCancel(request.reservation_id))
        },
        data is Response ==> r == VerbReply::<v106::CancelReservation>::empty(STATUS_REFUSED) && *final(mgr)
            == *old(mgr),
{
    match data {
        v106::CancelReservation::Request(value) => {
            let status = mgr.reserv_cancel(value.reservation_id);
            let response = v106::CancelReservationResponse { status };
            VerbReply { data: Some(v106::CancelReservation::Response(response)), status: STATUS_DONE }
        },
        _ => VerbReply { data: None, status: STATUS_REFUSED },
    }
}

/// Reserves the connector at the request of the backend, at the time `now`.
pub fn reserve_now_answer(mgr: &mut ManagerHandle, data: &v106::ReserveNow, now: Timestamp) -> (r:
    Result<VerbReply<v106::ReserveNow>, OcppError>)
    ensures
        is_reserve_outcome(r, *old(mgr), *final(mgr), *data, now),
{
    match data {
        v106::ReserveNow::Request(value) => {
            let stop = match duration_until(value.expiry_date, now) {
                Ok(stop) => stop,
                Err(e) => {
                    return Err(e);
                },
            };
            let reservation = ReservationSession {
                id: value.reservation_id,
                tagid: value.id_tag.clone(),
                start: Span::zero(),
                stop,
                status: ReservationStatus::Pending,
            };
            let status = mgr.reserv_now(reservation);
            let response = v106::ReserveNowResponse { status };
            Ok(VerbReply { data: Some(v106::ReserveNow::Response(response)), status: STATUS_DONE })
        },
        _ => Ok(VerbReply { data: None, status: STATUS_REFUSED }),
    }
}

/// Reserves the connector at the request of the backend.
///
/// The reservation lasts from now, read from the clock, until the expiry
/// date of the request, and starts as pending: the result is that of
/// `reserve_now_answer` for the instant that the clock gave. With an error of
/// the clock the request fails and nothing changes. Anything but a request
/// is refused without a look at the clock.
pub fn reserve_now_cb(mgr: &mut ManagerHandle, data: &v106::ReserveNow) -> (r: Result<
    VerbReply<v106::ReserveNow>,
    OcppError,
>)
    ensures
        (exists|now: Timestamp|
            now.representable() && #[trigger] is_reserve_outcome(
                r,
                *old(mgr),
                *final(mgr),
                *data,
                now,
            )) || (data is Request && clock_failed(r) && *final(mgr) == *old(mgr)),
{
    let now = match data {
        v106::ReserveNow::Request(_) => match get_utc() {
            Ok(now) => now,
            Err(e) => {
                return Err(e);
            },
        },
        // The answer to anything else holds no time.
        _ => Timestamp::epoch(),
    };
    let r = reserve_now_answer(mgr, data, now);
    assert(now.representable() && is_reserve_outcome(r, *old(mgr), *mgr, *data, now));
    r
}

/// Answers a change of availability: every request is accepted. Anything but
/// a request is refused with the status `STATUS_REFUSED`.
pub fn change_availability_cb(data: &v106::ChangeAvailability) -> (r: VerbReply<
    v106::ChangeAvailability,
>)
    ensures
        data is Request ==> r == VerbReply::message(
            v106::ChangeAvailability::Response(
                v106::ChangeAvailabilityResponse { status: v106::AvailabilityStatus::Accepted },
            ),
        ),
        data is Response ==> r == VerbReply::<v106::ChangeAvailability>::empty(STATUS_REFUSED),
{
    match data {
        v106::ChangeAvailability::Request(_) => {
            let response = v106::ChangeAvailabilityResponse {
                status: v106::AvailabilityStatus::Accepted,
            };
            VerbReply { data: Some(v106::ChangeAvailability::Response(response)), status: STATUS_DONE }
        },
        _ => VerbReply { data: None, status: STATUS_REFUSED },
    }
}

/// Resets the session at the request of the backend.
///
/// A soft reset is performed by the manager and accepted. A hard reset is
/// rejected and changes nothing. Anything but a request is refused with the
/// status `STATUS_REFUSED` and changes nothing.
pub fn reset_cb(mgr: &mut ManagerHandle, data: &v106::Reset) -> (r: VerbReply<v106::Reset>)
    ensures
        data matches v106::Reset::Request(request) && request.kind
            == v106::ResetRequestStatus::Soft ==> {
            &&& r == VerbReply::message(
                v106::Reset::Response(
                    v106::ResetResponse { status: v106::ResetResponseStatus::Accepted },
                ),
            )
            &&& final(mgr).follows(old(mgr), SessionOp::Reset)
        },
        data matches v106::Reset::Request(request) && request.kind
            == v106::ResetRequestStatus::Hard ==> {
            &&& r == VerbReply::message(
                v106::Reset::Response(
                    v106::ResetResponse { status: v106::ResetResponseStatus::Rejected },
                ),
            )
            &&& *final(mgr) == *old(mgr)
        },
        data is Response ==> r == VerbReply::<v106::Reset>::empty(STATUS_REFUSED) && *final(mgr) == *old(mgr),
{
    match data {
        v106::Reset::Request(reset) => {
            let status = match reset.kind {
                v106::ResetRequestStatus::Hard => v106::ResetResponseStatus::Rejected,
                v106::ResetRequestStatus::Soft => {
                    mgr.reset();
                    v106::ResetResponseStatus::Accepted
                },
            };
            let response = v106::ResetResponse { status };
            VerbReply { data: Some(v106::Reset::Response(response)), status: STATUS_DONE }
        },
        _ => VerbReply { data: None, status: STATUS_REFUSED },
    }
}

/// Applies a charging profile of the backend at the time `now`.
pub fn charging_profile_answer(
    mgr: &mut ManagerHandle,
    data: &v106::SetChargingProfile,
    now: Timestamp,
) -> (r: Result<ProfileOutcome, OcppError>)
    ensures
        is_profile_outcome(r, *old(mgr), *final(mgr), *data, now),
{
    match data {
        v106::SetChargingProfile::Request(value) => {
            let target_tid: i32 = match value.cs_charging_profiles.transaction_id {
                Some(value) => value,
                None => NO_TRANSACTION,
            };
            let session_tid: i32 = mgr.get_tid();
            if target_tid != session_tid {
                let status = v106::ChargingProfileStatus::Rejected;
                let response = v106::SetChargingProfileResponse { status };
                return Ok(
                    ProfileOutcome {
                        reply: VerbReply {
                            data: Some(v106::SetChargingProfile::Response(response)),
                            status: STATUS_DONE,
                        },
                        force_stop: Some(stop_query(target_tid, 0, now)),
                    },
                );
            }
            let schedule = &value.cs_charging_profiles.charging_schedule;
            let duration: u32 = match schedule.duration {
                Some(duration) => duration,
                None => {
                    return Err(OcppError::InvalidProfile);
                },
            };
            if schedule.charging_schedule_period.len() == 0 {
                return Err(OcppError::InvalidProfile);
            }
            let limit = PowerLimit {
                tid: target_tid,
                imax: schedule.charging_schedule_period[0].limit,
                duration,
            };
            let status = mgr.set_limit(limit);
            let response = v106::SetChargingProfileResponse { status };
            Ok(
                ProfileOutcome {
                    reply: VerbReply {
                        data: Some(v106::SetChargingProfile::Response(response)),
                        status: STATUS_DONE,
                    },
                    force_stop: None,
                },
            )
        },
        _ => Ok(ProfileOutcome { reply: VerbReply { data: None, status: STATUS_DONE }, force_stop: None }),
    }
}

/// Applies a charging profile of the backend; the time of a forced stop is
/// read from the clock.
///
/// The result is that of `charging_profile_answer` for the instant that the
/// clock gave. The clock is read only for a profile that names another
/// transaction than the running one; with an error of the clock such a
/// profile fails and nothing changes.
pub fn set_charging_profile_cb(mgr: &mut ManagerHandle, data: &v106::SetChargingProfile) -> (r:
    Result<ProfileOutcome, OcppError>)
    ensures
        (exists|now: Timestamp| #[trigger]
            is_profile_outcome(r, *old(mgr), *final(mgr), *data, now)) || (is_stale_profile(
            *old(mgr),
            *data,
        ) && clock_failed(r) && *final(mgr) == *old(mgr)),
{
    let stale = match data {
        v106::SetChargingProfile::Request(value) => {
            let target_tid: i32 = match value.cs_charging_profiles.transaction_id {
                Some(value) => value,
                None => NO_TRANSACTION,
            };
            target_tid != mgr.get_tid()
        },
        _ => false,
    };
    let now = if stale {
        match get_utc() {
            Ok(now) => now,
            Err(e) => {
                return Err(e);
            },
        }
    } else {
        // The answer to anything else holds no time.
        Timestamp::epoch()
    };
    let r = charging_profile_answer(mgr, data, now);
    assert(is_profile_outcome(r, *old(mgr), *mgr, *data, now));
    r
}

/// Stops a transaction at the request of the backend.
///
/// A request that names the running transaction ends it and is accepted. A
/// request that names another one fails with `TransactionMismatch` and
/// changes nothing. Anything but a request is refused with the status `STATUS_REFUSED` and
/// changes nothing.
pub fn remote_stop_transaction_cb(mgr: &mut ManagerHandle, data: &v106::RemoteStopTransaction) -> (r:
    Result<VerbReply<v106::RemoteStopTransaction>, OcppError>)
    ensures
        data matches v106::RemoteStopTransaction::Request(request) ==> {
            &&& final(mgr).follows(old(mgr), SessionOp::RemoteStop(request.transaction_id))
            &&& match old(mgr).state().remote_stop_answer(request.transaction_id) {
                Err(e) => r == Err::<VerbReply<v106::RemoteStopTransaction>, OcppError>(e),
                Ok(_) => r == Ok::<VerbReply<v106::RemoteStopTransaction>, OcppError>(
                    VerbReply::message(
                        v106::RemoteStopTransaction::Response(
                            v106::RemoteStopTransactionResponse {
                                status: v106::RemoteStartStopStatus::Accepted,
                            },
                        ),
                    ),
                ),
            }
        },
        data is Response ==> r == Ok::<VerbReply<v106::RemoteStopTransaction>, OcppError>(
            VerbReply::<v106::RemoteStopTransaction>::empty(STATUS_REFUSED),
        ) && *final(mgr) == *old(mgr),
{
    match data {
        v106::RemoteStopTransaction::Request(value) => {
            match mgr.remote_stop_transaction(value.transaction_id) {
                Err(e) => Err(e),
                Ok(_) => {
                    let response = v106::RemoteStopTransactionResponse {
                        status: v106::RemoteStartStopStatus::Accepted,
                    };
                    Ok(
                        VerbReply {
                            data: Some(v106::RemoteStopTransaction::Response(response)),
                            status: STATUS_DONE,
                        },
                    )
                },
            }
        },
        _ => Ok(VerbReply { data: None, status: STATUS_REFUSED }),
    }
}

} // verus!
