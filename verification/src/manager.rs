//! The session manager of one connector: the only owner of the session
//! state, which it changes through checked operations, and of the events that
//! tell subscribers of each change.
//!
//! The operations are stated over a model of the session: `OcppState::step`
//! gives the state after an operation, `OcppState::emits` the events the
//! operation publishes.

use vstd::prelude::*;
use crate::chmgr_types::ReservationSession;
use crate::chmgr_types::ReservationStatus;
use crate::error::OcppError;
use crate::ocpp_types::OcppMsg;
use crate::ocpp_types::OcppState;
use crate::ocpp_types::OcppStatus;
use crate::ocpp_types::PowerLimit;
use crate::v106;

verus! {

/// An operation that changes the session or publishes an event.
pub enum SessionOp {
    Login(i32),
    Logout,
    Authorized(bool),
    SetStatus(OcppStatus),
    ReserveNow(ReservationSession),
    ReserveCancel(i32),
    SetLimit(PowerLimit),
    Reset,
    RemoteStop(i32),
}

/// What a subscription request asks the event publisher to do.
#[derive(Clone, Copy, Debug, PartialEq, Eq, Structural)]
pub enum Subscription {
    Subscribe,
    Unsubscribe,
}

impl SessionOp {
    /// Whether the operation is one of those that end a transaction.
    pub open spec fn ends_session(self) -> bool {
        self is Logout || self is Reset || self is RemoteStop
    }
}

impl OcppState {
    /// Whether a transaction is running.
    pub open spec fn in_session(self) -> bool {
        self.tid != 0
    }

    /// The guard before a start (`expect_active` false) or a stop
    /// (`expect_active` true) of a transaction.
    pub open spec fn session_check(self, expect_active: bool) -> Result<(), OcppError> {
        if expect_active && !self.in_session() {
            Err(OcppError::NoActiveSession)
        } else if !expect_active && self.in_session() {
            Err(OcppError::SessionAlreadyActive { tid: self.tid })
        } else {
            Ok(())
        }
    }

    /// Whether a cancellation of reservation `rid` finds that reservation.
    pub open spec fn holds_reservation(self, rid: i32) -> bool {
        self.reservation matches Some(session) && session.id == rid
    }

    /// The answer to a reserve-now request: `Occupied` while a reservation
    /// exists, whatever the request holds.
    pub open spec fn reserve_answer(self) -> v106::ReservationStatus {
        if self.reservation is Some {
            v106::ReservationStatus::Occupied
        } else {
            v106::ReservationStatus::Accepted
        }
    }

    /// The answer to a cancellation of reservation `rid`.
    pub open spec fn cancel_answer(self, rid: i32) -> v106::CancelReservationStatus {
        if self.holds_reservation(rid) {
            v106::CancelReservationStatus::Accepted
        } else {
            v106::CancelReservationStatus::Rejected
        }
    }

    /// The answer to a power limit: accepted for the running transaction and
    /// for no other.
    pub open spec fn limit_answer(self, limit: PowerLimit) -> v106::ChargingProfileStatus {
        if limit.tid == self.tid {
            v106::ChargingProfileStatus::Accepted
        } else {
            v106::ChargingProfileStatus::Rejected
        }
    }

    /// The answer to a remote stop of transaction `tid`.
    pub open spec fn remote_stop_answer(self, tid: i32) -> Result<(), OcppError> {
        if self.tid != tid {
            Err(OcppError::TransactionMismatch { expected: self.tid, got: tid })
        } else {
            Ok(())
        }
    }

    /// The state after an operation.
    pub open spec fn step(self, op: SessionOp) -> OcppState {
        match op {
            SessionOp::Login(tid) => OcppState { tid, ..self },
            SessionOp::Logout => OcppState { tid: 0, ..self },
            SessionOp::Authorized(flag) => OcppState { authorized: flag, ..self },
            SessionOp::SetStatus(status) => OcppState { status, ..self },
            SessionOp::ReserveNow(request) => if self.reservation is Some {
                self
            } else {
                OcppState { reservation: Some(request), ..self }
            },
            SessionOp::ReserveCancel(rid) => if self.holds_reservation(rid) {
                OcppState { reservation: None, ..self }
            } else {
                self
            },
            SessionOp::SetLimit(_) => self,
            SessionOp::Reset => OcppState { tid: 0, ..self },
            SessionOp::RemoteStop(tid) => if self.tid == tid {
                OcppState { tid: 0, ..self }
            } else {
                self
            },
        }
    }

    /// The events an operation publishes, in order.
    pub open spec fn emits(self, op: SessionOp) -> Seq<OcppMsg> {
        match op {
            SessionOp::Login(tid) => seq![OcppMsg::Transaction(true, tid)],
            SessionOp::Logout => seq![OcppMsg::Transaction(false, self.tid)],
            SessionOp::Authorized(flag) => seq![OcppMsg::Authorized(flag)],
            SessionOp::SetStatus(_) => Seq::empty(),
            SessionOp::ReserveNow(request) => if self.reservation is Some {
                Seq::empty()
            } else {
                seq![OcppMsg::Reservation(request)]
            },
            SessionOp::ReserveCancel(rid) => if self.holds_reservation(rid) {
                seq![
                    OcppMsg::Reservation(
                        self.reservation->Some_0.with_status(ReservationStatus::Cancel),
                    ),
                ]
            } else {
                Seq::empty()
            },
            SessionOp::SetLimit(limit) => if limit.tid == self.tid {
                seq![OcppMsg::PowerLimit(limit)]
            } else {
                Seq::empty()
            },
            SessionOp::Reset => seq![OcppMsg::Reset, OcppMsg::Transaction(false, self.tid)],
            SessionOp::RemoteStop(tid) => if self.tid == tid {
                seq![OcppMsg::Transaction(false, tid)]
            } else {
                Seq::empty()
            },
        }
    }

    /// The state after a sequence of operations.
    pub open spec fn run(self, ops: Seq<SessionOp>) -> OcppState
        decreases ops.len(),
    {
        if ops.len() == 0 {
            self
        } else {
            self.run(ops.drop_last()).step(ops.last())
        }
    }
}

/// The session manager of one connector.
///
/// It owns the session state and the events that wait for delivery. A change
/// of the state needs exclusive access, so two operations never interleave.
#[derive(Debug)]
pub struct ManagerHandle {
    data_set: OcppState,
    events: Vec<OcppMsg>,
}

impl ManagerHandle {
    /// The session state.
    pub closed spec fn state(&self) -> OcppState {
        self.data_set
    }

    /// The events published and not yet taken for delivery, oldest first.
    pub closed spec fn pending(&self) -> Seq<OcppMsg> {
        self.events@
    }

    /// Whether `self` is `before` after the operation `op`.
    pub open spec fn follows(&self, before: &ManagerHandle, op: SessionOp) -> bool {
        &&& self.state() == before.state().step(op)
        &&& self.pending() == before.pending() + before.state().emits(op)
    }

    /// A manager for connector `cid`, with the session in its initial state
    /// and no event published.
    pub fn new(cid: u32) -> (mgr: ManagerHandle)
        ensures
            mgr.state() == OcppState::initial(cid),
            mgr.pending() == Seq::<OcppMsg>::empty(),
    {
        ManagerHandle {
            data_set: OcppState {
                connector_id: cid,
                tid: 0,
                reservation: None,
                authorized: false,
                status: OcppStatus::Available,
            },
            events: Vec::new(),
        }
    }

    /// The session state, for reading.
    pub fn get_state(&self) -> (state: &OcppState)
        ensures
            *state == self.state(),
    {
        &self.data_set
    }

    /// Tells the event publisher what to do with the caller: to subscribe it
    /// to the events of the manager, or to unsubscribe it.
    pub fn subscribe(&self, subscription: bool) -> (action: Subscription)
        ensures
            action == if subscription {
                Subscription::Subscribe
            } else {
                Subscription::Unsubscribe
            },
    {
        if subscription {
            Subscription::Subscribe
        } else {
            Subscription::Unsubscribe
        }
    }

    /// The guard before a start or a stop of a transaction.
    ///
    /// With `status` true it fails with `NoActiveSession` unless a
    /// transaction is running; with `status` false it fails with
    /// `SessionAlreadyActive` while one is running.
    pub fn check_active_session(&self, status: bool) -> (r: Result<(), OcppError>)
        ensures
            r == self.state().session_check(status),
    {
        if status && self.data_set.tid == 0 {
            return Err(OcppError::NoActiveSession);
        }
        if !status && self.data_set.tid != 0 {
            return Err(OcppError::SessionAlreadyActive { tid: self.data_set.tid });
        }
        Ok(())
    }

    /// The id of the connector.
    pub fn get_cid(&self) -> (cid: u32)
        ensures
            cid == self.state().connector_id,
    {
        self.data_set.connector_id
    }

    /// Records the status of the charger. Publishes nothing.
    pub fn set_status(&mut self, status: &OcppStatus)
        ensures
            final(self).follows(old(self), SessionOp::SetStatus(*status)),
    {
        self.data_set.status = *status;
        assert(self.events@ + Seq::<OcppMsg>::empty() =~= self.events@);
    }

    /// The status of the charger.
    pub fn get_status(&self) -> (status: OcppStatus)
        ensures
            status == self.state().status,
    {
        self.data_set.status
    }

    /// The id of the running transaction, 0 while there is none.
    pub fn get_tid(&self) -> (tid: i32)
        ensures
            tid == self.state().tid,
    {
        self.data_set.tid
    }

    /// Records the outcome of an authorization and publishes it.
    pub fn authorized(&mut self, authorized: bool)
        ensures
            final(self).follows(old(self), SessionOp::Authorized(authorized)),
    {
        self.events.push(OcppMsg::Authorized(authorized));
        self.data_set.authorized = authorized;
        assert(self.events@ =~= old(self).events@ + seq![OcppMsg::Authorized(authorized)]);
    }

    /// Makes `tid` the running transaction and publishes its start.
    pub fn login(&mut self, tid: i32)
        ensures
            final(self).follows(old(self), SessionOp::Login(tid)),
    {
        self.events.push(OcppMsg::Transaction(true, tid));
        self.data_set.tid = tid;
        assert(self.events@ =~= old(self).events@ + seq![OcppMsg::Transaction(true, tid)]);
    }

    /// Ends the running transaction and publishes its stop.
    pub fn logout(&mut self)
        ensures
            final(self).follows(old(self), SessionOp::Logout),
    {
        let tid: i32 = self.data_set.tid;
        self.events.push(OcppMsg::Transaction(false, tid));
        self.data_set.tid = 0;
        assert(self.events@ =~= old(self).events@ + seq![OcppMsg::Transaction(false, tid)]);
    }

    /// Publishes a reset, then ends the running transaction as `logout` does.
    pub fn reset(&mut self)
        ensures
            final(self).follows(old(self), SessionOp::Reset),
    {
        self.events.push(OcppMsg::Reset);
        let tid: i32 = self.data_set.tid;
        self.events.push(OcppMsg::Transaction(false, tid));
        self.data_set.tid = 0;
        assert(self.events@ =~= old(self).events@ + seq![
            OcppMsg::Reset,
            OcppMsg::Transaction(false, tid),
        ]);
    }

    /// Reserves the connector.
    ///
    /// While a reservation exists the answer is `Occupied`, and nothing
    /// changes. Otherwise the request is stored and published, and the answer
    /// is `Accepted`.
    pub fn reserv_now(&mut self, request: ReservationSession) -> (answer: v106::ReservationStatus)
        ensures
            answer == old(self).state().reserve_answer(),
            final(self).follows(old(self), SessionOp::ReserveNow(request)),
    {
        if self.data_set.reservation.is_some() {
            assert(self.events@ + Seq::<OcppMsg>::empty() =~= self.events@);
            v106::ReservationStatus::Occupied
        } else {
            self.events.push(OcppMsg::Reservation(request.clone()));
            self.data_set.reservation = Some(request);
            assert(self.events@ =~= old(self).events@ + seq![OcppMsg::Reservation(request)]);
            v106::ReservationStatus::Accepted
        }
    }

    /// Cancels the reservation `rid`.
    ///
    /// Without a reservation, or with one of another id, the answer is
    /// `Rejected`, and nothing changes. Otherwise the reservation is dropped,
    /// a copy of it with the status `Cancel` is published, and the answer is
    /// `Accepted`.
    pub fn reserv_cancel(&mut self, rid: i32) -> (answer: v106::CancelReservationStatus)
        ensures
            answer == old(self).state().cancel_answer(rid),
            final(self).follows(old(self), SessionOp::ReserveCancel(rid)),
    {
        match &self.data_set.reservation {
            None => {
                assert(self.events@ + Seq::<OcppMsg>::empty() =~= self.events@);
                v106::CancelReservationStatus::Rejected
            },
            Some(resa) => {
                if rid != resa.id {
                    assert(self.events@ + Seq::<OcppMsg>::empty() =~= self.events@);
                    v106::CancelReservationStatus::Rejected
                } else {
                    let mut cancel = resa.clone();
                    cancel.status = ReservationStatus::Cancel;
                    self.events.push(OcppMsg::Reservation(cancel));
                    self.data_set.reservation = None;
                    assert(self.events@ =~= old(self).events@ + seq![
                        OcppMsg::Reservation(cancel),
                    ]);
                    v106::CancelReservationStatus::Accepted
                }
            },
        }
    }

    /// Applies a power limit.
    ///
    /// A limit for the running transaction is published, and the answer is
    /// `Accepted`. A limit for any other transaction is `Rejected`. The
    /// session state does not change.
    pub fn set_limit(&mut self, limit: PowerLimit) -> (answer: v106::ChargingProfileStatus)
        ensures
            answer == old(self).state().limit_answer(limit),
            final(self).follows(old(self), SessionOp::SetLimit(limit)),
    {
        if limit.tid != self.data_set.tid {
            assert(self.events@ + Seq::<OcppMsg>::empty() =~= self.events@);
            v106::ChargingProfileStatus::Rejected
        } else {
            self.events.push(OcppMsg::PowerLimit(limit));
            assert(self.events@ =~= old(self).events@ + seq![OcppMsg::PowerLimit(limit)]);
            v106::ChargingProfileStatus::Accepted
        }
    }

    /// Ends the transaction `tid` at the request of the backend.
    ///
    /// Fails with `TransactionMismatch`, and changes nothing, unless `tid` is
    /// the running transaction. Otherwise the stop is published and no
    /// transaction is running any more.
    pub fn remote_stop_transaction(&mut self, tid: i32) -> (r: Result<(), OcppError>)
        ensures
            r == old(self).state().remote_stop_answer(tid),
            final(self).follows(old(self), SessionOp::RemoteStop(tid)),
    {
        if self.data_set.tid != tid {
            assert(self.events@ + Seq::<OcppMsg>::empty() =~= self.events@);
            return Err(OcppError::TransactionMismatch { expected: self.data_set.tid, got: tid });
        }
        self.events.push(OcppMsg::Transaction(false, tid));
        self.data_set.tid = 0;
        assert(self.events@ =~= old(self).events@ + seq![OcppMsg::Transaction(false, tid)]);
        Ok(())
    }

    /// Hands out the published events for delivery, oldest first, and keeps
    /// none of them. The session state does not change.
    pub fn take_events(&mut self) -> (events: Vec<OcppMsg>)
        ensures
            events@ == old(self).pending(),
            final(self).pending() == Seq::<OcppMsg>::empty(),
            final(self).state() == old(self).state(),
    {
        let mut events: Vec<OcppMsg> = Vec::new();
        core::mem::swap(&mut self.events, &mut events);
        events
    }
}

/// After a login with an id other than 0, and until an operation ends the
/// transaction, the id stays what the login made it and the guard before a
/// start refuses: no second start gets as far as a second login.
pub proof fn lemma_guard_refuses_start_until_logout(
    state: OcppState,
    tid: i32,
    ops: Seq<SessionOp>,
)
    requires
        tid != 0,
        forall|i: int|
            0 <= i < ops.len() ==> !(#[trigger] ops[i]).ends_session() && !(ops[i] is Login),
    ensures
        state.step(SessionOp::Login(tid)).run(ops).tid == tid,
        state.step(SessionOp::Login(tid)).run(ops).session_check(false) == Err::<(), OcppError>(
            OcppError::SessionAlreadyActive { tid },
        ),
    decreases ops.len(),
{
    if ops.len() > 0 {
        let head = ops.drop_last();
        assert forall|i: int| 0 <= i < head.len() implies !(#[trigger] head[i]).ends_session()
            && !(head[i] is Login) by {
            assert(head[i] == ops[i]);
        }
        lemma_guard_refuses_start_until_logout(state, tid, head);
        assert(!ops[ops.len() - 1].ends_session());
    }
}

/// Once a transaction has ended, the guard before a stop refuses and the
/// guard before a start lets pass.
pub proof fn lemma_logout_ends_session(state: OcppState)
    ensures
        !state.step(SessionOp::Logout).in_session(),
        state.step(SessionOp::Logout).session_check(true) == Err::<(), OcppError>(
            OcppError::NoActiveSession,
        ),
        state.step(SessionOp::Logout).session_check(false) == Ok::<(), OcppError>(()),
{
}

/// No sequence of operations changes the id of the connector.
pub proof fn lemma_connector_id_is_fixed(state: OcppState, ops: Seq<SessionOp>)
    ensures
        state.run(ops).connector_id == state.connector_id,
    decreases ops.len(),
{
    if ops.len() > 0 {
        lemma_connector_id_is_fixed(state, ops.drop_last());
    }
}

/// The running transaction changes only with a login or with an operation
/// that ends it, and such an operation leaves the reservation alone; a
/// reservation or its cancellation leaves the transaction alone.
pub proof fn lemma_session_and_reservation_are_independent(state: OcppState, op: SessionOp)
    ensures
        state.step(op).tid != state.tid ==> op is Login || op.ends_session(),
        op is Login || op.ends_session() ==> state.step(op).reservation == state.reservation,
        state.step(op).reservation != state.reservation ==> op is ReserveNow
            || op is ReserveCancel,
        op is ReserveNow || op is ReserveCancel ==> state.step(op).tid == state.tid,
{
}

/// A cancellation that does not name the stored reservation is rejected,
/// changes nothing and publishes nothing.
pub proof fn lemma_cancel_of_unknown_reservation_is_void(state: OcppState, rid: i32)
    requires
        !state.holds_reservation(rid),
    ensures
        state.cancel_answer(rid) == v106::CancelReservationStatus::Rejected,
        state.step(SessionOp::ReserveCancel(rid)) == state,
        state.emits(SessionOp::ReserveCancel(rid)) == Seq::<OcppMsg>::empty(),
{
}

/// While a reservation exists, a reserve-now request is answered `Occupied`,
/// changes nothing and publishes nothing, whatever it holds. That is so in
/// particular right after a reservation was accepted.
pub proof fn lemma_reservation_is_exclusive(
    state: OcppState,
    first: ReservationSession,
    second: ReservationSession,
)
    ensures
        state.reservation is Some ==> {
            &&& state.reserve_answer() == v106::ReservationStatus::Occupied
            &&& state.step(SessionOp::ReserveNow(second)) == state
            &&& state.emits(SessionOp::ReserveNow(second)) == Seq::<OcppMsg>::empty()
        },
        state.step(SessionOp::ReserveNow(first)).reservation is Some,
        state.step(SessionOp::ReserveNow(first)).step(SessionOp::ReserveNow(second)) == state.step(
            SessionOp::ReserveNow(first),
        ),
{
}

/// A power limit is accepted if and only if it names the running
/// transaction; accepted or not, it leaves the session state as it is.
pub proof fn lemma_limit_accepted_iff_transaction_matches(state: OcppState, limit: PowerLimit)
    ensures
        state.limit_answer(limit) == v106::ChargingProfileStatus::Accepted <==> limit.tid
            == state.tid,
        state.limit_answer(limit) == v106::ChargingProfileStatus::Rejected <==> limit.tid
            != state.tid,
        state.step(SessionOp::SetLimit(limit)) == state,
{
}

} // verus!
