//! A stand-in for the energy manager: it turns a power figure into a
//! snapshot of the meter and keeps the total of what it was given.

use vstd::prelude::*;
use crate::clock::Span;
use crate::engy_types::div_toward_zero;
use crate::engy_types::EnergyAction;
use crate::engy_types::EnergyState;
use crate::error::OcppError;
use crate::manager::Subscription;

verus! {

/// The state of the stand-in: the sum of the power figures pushed so far.
#[derive(Clone, Copy, Debug, PartialEq, Eq, Structural)]
pub struct MockEngyEvtCtx {
    pub total: i32,
}

/// The snapshot that the stand-in publishes for the power figure `power`
/// when the figures pushed so far sum up to `total`.
pub open spec fn mock_snapshot(total: int, power: i32) -> EnergyState {
    EnergyState {
        subscription_max: 0,
        imax: 0,
        pmax: 0,
        umax: 0,
        volts: 0,
        session: total as i32,
        total: 0,
        current: div_toward_zero(power as int, 240) as i32,
        tension: 240,
        power,
        timestamp: Span::spec_zero(),
    }
}

/// Adds `power` to the total and returns the snapshot to publish: the total
/// as the energy of the session, `power` as the power, a tension of 240 and
/// the current that follows from the two. The new total must fit in 32 bits.
pub fn engy_state_request(ctx: &mut MockEngyEvtCtx, power: i32) -> (state: EnergyState)
    requires
        i32::MIN <= old(ctx).total + power <= i32::MAX,
    ensures
        final(ctx).total == old(ctx).total + power,
        state == mock_snapshot(old(ctx).total + power, power),
{
    ctx.total = ctx.total + power;
    EnergyState {
        subscription_max: 0,
        imax: 0,
        pmax: 0,
        umax: 0,
        volts: 0,
        session: ctx.total,
        total: 0,
        current: power / 240,
        tension: 240,
        power,
        timestamp: Span::zero(),
    }
}

/// What a request to the state verb of the stand-in asks the event publisher
/// to do. Fails with `UnsupportedAction` for any action but a subscription or
/// its end.
pub fn subscribe_state_cb(action: &EnergyAction) -> (r: Result<Subscription, OcppError>)
    ensures
        r == match *action {
            EnergyAction::SUBSCRIBE => Ok::<Subscription, OcppError>(Subscription::Subscribe),
            EnergyAction::UNSUBSCRIBE => Ok::<Subscription, OcppError>(Subscription::Unsubscribe),
            _ => Err::<Subscription, OcppError>(OcppError::UnsupportedAction),
        },
{
    match action {
        EnergyAction::SUBSCRIBE => Ok(Subscription::Subscribe),
        EnergyAction::UNSUBSCRIBE => Ok(Subscription::Unsubscribe),
        _ => Err(OcppError::UnsupportedAction),
    }
}

} // verus!
