//! What the energy meter reports, in hundredths of the unit: current, tension,
//! power and energy.

use vstd::prelude::*;
use crate::clock::Span;
use crate::error::OcppError;

verus! {

/// The quantity a meter data set holds.
#[derive(Clone, Copy, Debug, PartialEq, Eq, Structural)]
pub enum MeterTagSet {
    Current,
    Tension,
    Power,
    OverCurrent,
    AvailCurrent,
    Energy,
    Unset,
}

/// Limits the energy manager is configured with.
#[derive(Clone, Copy, Debug, PartialEq, Eq, Structural)]
pub struct EngyConfSet {
    pub pmax: i32,
    pub imax: i32,
}

/// Readings of one quantity: the total and the three phases.
///
/// `start` is taken off every reading of the total; `variation` is the part of
/// a reading, in percent, by which it has to differ from the stored value.
#[derive(Clone, Copy, Debug, PartialEq, Eq, Structural)]
pub struct MeterDataSet {
    pub start: i32,
    pub variation: i32,
    pub updated: bool,
    pub tag: MeterTagSet,
    pub total: i32,
    pub l1: i32,
    pub l2: i32,
    pub l3: i32,
}

/// What a client can ask of the energy manager.
#[derive(Clone, Copy, Debug, PartialEq, Eq, Structural)]
pub enum EnergyAction {
    READ,
    SUBSCRIBE,
    UNSUBSCRIBE,
    RESET,
    INFO,
}

/// A snapshot of the energy meter.
///
/// `tension`, `current` and `power` are hundredths of a volt, an ampere and a
/// watt; `session` is the energy of the running session in tens of
/// watt-hours.
#[derive(Clone, Copy, Debug, PartialEq, Eq, Structural)]
pub struct EnergyState {
    pub subscription_max: i32,
    pub umax: i32,
    pub imax: i32,
    pub pmax: i32,
    pub volts: i32,
    pub timestamp: Span,
    pub session: i32,
    pub total: i32,
    pub current: i32,
    pub tension: i32,
    pub power: i32,
}

/// Quotient of `a` by a positive `b`, rounded toward zero.
pub open spec fn div_toward_zero(a: int, b: int) -> int
    recommends
        b > 0,
{
    if a >= 0 {
        a / b
    } else {
        -((-a) / b)
    }
}

impl MeterTagSet {
    /// The tag of a data set that holds nothing yet.
    pub fn default() -> (tag: MeterTagSet)
        ensures
            tag == MeterTagSet::Unset,
    {
        MeterTagSet::Unset
    }

    /// The variation, in percent, a data set of this quantity starts with:
    /// none for the two current limits, one for every other quantity.
    pub open spec fn initial_variation(self) -> i32 {
        match self {
            MeterTagSet::AvailCurrent => 0,
            MeterTagSet::OverCurrent => 0,
            _ => 1,
        }
    }
}

impl EnergyAction {
    /// The action a request without an explicit action stands for.
    pub fn default() -> (action: EnergyAction)
        ensures
            action == EnergyAction::READ,
    {
        EnergyAction::READ
    }
}

impl MeterDataSet {
    /// An empty data set for the quantity `tag`.
    pub fn default(tag: MeterTagSet) -> (set: MeterDataSet)
        ensures
            set == (MeterDataSet {
                start: 0,
                variation: tag.initial_variation(),
                updated: false,
                tag,
                total: 0,
                l1: 0,
                l2: 0,
                l3: 0,
            }),
    {
        let variation: i32 = match tag {
            MeterTagSet::AvailCurrent => 0,
            MeterTagSet::OverCurrent => 0,
            _ => 1,
        };
        MeterDataSet { tag, variation, start: 0, updated: false, total: 0, l1: 0, l2: 0, l3: 0 }
    }

    /// The margin a reading of `value` is compared with.
    pub open spec fn margin(self, value: i32) -> int {
        div_toward_zero(value * self.variation, 100)
    }

    /// Whether a reading `value` replaces the stored value `stored`.
    pub open spec fn replaces(self, stored: i32, reading: int, value: i32) -> bool {
        stored - self.margin(value) < reading || stored + self.margin(value) > reading
    }

    /// The data set after the reading `value` of phase `phase`; phase 0 is the
    /// total, of which `start` is taken off first.
    pub open spec fn spec_update(self, phase: usize, value: i32) -> MeterDataSet {
        if phase == 0 {
            if self.replaces(self.total, value - self.start, value) {
                MeterDataSet { total: (value - self.start) as i32, updated: true, ..self }
            } else {
                self
            }
        } else if phase == 1 {
            if self.replaces(self.l1, value as int, value) {
                MeterDataSet { l1: value, ..self }
            } else {
                self
            }
        } else if phase == 2 {
            if self.replaces(self.l2, value as int, value) {
                MeterDataSet { l2: value, ..self }
            } else {
                self
            }
        } else if phase == 3 {
            if self.replaces(self.l3, value as int, value) {
                MeterDataSet { l3: value, ..self }
            } else {
                self
            }
        } else {
            self
        }
    }

    /// Takes in the reading `value`, in hundredths of the unit, of phase
    /// `phase`, and marks the set as updated when the total changes.
    ///
    /// Fails with `InvalidPhase`, and changes nothing, for a phase above 3. A
    /// reading of the total must fit, once `start` is taken off, in 32 bits.
    pub fn update(&mut self, phase: usize, value: i32) -> (r: Result<(), OcppError>)
        requires
            phase == 0 ==> i32::MIN <= value - old(self).start <= i32::MAX,
        ensures
            *final(self) == old(self).spec_update(phase, value),
            phase <= 3 ==> r is Ok,
            phase > 3 ==> r == Err::<(), OcppError>(OcppError::InvalidPhase { phase }),
    {
        let wide: i64 = value as i64;
        let percent: i64 = self.variation as i64;
        assert(-0x4000_0000_0000_0000 <= wide * percent <= 0x4000_0000_0000_0000)
            by (nonlinear_arith)
            requires
                -0x8000_0000 <= wide < 0x8000_0000,
                -0x8000_0000 <= percent < 0x8000_0000,
        ;
        let margin: i64 = wide * percent / 100;
        if phase == 0 {
            let reading: i64 = wide - self.start as i64;
            if (self.total as i64) - margin < reading || (self.total as i64) + margin > reading {
                self.total = value - self.start;
                self.updated = true;
            }
        } else if phase == 1 {
            if (self.l1 as i64) - margin < wide || (self.l1 as i64) + margin > wide {
                self.l1 = value;
            }
        } else if phase == 2 {
            if (self.l2 as i64) - margin < wide || (self.l2 as i64) + margin > wide {
                self.l2 = value;
            }
        } else if phase == 3 {
            if (self.l3 as i64) - margin < wide || (self.l3 as i64) + margin > wide {
                self.l3 = value;
            }
        } else {
            return Err(OcppError::InvalidPhase { phase });
        }
        Ok(())
    }
}

impl EnergyState {
    /// A snapshot without readings, for a meter limited to `imax` amperes,
    /// `pmax` watts and `umax` volts. The limits are stored in hundredths, so
    /// each of them times 100 must fit in 32 bits.
    pub fn default(imax: i32, pmax: i32, umax: i32) -> (state: EnergyState)
        requires
            i32::MIN <= imax * 100 <= i32::MAX,
            i32::MIN <= pmax * 100 <= i32::MAX,
            i32::MIN <= umax * 100 <= i32::MAX,
        ensures
            state == (EnergyState {
                subscription_max: 0,
                umax: (umax * 100) as i32,
                imax: (imax * 100) as i32,
                pmax: (pmax * 100) as i32,
                volts: 0,
                timestamp: Span::spec_zero(),
                session: 0,
                total: 0,
                current: 0,
                tension: 0,
                power: 0,
            }),
    {
        EnergyState {
            subscription_max: 0,
            imax: imax * 100,
            pmax: pmax * 100,
            umax: umax * 100,
            session: 0,
            total: 0,
            volts: 0,
            current: 0,
            tension: 0,
            power: 0,
            timestamp: Span::zero(),
        }
    }
}

} // verus!
