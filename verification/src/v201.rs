//! Data types of OCPP 2.0.1 that describe a transaction, its cost and the
//! variables of a component.

use vstd::prelude::*;
use crate::clock::Timestamp;

verus! {

#[derive(Clone, Copy, Debug, PartialEq, Eq, Structural, Default)]
pub enum CostKindEnumType {
    #[default]
    CarbonDioxideEmission,
    RelativePricePercentage,
    RenewableGenerationPercentage,
}

#[derive(Clone, Copy, Debug, PartialEq, Eq, Structural, Default)]
pub enum AttributeEnumType {
    #[default]
    Actual,
    Target,
    MinSet,
    MaxSet,
}

#[derive(Clone, Copy, Debug, PartialEq, Eq, Structural, Default)]
pub enum SetVariableStatusEnumType {
    #[default]
    Accepted,
    Rejected,
    UnknownComponent,
    UnknownVariable,
    NotSupportedAttributeType,
    RebootRequired,
}

#[derive(Clone, Copy, Debug, PartialEq, Eq, Structural, Default)]
pub enum ChargingStateEnumType {
    #[default]
    Charging,
    EVConnected,
    SuspendedEV,
    SuspendedEVSE,
    Idle,
}

#[derive(Clone, Copy, Debug, PartialEq, Eq, Structural, Default)]
pub enum ReasonEnumType {
    #[default]
    DeAuthorized,
    EmergencyStop,
    EnergyLimitReached,
    EVDisconnected,
    GroundFault,
    ImmediateReset,
    Local,
    LocalOutOfCredit,
    MasterPass,
    Other,
    OvercurrentFault,
    PowerLoss,
    PowerQuality,
    Reboot,
    Remote,
    SOCLimitReached,
    StoppedByEV,
    TimeLimitReached,
    Timeout,
}

#[derive(Clone, Copy, Debug, PartialEq, Eq, Structural, Default)]
pub enum EnergyTransferModeEnumType {
    #[default]
    DC,
    ACSinglePhase,
    ACTwoPhase,
    ACThreePhase,
}

#[derive(Clone, Copy, Debug, PartialEq, Eq, Structural, Default)]
pub struct EVSEType {
    pub id: i64,
    pub connector_id: Option<i64>,
}

#[derive(Clone, Debug, PartialEq, Eq, Default)]
pub struct ComponentType {
    pub name: String,
    pub instance: Option<String>,
    pub evse: Option<EVSEType>,
}

#[derive(Clone, Debug, PartialEq, Eq, Default)]
pub struct VariableType {
    pub name: String,
    pub instance: Option<String>,
}

#[derive(Clone, Debug, PartialEq, Eq, Default)]
pub struct StatusInfoType {
    pub reason_code: String,
    pub additional_info: Option<String>,
}

#[derive(Clone, Copy, Debug, PartialEq, Eq, Structural, Default)]
pub struct ACChargingParametersType {
    pub energy_amount: i64,
    pub ev_min_current: i64,
    pub ev_max_current: i64,
    pub ev_max_voltage: i64,
}

#[derive(Clone, Copy, Debug, PartialEq, Eq, Structural, Default)]
pub struct DCChargingParametersType {
    pub ev_max_current: i64,
    pub ev_max_voltage: i64,
    pub energy_amount: Option<i64>,
    pub ev_max_power: Option<i64>,
    pub state_of_charge: Option<u8>,
    pub ev_energy_capacity: Option<i64>,
    pub full_soc: Option<u8>,
    pub bulk_soc: Option<u8>,
}

/// What a vehicle needs from a charging session.
#[derive(Clone, Copy, Debug, PartialEq, Eq, Structural)]
pub struct ChargingNeedsType {
    /// Mode of energy transfer requested by the vehicle.
    pub requested_energy_transfer: EnergyTransferModeEnumType,
    /// Estimated departure time of the vehicle.
    pub departure_time: Option<Timestamp>,
    pub ac_charging_parameters: Option<ACChargingParametersType>,
    pub dc_charging_parameters: Option<DCChargingParametersType>,
}

/// A cost of a given kind; the amount is scaled by ten to the power of the
/// multiplier.
#[derive(Clone, Copy, Debug, PartialEq, Eq, Structural, Default)]
pub struct CostType {
    pub cost_kind: CostKindEnumType,
    pub amount: i64,
    pub amount_multiplier: Option<i8>,
}

/// The value to set for an attribute of a variable of a component.
#[derive(Clone, Debug, PartialEq, Eq, Default)]
pub struct SetVariableDataType {
    pub attribute_type: Option<AttributeEnumType>,
    pub attribute_value: String,
    pub component: ComponentType,
    pub variable: VariableType,
}

/// The outcome of setting an attribute of a variable of a component.
#[derive(Clone, Debug, PartialEq, Eq, Default)]
pub struct SetVariableResultType {
    pub attribute_type: Option<AttributeEnumType>,
    pub attribute_status: SetVariableStatusEnumType,
    pub component: ComponentType,
    pub variable: VariableType,
    pub attribute_status_info: Option<StatusInfoType>,
}

/// A transaction as OCPP 2.0.1 describes it.
#[derive(Clone, Debug, PartialEq, Eq, Default)]
pub struct TransactionType {
    pub transaction_id: String,
    pub charging_state: Option<ChargingStateEnumType>,
    pub time_spent_charging: Option<i64>,
    pub stopped_reason: Option<ReasonEnumType>,
    pub remote_start_id: Option<i64>,
}

} // verus!
