use vstd::prelude::*;

use crate::baseline::BaselineTable;
use crate::baseline::valid_day_of_year;
use crate::errors::ErrorKind;

verus! {

/// Upper bound of the sensor-plausible extent range [0, 30000].
pub const MAX_EXTENT: u32 = 30_000;

/// Conversion from one extent unit to token units.
pub const TOKEN_UNITS_PER_EXTENT_UNIT: i128 = 100;

/// Conversion from one token unit to the token's indivisible base unit
/// (seven decimal places of precision).
pub const BASE_UNITS_PER_TOKEN_UNIT: i128 = 10_000_000;

/// Minimum magnitude, in base units, that a scaled delta must strictly
/// exceed before any supply change is issued; smaller deviations are
/// treated as measurement noise.
pub const DEADBAND_BASE_UNITS: i128 = 1000 * 10_000_000;

/// Whether `extent` lies in the sensor-plausible range [0, 30000].
pub open spec fn valid_extent(extent: u32) -> bool {
    extent <= MAX_EXTENT
}

/// The supply change the engine instructs the external token ledger to
/// perform: expand supply, contract it, or leave it alone.
#[derive(Clone, Copy, Debug, PartialEq, Eq, Structural)]
pub enum SupplyAction {
    /// Mint the scaled delta to the distributor.
    Mint,
    /// Burn the magnitude of the scaled delta from the distributor.
    Burn,
    /// The reading is recorded but no supply change occurs.
    NoOp,
}

/// Which of the two transacting parties must have authorized the
/// invocation before a supply action may be issued.
#[derive(Clone, Copy, Debug, PartialEq, Eq, Structural)]
pub enum Principal {
    /// The party entitled to expand supply.
    Issuer,
    /// The account supply is minted to or burned from.
    Distributor,
}

/// The outcome of evaluating one reading against the baseline: the raw
/// deviation, the deviation scaled to base units, and the resulting
/// action. Ephemeral; computed per invocation and never persisted.
#[derive(Clone, Copy, Debug, PartialEq, Eq, Structural)]
pub struct SupplyDecision {
    /// `extent - baseline`, in extent units; may be negative.
    pub delta_raw: i64,
    /// `delta_raw` converted to token base units.
    pub delta_scaled: i128,
    /// The supply change the deadband admits for `delta_scaled`.
    pub action: SupplyAction,
}

/// The deviation of a reading from its baseline, scaled to base units.
pub open spec fn delta_scaled_of(extent: u32, baseline: u32) -> int {
    (extent - baseline) * (TOKEN_UNITS_PER_EXTENT_UNIT as int) * (BASE_UNITS_PER_TOKEN_UNIT as int)
}

/// The action the deadband admits for a scaled delta: mint above it,
/// burn below its negation, otherwise nothing.
pub open spec fn action_of(delta_scaled: int) -> SupplyAction {
    if delta_scaled > DEADBAND_BASE_UNITS as int {
        SupplyAction::Mint
    } else if delta_scaled < -(DEADBAND_BASE_UNITS as int) {
        SupplyAction::Burn
    } else {
        SupplyAction::NoOp
    }
}

/// The full decision for a reading `extent` measured against `baseline`.
pub open spec fn decision_of(extent: u32, baseline: u32) -> SupplyDecision {
    SupplyDecision {
        delta_raw: (extent - baseline) as i64,
        delta_scaled: delta_scaled_of(extent, baseline) as i128,
        action: action_of(delta_scaled_of(extent, baseline)),
    }
}

/// Validates a reading and computes its supply decision: rejects a day of
/// year outside [1, 366] or an extent outside [0, 30000] with
/// `OutOfRange`, and otherwise returns exactly the decision determined by
/// the reading and the baseline entry for that day.
pub fn evaluate_reading(table: &BaselineTable, day_of_year: u32, extent: u32) -> (r: Result<
    SupplyDecision,
    ErrorKind,
>)
    requires
        table.wf(),
    ensures
        r is Err <==> !valid_day_of_year(day_of_year) || !valid_extent(extent),
        r is Err ==> r == Err::<SupplyDecision, ErrorKind>(ErrorKind::OutOfRange),
        valid_day_of_year(day_of_year) && valid_extent(extent) ==> r == Ok::<
            SupplyDecision,
            ErrorKind,
        >(decision_of(extent, table@[day_of_year - 1])),
{
    if !(1 <= day_of_year && day_of_year <= crate::baseline::DAYS_PER_YEAR) {
        return Err(ErrorKind::OutOfRange);
    }
    if extent > MAX_EXTENT {
        return Err(ErrorKind::OutOfRange);
    }
    let baseline: u32 = table.get(day_of_year);
    let delta_raw: i64 = extent as i64 - baseline as i64;
    let delta_scaled: i128 = delta_raw as i128 * TOKEN_UNITS_PER_EXTENT_UNIT
        * BASE_UNITS_PER_TOKEN_UNIT;
    let action: SupplyAction = if delta_scaled > DEADBAND_BASE_UNITS {
        SupplyAction::Mint
    } else if delta_scaled < -DEADBAND_BASE_UNITS {
        SupplyAction::Burn
    } else {
        SupplyAction::NoOp
    };
    Ok(SupplyDecision { delta_raw, delta_scaled, action })
}

/// Which party's authorization the action needs: the issuer must consent
/// to an expansion, the distributor to a contraction, and nobody to a
/// no-op.
pub fn required_authorizer(action: SupplyAction) -> (r: Option<Principal>)
    ensures
        r == spec_required_authorizer(action),
{
    match action {
        SupplyAction::Mint => Some(Principal::Issuer),
        SupplyAction::Burn => Some(Principal::Distributor),
        SupplyAction::NoOp => None,
    }
}

/// Specification of `required_authorizer`.
pub open spec fn spec_required_authorizer(action: SupplyAction) -> Option<Principal> {
    match action {
        SupplyAction::Mint => Some(Principal::Issuer),
        SupplyAction::Burn => Some(Principal::Distributor),
        SupplyAction::NoOp => None,
    }
}

} // verus!
