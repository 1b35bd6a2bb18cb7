use vstd::prelude::*;

use crate::auth::Address;
use crate::baseline::valid_day_of_year;
use crate::contract::SealCoinContract;
use crate::engine::DEADBAND_BASE_UNITS;
use crate::engine::decision_of;
use crate::engine::delta_scaled_of;
use crate::engine::valid_extent;
use crate::errors::ErrorKind;

verus! {

/// Determinism: for a fixed reading and a fixed baseline table the
/// engine's outcome is a pure function of those inputs — no state of the
/// contract beyond whether it is initialized, and in particular not the
/// previously stored reading, can influence it.
pub proof fn lemma_outcome_deterministic(
    s1: SealCoinContract,
    s2: SealCoinContract,
    issuer: Address,
    distributor: Address,
    day_of_year: u32,
    extent: u32,
    baseline: Seq<u32>,
    granted: Seq<Address>,
)
    requires
        s1.initialized() == s2.initialized(),
    ensures
        s1.supply_outcome(issuer, distributor, day_of_year, extent, baseline, granted)
            == s2.supply_outcome(issuer, distributor, day_of_year, extent, baseline, granted),
{
}

/// Deadband correctness: whenever the deviation scaled to base units has
/// magnitude at most the deadband — equivalently, the raw deviation has
/// magnitude at most ten extent units — the decision is a no-op, so no
/// token-ledger call is required.
pub proof fn lemma_deadband_no_op(extent: u32, baseline: u32)
    requires
        -(DEADBAND_BASE_UNITS as int) <= delta_scaled_of(extent, baseline)
            <= DEADBAND_BASE_UNITS as int,
    ensures
        decision_of(extent, baseline).action is NoOp,
        -10 <= extent - baseline <= 10,
{
}

/// Direction correctness, expansion side: a reading more than ten extent
/// units above its baseline yields a mint of exactly
/// `(extent - baseline) * 100 * 10_000_000` base units.
pub proof fn lemma_direction_mint(extent: u32, baseline: u32)
    requires
        extent - baseline > 10,
    ensures
        decision_of(extent, baseline).action is Mint,
        decision_of(extent, baseline).delta_scaled == (extent - baseline) * 100 * 10_000_000,
{
}

/// Direction correctness, contraction side: a reading more than ten
/// extent units below its baseline yields a burn whose magnitude is
/// exactly `(baseline - extent) * 100 * 10_000_000` base units.
pub proof fn lemma_direction_burn(extent: u32, baseline: u32)
    requires
        extent - baseline < -10,
    ensures
        decision_of(extent, baseline).action is Burn,
        -decision_of(extent, baseline).delta_scaled == (baseline - extent) * 100 * 10_000_000,
{
}

/// Authorization gating, expansion side: when the decision for a valid
/// reading is a mint, the call succeeds exactly when the issuer granted
/// authorization — the distributor's grant is never consulted.
pub proof fn lemma_mint_authorization(
    s: SealCoinContract,
    issuer: Address,
    distributor: Address,
    day_of_year: u32,
    extent: u32,
    baseline: Seq<u32>,
    granted: Seq<Address>,
)
    requires
        s.initialized(),
        valid_day_of_year(day_of_year),
        valid_extent(extent),
        decision_of(extent, baseline[day_of_year - 1]).action is Mint,
    ensures
        s.supply_outcome(issuer, distributor, day_of_year, extent, baseline, granted) == if granted.contains(issuer) {
            Ok::<_, ErrorKind>(decision_of(extent, baseline[day_of_year - 1]))
        } else {
            Err::<_, ErrorKind>(ErrorKind::Unauthorized)
        },
{
}

/// Authorization gating, contraction side: when the decision for a valid
/// reading is a burn, the call succeeds exactly when the distributor
/// granted authorization — the issuer's grant is never consulted.
pub proof fn lemma_burn_authorization(
    s: SealCoinContract,
    issuer: Address,
    distributor: Address,
    day_of_year: u32,
    extent: u32,
    baseline: Seq<u32>,
    granted: Seq<Address>,
)
    requires
        s.initialized(),
        valid_day_of_year(day_of_year),
        valid_extent(extent),
        decision_of(extent, baseline[day_of_year - 1]).action is Burn,
    ensures
        s.supply_outcome(issuer, distributor, day_of_year, extent, baseline, granted) == if granted.contains(distributor) {
            Ok::<_, ErrorKind>(decision_of(extent, baseline[day_of_year - 1]))
        } else {
            Err::<_, ErrorKind>(ErrorKind::Unauthorized)
        },
{
}

/// Range enforcement: once the contract is initialized, a day of year
/// outside [1, 366] or an extent outside [0, 30000] makes the engine
/// abort with `OutOfRange`; paired with `update_sea_ice_extent`'s
/// contract, an aborted call leaves the state untouched.
pub proof fn lemma_range_enforcement(
    s: SealCoinContract,
    issuer: Address,
    distributor: Address,
    day_of_year: u32,
    extent: u32,
    baseline: Seq<u32>,
    granted: Seq<Address>,
)
    requires
        s.initialized(),
        !valid_day_of_year(day_of_year) || !valid_extent(extent),
    ensures
        s.supply_outcome(issuer, distributor, day_of_year, extent, baseline, granted) == Err::<
            crate::engine::SupplyDecision,
            ErrorKind,
        >(ErrorKind::OutOfRange),
{
}

/// Reset semantics: any state without a token address — which is what
/// `reset` leaves behind, while the administrator stays readable — makes
/// every subsequent engine call fail with `NotInitialized`.
pub proof fn lemma_reset_blocks_engine(
    s: SealCoinContract,
    issuer: Address,
    distributor: Address,
    day_of_year: u32,
    extent: u32,
    baseline: Seq<u32>,
    granted: Seq<Address>,
)
    requires
        s.spec_token() is None,
    ensures
        s.supply_outcome(issuer, distributor, day_of_year, extent, baseline, granted) == Err::<
            crate::engine::SupplyDecision,
            ErrorKind,
        >(ErrorKind::NotInitialized),
{
}

/// The engine never issues a supply change below the deadband: a
/// successful call either moves strictly more than the deadband's worth
/// of base units in the direction its action names, or moves nothing.
pub proof fn lemma_no_small_movements(extent: u32, baseline: u32)
    ensures
        decision_of(extent, baseline).action is Mint ==> decision_of(extent, baseline).delta_scaled
            > DEADBAND_BASE_UNITS,
        decision_of(extent, baseline).action is Burn ==> decision_of(extent, baseline).delta_scaled
            < -DEADBAND_BASE_UNITS,
{
}

/// The deadband inequality over base units is the same thing as a bound
/// of ten extent units on the raw deviation: scaling by the two positive
/// conversion constants preserves order in both directions.
pub proof fn lemma_deadband_in_extent_units(extent: u32, baseline: u32)
    ensures
        delta_scaled_of(extent, baseline) > DEADBAND_BASE_UNITS as int <==> extent - baseline > 10,
        delta_scaled_of(extent, baseline) < -(DEADBAND_BASE_UNITS as int) <==> extent - baseline
            < -10,
{
}

} // verus!
