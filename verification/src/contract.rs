use vstd::prelude::*;

use crate::auth::Address;
use crate::auth::AuthContext;
use crate::baseline::BaselineTable;
use crate::baseline::valid_day_of_year;
use crate::engine::SupplyAction;
use crate::engine::SupplyDecision;
use crate::engine::decision_of;
use crate::engine::evaluate_reading;
use crate::engine::valid_extent;
use crate::errors::ErrorKind;

verus! {

/// Revision number reported by `version`.
pub const CONTRACT_VERSION: u32 = 2;

/// The keys of the contract's persistent key/value record on the host
/// ledger. The model keeps one field per key; `has` reports presence the
/// way the ledger's `has(key)` would.
#[derive(Clone, Copy, Debug, PartialEq, Eq, Structural)]
pub enum DataKey {
    /// Contract administrator.
    Admin,
    /// Address of the controlled token ledger.
    Token,
    /// Most recently accepted sensor reading.
    SealData,
}

/// The most recently accepted sensor reading.
#[derive(Clone, Copy, Debug, PartialEq, Eq, Structural)]
pub struct SealData {
    /// The accepted sea-ice-extent value, in extent units.
    pub sea_ice_extent: u32,
    /// The 1-based day of the year the reading is for.
    pub doy: u32,
}

/// The supply-control contract: its persistent state together with the
/// operations of its public surface.
///
/// The host ledger persists this state as key/value pairs and runs every
/// operation as one atomic unit; here the state is an explicit value and
/// each operation either returns `Ok` having made its one permitted
/// mutation, or returns an error having changed nothing — the image of
/// the ledger's whole-transaction rollback.
pub struct SealCoinContract {
    admin: Option<Address>,
    token: Option<Address>,
    seal_data: Option<SealData>,
}

impl SealCoinContract {
    /// The stored administrator, if initialization has happened.
    pub closed spec fn spec_admin(&self) -> Option<Address> {
        self.admin
    }

    /// The stored token-ledger address, if present.
    pub closed spec fn spec_token(&self) -> Option<Address> {
        self.token
    }

    /// The most recently accepted reading, if any.
    pub closed spec fn spec_last_reading(&self) -> Option<SealData> {
        self.seal_data
    }

    /// The engine may run only when both addresses are configured.
    pub open spec fn initialized(&self) -> bool {
        self.spec_admin() is Some && self.spec_token() is Some
    }

    /// Structural invariant: the token address and the last reading are
    /// only ever present if an administrator is (initialization order).
    pub open spec fn wf(&self) -> bool {
        (self.spec_token() is Some || self.spec_last_reading() is Some) ==> self.spec_admin()
            is Some
    }

    /// Presence of the value stored under `key`.
    pub open spec fn spec_has(&self, key: DataKey) -> bool {
        match key {
            DataKey::Admin => self.spec_admin() is Some,
            DataKey::Token => self.spec_token() is Some,
            DataKey::SealData => self.spec_last_reading() is Some,
        }
    }

    /// The outcome `update_sea_ice_extent` is bound to: the first failed
    /// guard decides the error, and on success the decision is a pure
    /// function of the reading and the baseline entry for its day.
    pub open spec fn supply_outcome(
        self,
        issuer: Address,
        distributor: Address,
        day_of_year: u32,
        extent: u32,
        baseline: Seq<u32>,
        granted: Seq<Address>,
    ) -> Result<SupplyDecision, ErrorKind> {
        if !self.initialized() {
            Err(ErrorKind::NotInitialized)
        } else if !valid_day_of_year(day_of_year) || !valid_extent(extent) {
            Err(ErrorKind::OutOfRange)
        } else {
            let decision = decision_of(extent, baseline[day_of_year - 1]);
            if decision.action is Mint && !granted.contains(issuer) {
                Err(ErrorKind::Unauthorized)
            } else if decision.action is Burn && !granted.contains(distributor) {
                Err(ErrorKind::Unauthorized)
            } else {
                Ok(decision)
            }
        }
    }

    /// A freshly deployed contract: nothing stored yet.
    pub fn new() -> (c: SealCoinContract)
        ensures
            c.spec_admin() is None,
            c.spec_token() is None,
            c.spec_last_reading() is None,
            c.wf(),
    {
        SealCoinContract { admin: None, token: None, seal_data: None }
    }

    /// The revision of the decision logic, reported for external tooling.
    pub fn version() -> (v: u32)
        ensures
            v == CONTRACT_VERSION,
    {
        CONTRACT_VERSION
    }

    /// Stores the administrator and the token-ledger address.
    ///
    /// No authorization and no one-shot guard: calling `init` again
    /// silently overwrites both addresses, and any previously accepted
    /// reading is left in place.
    pub fn init(&mut self, admin: Address, token: Address)
        ensures
            final(self).spec_admin() == Some(admin),
            final(self).spec_token() == Some(token),
            final(self).spec_last_reading() == old(self).spec_last_reading(),
            final(self).wf(),
    {
        self.admin = Some(admin);
        self.token = Some(token);
    }

    /// Presence of the value stored under `key`, as the ledger's
    /// `has(key)` would report it.
    pub fn has(&self, key: DataKey) -> (r: bool)
        ensures
            r == self.spec_has(key),
    {
        match key {
            DataKey::Admin => self.admin.is_some(),
            DataKey::Token => self.token.is_some(),
            DataKey::SealData => self.seal_data.is_some(),
        }
    }

    /// The stored administrator, if any.
    pub fn admin(&self) -> (r: Option<Address>)
        ensures
            r == self.spec_admin(),
    {
        self.admin
    }

    /// The stored token-ledger address, if any.
    pub fn token(&self) -> (r: Option<Address>)
        ensures
            r == self.spec_token(),
    {
        self.token
    }

    /// The most recently accepted reading, if any.
    pub fn last_reading(&self) -> (r: Option<SealData>)
        ensures
            r == self.spec_last_reading(),
    {
        self.seal_data
    }

    /// Validates a reading and decides the supply correction without
    /// touching state: checks initialization, the day-of-year and extent
    /// ranges, and that the party the decision's direction names —
    /// issuer for a mint, distributor for a burn — authorized the call.
    pub fn correct_supply(
        &self,
        issuer: Address,
        distributor: Address,
        day_of_year: u32,
        sea_ice_extent: u32,
        table: &BaselineTable,
        auth: &AuthContext,
    ) -> (r: Result<SupplyDecision, ErrorKind>)
        requires
            table.wf(),
        ensures
            r == self.supply_outcome(issuer, distributor, day_of_year, sea_ice_extent, table@, auth@),
    {
        if !(self.admin.is_some() && self.token.is_some()) {
            return Err(ErrorKind::NotInitialized);
        }
        let decision = match evaluate_reading(table, day_of_year, sea_ice_extent) {
            Ok(d) => d,
            Err(e) => {
                return Err(e);
            },
        };
        match decision.action {
            SupplyAction::Mint => {
                if !auth.is_granted(issuer) {
                    return Err(ErrorKind::Unauthorized);
                }
            },
            SupplyAction::Burn => {
                if !auth.is_granted(distributor) {
                    return Err(ErrorKind::Unauthorized);
                }
            },
            SupplyAction::NoOp => {},
        }
        Ok(decision)
    }

    /// Accepts a sensor reading: on success the reading is persisted as
    /// the last one seen and the returned decision says what the token
    /// ledger must be instructed to do; on any failure the state is
    /// exactly as before, the image of the host's whole-transaction
    /// rollback.
    pub fn update_sea_ice_extent(
        &mut self,
        issuer: Address,
        distributor: Address,
        day_of_year: u32,
        sea_ice_extent: u32,
        table: &BaselineTable,
        auth: &AuthContext,
    ) -> (r: Result<SupplyDecision, ErrorKind>)
        requires
            old(self).wf(),
            table.wf(),
        ensures
            r == old(self).supply_outcome(
                issuer,
                distributor,
                day_of_year,
                sea_ice_extent,
                table@,
                auth@,
            ),
            r is Err ==> *final(self) == *old(self),
            r is Ok ==> final(self).spec_admin() == old(self).spec_admin(),
            r is Ok ==> final(self).spec_token() == old(self).spec_token(),
            r is Ok ==> final(self).spec_last_reading() == Some(
                SealData { sea_ice_extent, doy: day_of_year },
            ),
            final(self).wf(),
    {
        let decision = match self.correct_supply(
            issuer,
            distributor,
            day_of_year,
            sea_ice_extent,
            table,
            auth,
        ) {
            Ok(d) => d,
            Err(e) => {
                return Err(e);
            },
        };
        self.seal_data = Some(SealData { sea_ice_extent, doy: day_of_year });
        Ok(decision)
    }

    /// Clears the token address and the last reading; the administrator
    /// survives. Requires the stored administrator's authorization, and
    /// fails with `NotInitialized` when no administrator is stored.
    /// Afterwards the engine refuses to run until `init` is called again.
    pub fn reset(&mut self, auth: &AuthContext) -> (r: Result<(), ErrorKind>)
        requires
            old(self).wf(),
        ensures
            old(self).spec_admin() is None ==> r == Err::<(), ErrorKind>(ErrorKind::NotInitialized)
                && *final(self) == *old(self),
            old(self).spec_admin() matches Some(a) && !auth.grants(a) ==> r == Err::<
                (),
                ErrorKind,
            >(ErrorKind::Unauthorized) && *final(self) == *old(self),
            old(self).spec_admin() matches Some(a) && auth.grants(a) ==> r == Ok::<
                (),
                ErrorKind,
            >(()) && final(self).spec_admin() == old(self).spec_admin() && final(self).spec_token()
                is None && final(self).spec_last_reading() is None,
            final(self).wf(),
    {
        let admin = match self.admin {
            Some(a) => a,
            None => {
                return Err(ErrorKind::NotInitialized);
            },
        };
        if !auth.is_granted(admin) {
            return Err(ErrorKind::Unauthorized);
        }
        self.token = None;
        self.seal_data = None;
        Ok(())
    }

    /// Approves a code migration: succeeds exactly when an administrator
    /// is stored and authorized the call, and then hands back the code
    /// identifier for the host ledger to swap the executable logic to.
    /// The contract's data is untouched either way.
    pub fn upgrade(&self, new_code_hash: Vec<u8>, auth: &AuthContext) -> (r: Result<
        Vec<u8>,
        ErrorKind,
    >)
        ensures
            self.spec_admin() is None ==> r == Err::<Vec<u8>, ErrorKind>(ErrorKind::NotInitialized),
            self.spec_admin() matches Some(a) && !auth.grants(a) ==> r == Err::<
                Vec<u8>,
                ErrorKind,
            >(ErrorKind::Unauthorized),
            self.spec_admin() matches Some(a) && auth.grants(a) ==> (r matches Ok(h) && h@
                == new_code_hash@),
    {
        let admin = match self.admin {
            Some(a) => a,
            None => {
                return Err(ErrorKind::NotInitialized);
            },
        };
        if !auth.is_granted(admin) {
            return Err(ErrorKind::Unauthorized);
        }
        Ok(new_code_hash)
    }
}

} // verus!
