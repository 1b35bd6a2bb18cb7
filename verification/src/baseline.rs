use vstd::prelude::*;

verus! {

/// Number of entries in the baseline table: one expected extent value for
/// every possible day of a year, leap days included.
pub const DAYS_PER_YEAR: u32 = 366;

/// Whether `day_of_year` is a valid 1-based day index into the baseline
/// table.
pub open spec fn valid_day_of_year(day_of_year: u32) -> bool {
    1 <= day_of_year <= DAYS_PER_YEAR
}

/// The immutable per-day reference of expected sea-ice-extent values.
///
/// The table is pure configuration data shipped with the deployed logic;
/// it is injected into the engine rather than hard-coded, so deployments
/// (and tests) supply their own values. It always holds exactly one
/// non-negative entry per day of the year and is never mutated.
pub struct BaselineTable {
    values: Vec<u32>,
}

impl View for BaselineTable {
    type V = Seq<u32>;

    closed spec fn view(&self) -> Seq<u32> {
        self.values@
    }
}

impl BaselineTable {
    /// A table is well formed exactly when it covers every day of the year.
    pub open spec fn wf(&self) -> bool {
        self@.len() == DAYS_PER_YEAR
    }

    /// Builds a table from one expected value per day of the year, in
    /// day order; refuses a sequence of any other length.
    pub fn new(values: Vec<u32>) -> (r: Option<BaselineTable>)
        ensures
            r is Some <==> values@.len() == DAYS_PER_YEAR,
            r matches Some(t) ==> t.wf() && t@ == values@,
    {
        if values.len() == DAYS_PER_YEAR as usize {
            Some(BaselineTable { values })
        } else {
            None
        }
    }

    /// The expected extent for the given 1-based day of the year.
    pub fn get(&self, day_of_year: u32) -> (r: u32)
        requires
            self.wf(),
            valid_day_of_year(day_of_year),
        ensures
            r == self@[day_of_year - 1],
    {
        self.values[(day_of_year - 1) as usize]
    }
}

} // verus!
