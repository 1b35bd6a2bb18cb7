use vstd::prelude::*;

verus! {

/// Why an invocation of the contract was rejected.
///
/// Every failure aborts the whole invocation with no state mutation and
/// no token movement; the kind tells the submitter which guard fired.
#[derive(Clone, Copy, Debug, PartialEq, Eq, Structural)]
pub enum ErrorKind {
    /// The engine, `reset` or `upgrade` ran before `init`, or after a
    /// `reset` removed the token address.
    NotInitialized,
    /// `day_of_year` outside [1, 366] or `extent` outside [0, 30000].
    OutOfRange,
    /// The authorization primitive rejected the required principal.
    Unauthorized,
    /// An internal invariant was violated (for example an address present
    /// without an administrator); unreachable under correct lifecycle use.
    MissingState,
}

} // verus!
