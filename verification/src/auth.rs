use vstd::prelude::*;

verus! {

/// A principal on the host ledger, reduced to the opaque identity the
/// engine needs: something that can be stored, compared, and named as the
/// party whose authorization an operation requires. The cryptographic
/// material behind it lives in the host ledger, outside this crate.
#[derive(Clone, Copy, Debug, PartialEq, Eq, Structural)]
pub struct Address {
    pub id: u64,
}

impl Address {
    pub fn new(id: u64) -> (a: Address)
        ensures
            a.id == id,
    {
        Address { id }
    }
}

/// The set of principals that cryptographically authorized the current
/// invocation. The host ledger's `require_auth` primitive either succeeds
/// or aborts the whole call; here it is modelled as membership in this
/// explicit grant set, so that authorization-dependent behaviour can be
/// stated and tested per principal.
pub struct AuthContext {
    granted: Vec<Address>,
}

impl View for AuthContext {
    type V = Seq<Address>;

    closed spec fn view(&self) -> Seq<Address> {
        self.granted@
    }
}

impl AuthContext {
    /// Whether `a` authorized the current invocation.
    pub open spec fn grants(&self, a: Address) -> bool {
        self@.contains(a)
    }

    /// A context in which nobody has authorized anything.
    pub fn new() -> (c: AuthContext)
        ensures
            forall|a: Address| !c.grants(a),
    {
        AuthContext { granted: Vec::new() }
    }

    /// Record that `a` authorized the current invocation.
    pub fn grant(&mut self, a: Address)
        ensures
            final(self)@ == old(self)@.push(a),
            forall|b: Address| final(self).grants(b) <==> old(self).grants(b) || b == a,
    {
        self.granted.push(a);
        proof {
            broadcast use vstd::seq_lib::lemma_seq_contains_after_push;
        }
    }

    /// Executable membership test, matching `grants` exactly.
    pub fn is_granted(&self, a: Address) -> (r: bool)
        ensures
            r == self.grants(a),
    {
        let mut i: usize = 0;
        while i < self.granted.len()
            invariant
                0 <= i <= self.granted.len(),
                forall|j: int| 0 <= j < i ==> self.granted@[j] != a,
            decreases self.granted.len() - i,
        {
            if self.granted[i] == a {
                return true;
            }
            i += 1;
        }
        false
    }
}

} // verus!
