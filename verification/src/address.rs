//! The identity of an account or contract.

use vstd::prelude::*;

verus! {

/// An account or contract address, held as its Stellar strkey
/// (the base-32 text that starts with `G` for accounts and `C` for
/// contracts). Two addresses are the same exactly when their strkeys are.
#[derive(Debug)]
pub struct Address {
    strkey: Vec<u8>,
}

impl View for Address {
    type V = Seq<u8>;

    closed spec fn view(&self) -> Seq<u8> {
        self.strkey@
    }
}

impl Address {
    /// The address whose strkey is `strkey`.
    pub fn from_strkey(strkey: Vec<u8>) -> (a: Address)
        ensures
            a@ == strkey@,
    {
        Address { strkey }
    }

    /// The strkey of this address.
    pub fn strkey(&self) -> (s: &[u8])
        ensures
            s@ == self@,
    {
        self.strkey.as_slice()
    }

    /// Whether this address and `other` are the same address.
    pub fn same_as(&self, other: &Address) -> (r: bool)
        ensures
            r == (self@ == other@),
    {
        let n = self.strkey.len();
        if n != other.strkey.len() {
            return false;
        }
        let mut i: usize = 0;
        while i < n
            invariant
                n == self.strkey@.len(),
                n == other.strkey@.len(),
                i <= n,
                forall|j: int| 0 <= j < i ==> self.strkey@[j] == other.strkey@[j],
            decreases n - i,
        {
            if self.strkey[i] != other.strkey[i] {
                return false;
            }
            i = i + 1;
        }
        proof {
            assert(self.strkey@ =~= other.strkey@);
        }
        true
    }
}

impl Clone for Address {
    fn clone(&self) -> (a: Self)
        ensures
            a@ == self@,
    {
        Address { strkey: self.strkey.clone() }
    }
}

impl PartialEq for Address {
    fn eq(&self, other: &Self) -> (r: bool) {
        self.same_as(other)
    }
}

impl Eq for Address {
}

impl vstd::std_specs::cmp::PartialEqSpecImpl for Address {
    open spec fn obeys_eq_spec() -> bool {
        true
    }

    open spec fn eq_spec(&self, other: &Address) -> bool {
        self@ == other@
    }
}

} // verus!
