use vstd::prelude::*;

verus! {

/// An authenticated identity: a campaign owner, a donor, or the asset ledger
/// that holds the funds. It is identified by its textual key alone; two
/// principals with the same key are the same party.
#[derive(Debug, PartialEq, Eq)]
pub struct Principal {
    key: String,
}

impl View for Principal {
    type V = Seq<char>;

    closed spec fn view(&self) -> Seq<char> {
        self.key@
    }
}

impl Principal {
    /// The principal with the given textual key.
    pub fn new(key: &str) -> (p: Principal)
        ensures
            p@ == key@,
    {
        Principal { key: key.to_owned() }
    }

    /// The textual key of this principal.
    pub fn key(&self) -> (k: &str)
        ensures
            k@ == self@,
    {
        self.key.as_str()
    }

    /// Whether two principals are the same party.
    pub fn same_as(&self, other: &Principal) -> (same: bool)
        ensures
            same == (self@ == other@),
    {
        self.key == other.key
    }
}

impl Clone for Principal {
    fn clone(&self) -> (copy: Principal)
        ensures
            copy@ == self@,
    {
        Principal { key: self.key.clone() }
    }
}

} // verus!
