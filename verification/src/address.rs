use vstd::prelude::*;

verus! {

/// An account or contract identity, held as its canonical text form
/// (for instance a strkey such as `G...` or `C...`).
///
/// Two addresses are the same identity exactly when their texts are equal.
#[derive(Debug)]
pub struct Address {
    key: String,
}

impl View for Address {
    type V = Seq<char>;

    closed spec fn view(&self) -> Seq<char> {
        self.key@
    }
}

impl Address {
    /// Builds the address whose canonical text is `key`.
    pub fn new(key: String) -> (a: Address)
        ensures
            a@ == key@,
    {
        Address { key }
    }

    /// The canonical text of this address.
    pub fn as_str(&self) -> (s: &str)
        ensures
            s@ == self@,
    {
        self.key.as_str()
    }

    /// An owned copy of the canonical text of this address.
    pub fn to_text(&self) -> (s: String)
        ensures
            s@ == self@,
    {
        self.key.clone()
    }

    /// Whether `self` and `other` denote the same identity.
    pub fn same_as(&self, other: &Address) -> (r: bool)
        ensures
            r == (self@ == other@),
    {
        self.key == other.key
    }
}

impl Clone for Address {
    fn clone(&self) -> (r: Self)
        ensures
            r@ == self@,
    {
        Address { key: self.key.clone() }
    }
}

impl PartialEq for Address {
    fn eq(&self, other: &Address) -> (r: bool) {
        self.key == other.key
    }
}

impl vstd::std_specs::cmp::PartialEqSpecImpl for Address {
    open spec fn obeys_eq_spec() -> bool {
        true
    }

    open spec fn eq_spec(&self, other: &Address) -> bool {
        self@ == other@
    }
}

impl Eq for Address {
}

} // verus!
