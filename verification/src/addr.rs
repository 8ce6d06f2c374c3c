use vstd::prelude::*;
use vstd::string::*;

verus! {

/// An account or contract address, held as its raw string form.
///
/// Whether a string is a well-formed address for the host chain is decided by
/// the host's validator, an external collaborator: this layer receives the
/// validator's verdicts as values and never judges a string itself.
/// `unchecked` mirrors the host API's escape hatch that wraps a string the
/// caller vouches for.
#[derive(Debug)]
pub struct Addr {
    s: String,
}

impl View for Addr {
    type V = Seq<char>;

    closed spec fn view(&self) -> Seq<char> {
        self.s@
    }
}

/// The string forms of a sequence of addresses, in order.
pub open spec fn addr_views(s: Seq<Addr>) -> Seq<Seq<char>> {
    s.map_values(|a: Addr| a@)
}

impl Addr {
    /// Wraps a raw string as an address without consulting a validator.
    pub fn unchecked(s: &str) -> (a: Addr)
        ensures
            a@ == s@,
    {
        Addr { s: s.to_owned() }
    }

    /// The raw string form of the address.
    pub fn as_str(&self) -> (r: &str)
        ensures
            r@ == self@,
    {
        self.s.as_str()
    }

    /// Exact, case-sensitive comparison against a raw string.
    pub fn eq_str(&self, other: &str) -> (r: bool)
        ensures
            r == (self@ == other@),
    {
        let o: String = String::from_str(other);
        self.s == o
    }
}

impl Clone for Addr {
    fn clone(&self) -> (res: Addr)
        ensures
            res == *self,
    {
        Addr { s: self.s.clone() }
    }
}

} // verus!
