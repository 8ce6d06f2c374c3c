use vstd::prelude::*;

use crate::addr::{addr_views, Addr};
use crate::error::StdError;

verus! {

/// The whitelist of authorized vamms.
///
/// An ordered sequence of validated addresses, replaced wholesale on each
/// registry update.  The store does not enforce uniqueness: duplicates are
/// tolerated but wasteful, and membership is a linear scan.
#[derive(Debug)]
pub struct VammList {
    pub vamm: Vec<Addr>,
}

impl View for VammList {
    type V = Seq<Seq<char>>;

    open spec fn view(&self) -> Seq<Seq<char>> {
        addr_views(self.vamm@)
    }
}

impl VammList {
    /// Returns true if the address is a registered vamm: a linear scan by
    /// exact, case-sensitive string equality, with no normalization.
    pub fn is_vamm(&self, addr: &str) -> (r: bool)
        ensures
            r == self@.contains(addr@),
    {
        let n = self.vamm.len();
        let mut i: usize = 0;
        while i < n
            invariant
                n == self.vamm@.len(),
                0 <= i <= n,
                forall|j: int| 0 <= j < i ==> self@[j] != addr@,
            decreases n - i,
        {
            if self.vamm[i].eq_str(addr) {
                proof {
                    assert(self@[i as int] == addr@);
                }
                return true;
            }
            i += 1;
        }
        proof {
            assert(!self@.contains(addr@));
        }
        false
    }
}

impl Clone for VammList {
    fn clone(&self) -> (res: VammList)
        ensures
            res@ == self@,
    {
        let n = self.vamm.len();
        let mut v: Vec<Addr> = Vec::new();
        let mut i: usize = 0;
        while i < n
            invariant
                n == self.vamm@.len(),
                0 <= i <= n,
                v@.len() == i,
                forall|j: int| 0 <= j < i ==> v@[j] == self.vamm@[j],
            decreases n - i,
        {
            v.push(self.vamm[i].clone());
            i += 1;
        }
        proof {
            assert(addr_views(v@) =~= addr_views(self.vamm@));
        }
        VammList { vamm: v }
    }
}

/// True when the host's validator accepted every address in the list.
pub open spec fn all_valid(s: Seq<Result<Addr, StdError>>) -> bool {
    forall|i: int| 0 <= i < s.len() ==> s[i] is Ok
}

/// The accepted addresses of a verdict list, in order.  Meaningful when
/// `all_valid` holds.
pub open spec fn valid_addrs(s: Seq<Result<Addr, StdError>>) -> Seq<Seq<char>> {
    s.map_values(|r: Result<Addr, StdError>| r->Ok_0@)
}

/// Collects the validator's verdicts in order, all-or-nothing: the accepted
/// addresses if every verdict accepted, else the first rejection, unchanged.
///
/// Validation itself is the host chain's: each element of `input` is the
/// validator's verdict on one raw address string, handed in as a value.
pub fn map_validate(input: &Vec<Result<Addr, StdError>>) -> (r: Result<Vec<Addr>, StdError>)
    ensures
        r is Ok <==> all_valid(input@),
        r is Ok ==> addr_views(r->Ok_0@) == valid_addrs(input@),
        r is Err ==> (exists|i: int|
            0 <= i < input@.len() && (#[trigger] input@[i]) is Err && (forall|j: int|
                0 <= j < i ==> input@[j] is Ok) && r->Err_0 == input@[i]->Err_0),
    {
    let n = input.len();
    let mut out: Vec<Addr> = Vec::new();
    let mut i: usize = 0;
    while i < n
        invariant
            n == input@.len(),
            0 <= i <= n,
            out@.len() == i,
            forall|j: int| 0 <= j < i ==> input@[j] is Ok,
            forall|j: int| 0 <= j < i ==> out@[j]@ == input@[j]->Ok_0@,
        decreases n - i,
    {
        match &input[i] {
            Ok(a) => {
                out.push(a.clone());
            },
            Err(e) => {
                return Err(*e);
            },
        }
        i += 1;
    }
    proof {
        assert(addr_views(out@) =~= valid_addrs(input@));
    }
    Ok(out)
}

} // verus!
