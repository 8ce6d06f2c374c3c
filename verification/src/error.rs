use vstd::prelude::*;

verus! {

/// Errors surfaced by the storage layer.
///
/// `NotFound` is returned when a singleton record (config, vamm registry) is
/// read before it was ever written.  `InvalidAddress` is returned when a
/// registry update is handed an address that the host's validator rejected.
#[derive(Clone, Copy, Debug, PartialEq, Eq, Structural)]
pub enum StdError {
    NotFound,
    InvalidAddress,
}

} // verus!
