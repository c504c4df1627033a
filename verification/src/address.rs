use vstd::prelude::*;

verus! {

/// The identity of an account or of a contract.
///
/// Two addresses are the same party exactly when their ids are equal.
#[derive(Clone, Copy, Debug, PartialEq, Eq, Structural)]
pub struct Address {
    pub id: u64,
}

} // verus!
