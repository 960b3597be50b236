use vstd::prelude::*;

verus! {

/// Why a handler refused to do its work.
#[derive(Clone, Copy, Debug, PartialEq, Eq, Structural)]
pub enum ContractError {
    /// The store holds no record: it was read before it was initialised.
    NotFound,
    /// The caller is not the owner of the record.
    Unauthorized,
}

} // verus!
