use vstd::prelude::*;

verus! {

/// The request that initialises the contract. It carries nothing.
#[derive(Clone, Debug, PartialEq)]
pub struct InitMsg {}

/// A request that changes the stored key.
#[derive(Clone, Debug, PartialEq)]
pub enum HandleMsg {
    /// Replace the stored key with `reencryption_key`.
    SetKey { reencryption_key: [u8; 32] },
    /// Clear the stored key back to all zeroes.
    Reset {},
}

/// A request that reads the contract.
#[derive(Clone, Debug, PartialEq)]
pub enum QueryMsg {
    /// Return the stored key.
    GetReencryptionKey {},
}

/// The answer to [`QueryMsg::GetReencryptionKey`].
#[derive(Clone, Debug, PartialEq)]
pub struct ReencryptionKeyResponse {
    pub reencryption_key: [u8; 32],
}

} // verus!
