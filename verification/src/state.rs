use vstd::prelude::*;
use crate::error::ContractError;
use crate::model::{zero_key, Contents, Record};

verus! {

/// The record that the contract persists.
pub struct State {
    pub reencryption_key: [u8; 32],
    /// Canonical address of the account that initialised the contract.
    pub owner: Vec<u8>,
}

impl View for State {
    type V = Record;

    open spec fn view(&self) -> Record {
        Record { owner: self.owner@, key: self.reencryption_key@ }
    }
}

impl State {
    /// The record of a freshly initialised contract owned by `owner`.
    pub fn new(owner: Vec<u8>) -> (state: State)
        ensures
            state@ == (Record { owner: owner@, key: zero_key() }),
    {
        let state = State { reencryption_key: [0u8; 32], owner };
        assert(state.reencryption_key@ =~= zero_key());
        state
    }

    /// A copy of this record.
    pub fn duplicate(&self) -> (copy: State)
        ensures
            copy@ == self@,
    {
        let owner = self.owner.clone();
        assert(owner@ =~= self.owner@);
        State { reencryption_key: self.reencryption_key, owner }
    }
}

/// A store with room for exactly one record, empty until it is initialised.
pub struct Store {
    record: Option<State>,
}

impl View for Store {
    type V = Contents;

    closed spec fn view(&self) -> Contents {
        match self.record {
            Some(state) => Some(state@),
            None => None,
        }
    }
}

impl Store {
    /// A store that holds no record yet.
    pub fn new() -> (store: Store)
        ensures
            store@ is None,
    {
        Store { record: None }
    }

    /// Reads the record, or reports that there is none.
    pub fn load(&self) -> (loaded: Result<State, ContractError>)
        ensures
            match self@ {
                Some(rec) => loaded matches Ok(state) && state@ == rec,
                None => loaded == Err::<State, ContractError>(ContractError::NotFound),
            },
    {
        match &self.record {
            Some(state) => Ok(state.duplicate()),
            None => Err(ContractError::NotFound),
        }
    }

    /// Overwrites the record with `state`.
    pub fn save(&mut self, state: State)
        ensures
            final(self)@ == Some(state@),
    {
        self.record = Some(state);
    }
}

} // verus!
