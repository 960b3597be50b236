use vstd::prelude::*;
use crate::error::ContractError;
use crate::model::{
    handle_result, init_next, query_result, reset_result, set_result, store_after, zero_key,
};
use crate::msg::{HandleMsg, InitMsg, QueryMsg, ReencryptionKeyResponse};
use crate::state::{State, Store};

verus! {

/// What a successful initialisation hands back to the host: the messages to
/// dispatch next, each in its encoded form, and the log attributes to record.
pub struct InitResponse {
    pub messages: Vec<Vec<u8>>,
    pub log: Vec<(String, String)>,
}

/// What a successful update hands back to the host: the messages to dispatch
/// next, each in its encoded form, the log attributes to record, and the
/// payload for the caller.
pub struct HandleResponse {
    pub messages: Vec<Vec<u8>>,
    pub log: Vec<(String, String)>,
    pub data: Option<Vec<u8>>,
}

impl InitResponse {
    /// Nothing to dispatch and nothing to record.
    pub open spec fn is_empty(&self) -> bool {
        self.messages@.len() == 0 && self.log@.len() == 0
    }
}

impl HandleResponse {
    /// Nothing to dispatch, nothing to record and no payload.
    pub open spec fn is_empty(&self) -> bool {
        self.messages@.len() == 0 && self.log@.len() == 0 && self.data is None
    }
}

impl Default for InitResponse {
    fn default() -> (response: InitResponse)
        ensures
            response.is_empty(),
    {
        InitResponse { messages: Vec::new(), log: Vec::new() }
    }
}

impl Default for HandleResponse {
    fn default() -> (response: HandleResponse)
        ensures
            response.is_empty(),
    {
        HandleResponse { messages: Vec::new(), log: Vec::new(), data: None }
    }
}

/// Whether two canonical addresses are the same bytes.
pub fn same_address(a: &Vec<u8>, b: &Vec<u8>) -> (same: bool)
    ensures
        same == (a@ == b@),
{
    if a.len() != b.len() {
        return false;
    }
    let mut i: usize = 0;
    while i < a.len()
        invariant
            a.len() == b.len(),
            i <= a.len(),
            forall|j: int| 0 <= j < i ==> a@[j] == b@[j],
        decreases a.len() - i,
    {
        if a[i] != b[i] {
            return false;
        }
        i += 1;
    }
    assert(a@ =~= b@);
    true
}

/// Creates the record: `sender` becomes the owner and the key is all zeroes.
/// Whatever the store held before is overwritten, and the call never fails.
pub fn init(store: &mut Store, sender: Vec<u8>, _msg: InitMsg) -> (result: Result<
    InitResponse,
    ContractError,
>)
    ensures
        final(store)@ == init_next(sender@),
        result matches Ok(response) && response.is_empty(),
{
    let state = State::new(sender);
    store.save(state);
    Ok(InitResponse::default())
}

/// Routes an update request to the handler of its variant.
pub fn handle(store: &mut Store, sender: Vec<u8>, msg: HandleMsg) -> (result: Result<
    HandleResponse,
    ContractError,
>)
    ensures
        final(store)@ == store_after(old(store)@, handle_result(old(store)@, sender@, msg)),
        match handle_result(old(store)@, sender@, msg) {
            Ok(_) => result matches Ok(response) && response.is_empty(),
            Err(error) => result == Err::<HandleResponse, ContractError>(error),
        },
{
    match msg {
        HandleMsg::SetKey { reencryption_key } => try_set_reencryption_key(
            store,
            sender,
            reencryption_key,
        ),
        HandleMsg::Reset {  } => try_reset(store, sender),
    }
}

/// Replaces the stored key with `key`. Any sender may do so. Fails only on a
/// store that was never initialised, and then changes nothing.
pub fn try_set_reencryption_key(store: &mut Store, sender: Vec<u8>, key: [u8; 32]) -> (result:
    Result<HandleResponse, ContractError>)
    ensures
        final(store)@ == store_after(old(store)@, set_result(old(store)@, sender@, key@)),
        match set_result(old(store)@, sender@, key@) {
            Ok(_) => result matches Ok(response) && response.is_empty(),
            Err(error) => result == Err::<HandleResponse, ContractError>(error),
        },
{
    match store.load() {
        Err(error) => Err(error),
        Ok(state) => {
            let mut state = state;
            state.reencryption_key = key;
            store.save(state);
            Ok(HandleResponse::default())
        },
    }
}

/// Clears the stored key, provided that `sender` is the owner. Anyone else is
/// refused as unauthorized, and a refused call changes nothing.
pub fn try_reset(store: &mut Store, sender: Vec<u8>) -> (result: Result<
    HandleResponse,
    ContractError,
>)
    ensures
        final(store)@ == store_after(old(store)@, reset_result(old(store)@, sender@)),
        match reset_result(old(store)@, sender@) {
            Ok(_) => result matches Ok(response) && response.is_empty(),
            Err(error) => result == Err::<HandleResponse, ContractError>(error),
        },
{
    match store.load() {
        Err(error) => Err(error),
        Ok(state) => {
            if !same_address(&sender, &state.owner) {
                return Err(ContractError::Unauthorized);
            }
            let mut state = state;
            state.reencryption_key = [0u8; 32];
            assert(state.reencryption_key@ =~= zero_key());
            store.save(state);
            Ok(HandleResponse::default())
        },
    }
}

/// Routes a read request to the handler of its variant.
pub fn query(store: &Store, msg: QueryMsg) -> (result: Result<
    ReencryptionKeyResponse,
    ContractError,
>)
    ensures
        match query_result(store@) {
            Ok(key) => result matches Ok(response) && response.reencryption_key@ == key,
            Err(error) => result == Err::<ReencryptionKeyResponse, ContractError>(error),
        },
{
    match msg {
        QueryMsg::GetReencryptionKey {  } => query_count(store),
    }
}

/// Reads the stored key, byte for byte.
fn query_count(store: &Store) -> (result: Result<ReencryptionKeyResponse, ContractError>)
    ensures
        match query_result(store@) {
            Ok(key) => result matches Ok(response) && response.reencryption_key@ == key,
            Err(error) => result == Err::<ReencryptionKeyResponse, ContractError>(error),
        },
{
    match store.load() {
        Err(error) => Err(error),
        Ok(state) => Ok(ReencryptionKeyResponse { reencryption_key: state.reencryption_key }),
    }
}

} // verus!
