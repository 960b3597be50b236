use vstd::prelude::*;
use crate::error::ContractError;
use crate::msg::HandleMsg;

verus! {

/// Length of a re-encryption key in bytes.
pub const KEY_LEN: usize = 32;

/// The single record of the contract, as mathematics sees it.
pub struct Record {
    /// Canonical address of the account that initialised the contract.
    pub owner: Seq<u8>,
    /// The stored key.
    pub key: Seq<u8>,
}

/// What a store holds: nothing before initialisation, one record after it.
pub type Contents = Option<Record>;

/// What a transition makes of a store: the contents that replace the old ones,
/// or the error with which the transition is refused.
pub type Outcome = Result<Contents, ContractError>;

/// The key made of `KEY_LEN` zero bytes.
pub open spec fn zero_key() -> Seq<u8> {
    Seq::new(KEY_LEN as nat, |i: int| 0u8)
}

/// The store after initialisation by `caller`, whatever it held before.
pub open spec fn init_next(caller: Seq<u8>) -> Contents {
    Some(Record { owner: caller, key: zero_key() })
}

/// Setting the key to `key`: the record keeps its owner and takes the new
/// key. `caller` is the account that asks, and it plays no part.
pub open spec fn set_result(store: Contents, caller: Seq<u8>, key: Seq<u8>) -> Outcome {
    match store {
        None => Err(ContractError::NotFound),
        Some(rec) => Ok(Some(Record { owner: rec.owner, key: key })),
    }
}

/// A reset asked for by `caller`: the owner gets the key cleared, anyone else
/// is refused.
pub open spec fn reset_result(store: Contents, caller: Seq<u8>) -> Outcome {
    match store {
        None => Err(ContractError::NotFound),
        Some(rec) => if caller == rec.owner {
            Ok(Some(Record { owner: rec.owner, key: zero_key() }))
        } else {
            Err(ContractError::Unauthorized)
        },
    }
}

/// The transition that the update request `msg`, sent by `caller`, stands for.
pub open spec fn handle_result(store: Contents, caller: Seq<u8>, msg: HandleMsg) -> Outcome {
    match msg {
        HandleMsg::SetKey { reencryption_key } => set_result(store, caller, reencryption_key@),
        HandleMsg::Reset {  } => reset_result(store, caller),
    }
}

/// The contents of a store that held `before` once a transition has ended
/// with `outcome`: a refused transition changes nothing.
pub open spec fn store_after(before: Contents, outcome: Outcome) -> Contents {
    match outcome {
        Ok(next) => next,
        Err(_) => before,
    }
}

/// The key that a query reads from `store`.
pub open spec fn query_result(store: Contents) -> Result<Seq<u8>, ContractError> {
    match store {
        None => Err(ContractError::NotFound),
        Some(rec) => Ok(rec.key),
    }
}

/// The zero key is `KEY_LEN` bytes long and every byte of it is zero.
pub proof fn lemma_zero_key_is_all_zero()
    ensures
        zero_key().len() == KEY_LEN,
        forall|i: int| 0 <= i < KEY_LEN ==> zero_key()[i] == 0u8,
{
}

/// Right after initialisation by `creator` a query reads the zero key, a
/// reset by `creator` is accepted, and a reset by any other account is
/// refused as unauthorized.
pub proof fn lemma_initialisation_sets_owner_and_zero_key(creator: Seq<u8>, other: Seq<u8>)
    requires
        other != creator,
    ensures
        query_result(init_next(creator)) == Ok::<Seq<u8>, ContractError>(zero_key()),
        reset_result(init_next(creator), creator) is Ok,
        reset_result(init_next(creator), other) == Err::<Contents, ContractError>(
            ContractError::Unauthorized,
        ),
{
}

/// On an initialised store a set is accepted from every caller, two callers
/// who set the same key leave the same store, and a query then reads exactly
/// that key.
pub proof fn lemma_set_is_open_to_any_caller(
    store: Contents,
    caller: Seq<u8>,
    other: Seq<u8>,
    key: Seq<u8>,
)
    requires
        store is Some,
    ensures
        set_result(store, caller, key) is Ok,
        set_result(store, caller, key) == set_result(store, other, key),
        query_result(store_after(store, set_result(store, caller, key))) == Ok::<
            Seq<u8>,
            ContractError,
        >(key),
{
}

/// On an initialised store a reset by anyone but the owner is refused as
/// unauthorized and leaves the store, and so the key, as it was; a reset by
/// the owner is accepted and leaves the zero key.
pub proof fn lemma_reset_is_for_the_owner_alone(store: Contents, caller: Seq<u8>)
    requires
        store is Some,
    ensures
        caller != store->0.owner ==> {
            &&& reset_result(store, caller) == Err::<Contents, ContractError>(
                ContractError::Unauthorized,
            )
            &&& store_after(store, reset_result(store, caller)) == store
            &&& query_result(store_after(store, reset_result(store, caller))) == query_result(
                store,
            )
        },
        caller == store->0.owner ==> {
            &&& reset_result(store, caller) is Ok
            &&& query_result(store_after(store, reset_result(store, caller))) == Ok::<
                Seq<u8>,
                ContractError,
            >(zero_key())
        },
{
}

/// Two resets in a row by the owner are both accepted, and the key is zero
/// after the first as after the second.
pub proof fn lemma_reset_is_idempotent(store: Contents, owner: Seq<u8>)
    requires
        store is Some,
        store->0.owner == owner,
    ensures
        ({
            let once = store_after(store, reset_result(store, owner));
            let twice = store_after(once, reset_result(once, owner));
            &&& reset_result(store, owner) is Ok
            &&& reset_result(once, owner) is Ok
            &&& query_result(once) == Ok::<Seq<u8>, ContractError>(zero_key())
            &&& query_result(twice) == Ok::<Seq<u8>, ContractError>(zero_key())
            &&& twice == once
        }),
{
}

/// A key that was set is read back byte for byte: same length, same bytes.
pub proof fn lemma_set_then_query_round_trip(store: Contents, caller: Seq<u8>, key: Seq<u8>)
    requires
        store is Some,
        key.len() == KEY_LEN,
    ensures
        ({
            let read = query_result(store_after(store, set_result(store, caller, key)));
            &&& read is Ok
            &&& read->Ok_0.len() == KEY_LEN
            &&& forall|i: int| 0 <= i < KEY_LEN ==> read->Ok_0[i] == key[i]
        }),
{
}

/// No update request, accepted or refused, creates or removes the record or
/// changes its owner, and the key stays `KEY_LEN` bytes long.
pub proof fn lemma_updates_keep_the_record_and_its_owner(
    store: Contents,
    caller: Seq<u8>,
    msg: HandleMsg,
)
    ensures
        ({
            let after = store_after(store, handle_result(store, caller, msg));
            &&& after is Some <==> store is Some
            &&& store is Some ==> after->0.owner == store->0.owner
            &&& store is Some && store->0.key.len() == KEY_LEN ==> after->0.key.len() == KEY_LEN
        }),
{
}

/// A request on a store that was never initialised is refused as not found,
/// whichever request it is.
pub proof fn lemma_nothing_works_before_initialisation(caller: Seq<u8>, msg: HandleMsg)
    ensures
        handle_result(None, caller, msg) == Err::<Contents, ContractError>(
            ContractError::NotFound,
        ),
        query_result(None) == Err::<Seq<u8>, ContractError>(ContractError::NotFound),
{
}

} // verus!
