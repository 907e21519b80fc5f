//! The three entry points of the counter, and the laws they obey.
//!
//! Each handler re-reads the stored value, decides, and writes back; the
//! decisions themselves are the pure `transition_*` functions, so a host
//! shim that only holds a `dyn` storage handle can run the same verified
//! logic around its own reads and writes.

use vstd::prelude::*;

use cosmwasm_std::testing::MockStorage;

use crate::error::ContractError;
use crate::msg::{CounterResponse, ExecuteMsg, InstantiateMsg, QueryMsg};
use crate::storage::{
    counter_decodes, counter_key, counter_may_load, counter_of, counter_save, counter_state,
    empty_view, storage_new, stored_values,
};

verus! {

/// The value the counter starts at for each initialization message.
pub open spec fn spec_init(msg: InstantiateMsg) -> u8 {
    match msg {
        InstantiateMsg::Zero {} => 0u8,
        InstantiateMsg::SetTo { value } => value,
    }
}

/// The value an initialized counter moves to: a saturating increment, a
/// saturating decrement, or the given value.
pub open spec fn spec_step(v: u8, msg: ExecuteMsg) -> u8 {
    match msg {
        ExecuteMsg::Inc {} => if v < 255 { (v + 1) as u8 } else { 255u8 },
        ExecuteMsg::Dec {} => if v > 0 { (v - 1) as u8 } else { 0u8 },
        ExecuteMsg::SetTo { value } => value,
    }
}

/// What `execute` decides from the stored value, if any, and the message.
pub open spec fn spec_execute(cur: Option<u8>, msg: ExecuteMsg) -> Result<u8, ContractError> {
    match cur {
        Some(v) => Ok(spec_step(v, msg)),
        None => Err(ContractError::StateMissing),
    }
}

/// What `query` answers from the stored value, if any.
pub open spec fn spec_query(cur: Option<u8>, msg: QueryMsg) -> Result<
    CounterResponse,
    ContractError,
> {
    match cur {
        Some(v) => Ok(CounterResponse { value: v }),
        None => Err(ContractError::StateMissing),
    }
}

/// The initial value an initialization message asks for.
pub fn transition_init(msg: InstantiateMsg) -> (v: u8)
    ensures
        v == spec_init(msg),
{
    match msg {
        InstantiateMsg::Zero {} => 0,
        InstantiateMsg::SetTo { value } => value,
    }
}

/// The decision `execute` makes from the stored value and the message: the
/// next value, or `StateMissing` when the counter was never initialized.
pub fn transition_execute(cur: Option<u8>, msg: ExecuteMsg) -> (r: Result<u8, ContractError>)
    ensures
        r == spec_execute(cur, msg),
{
    match cur {
        None => Err(ContractError::StateMissing),
        Some(v) => Ok(
            match msg {
                ExecuteMsg::Inc {} => if v < 255 { v + 1 } else { 255 },
                ExecuteMsg::Dec {} => if v > 0 { v - 1 } else { 0 },
                ExecuteMsg::SetTo { value } => value,
            },
        ),
    }
}

/// The answer `query` gives from the stored value: the value, or
/// `StateMissing` when the counter was never initialized.
pub fn transition_query(cur: Option<u8>, msg: QueryMsg) -> (r: Result<
    CounterResponse,
    ContractError,
>)
    ensures
        r == spec_query(cur, msg),
{
    match msg {
        QueryMsg::Value {} => match cur {
            None => Err(ContractError::StateMissing),
            Some(v) => Ok(CounterResponse { value: v }),
        },
    }
}

/// A fresh, empty store: nothing has been written yet, so no counter value
/// is present.
pub fn new_store() -> (s: MockStorage)
    ensures
        stored_values(s) == empty_view(),
        counter_decodes(s),
        counter_state(s) is None,
{
    storage_new()
}

/// Writes the value the message asks for over whatever was stored before.
/// It always succeeds: the in-memory store cannot reject the write.
pub fn instantiate(store: &mut MockStorage, msg: InstantiateMsg) -> (r: Result<(), ContractError>)
    ensures
        r is Ok,
        stored_values(*final(store)) == stored_values(*old(store)).insert(
            counter_key(),
            spec_init(msg),
        ),
        counter_state(*final(store)) == Some(spec_init(msg)),
        counter_decodes(*final(store)),
{
    let v = transition_init(msg);
    counter_save(store, v)
}

/// Reads the stored value, applies the message to it, and writes the result
/// back. On a store that was never initialized it fails with `StateMissing`
/// and writes nothing.
pub fn execute(store: &mut MockStorage, msg: ExecuteMsg) -> (r: Result<(), ContractError>)
    ensures
        counter_decodes(*old(store)) ==> match counter_state(*old(store)) {
            Some(v) => {
                &&& r is Ok
                &&& stored_values(*final(store)) == stored_values(*old(store)).insert(
                    counter_key(),
                    spec_step(v, msg),
                )
                &&& counter_state(*final(store)) == Some(spec_step(v, msg))
                &&& counter_decodes(*final(store))
            },
            None => {
                &&& r == Err::<(), ContractError>(ContractError::StateMissing)
                &&& *final(store) == *old(store)
            },
        },
{
    let cur = match counter_may_load(store) {
        Ok(c) => c,
        Err(e) => {
            return Err(e);
        },
    };
    let next = match transition_execute(cur, msg) {
        Ok(n) => n,
        Err(e) => {
            return Err(e);
        },
    };
    counter_save(store, next)
}

/// Reads the stored value and answers it, without touching the store. On a
/// store that was never initialized it fails with `StateMissing`.
pub fn query(store: &MockStorage, msg: QueryMsg) -> (r: Result<CounterResponse, ContractError>)
    ensures
        counter_decodes(*store) ==> r == spec_query(counter_state(*store), msg),
{
    let cur = match counter_may_load(store) {
        Ok(c) => c,
        Err(e) => {
            return Err(e);
        },
    };
    transition_query(cur, msg)
}

/// Initializing with `SetTo(v)` and then querying answers exactly `v`, and
/// initializing with `Zero` and then querying answers `0`, whatever the
/// store held before.
pub proof fn law_initialize_then_query(prior: Map<Seq<char>, u8>, v: u8)
    ensures
        spec_query(
            counter_of(prior.insert(counter_key(), spec_init(InstantiateMsg::SetTo { value: v }))),
            QueryMsg::Value {},
        ) == Ok::<CounterResponse, ContractError>((CounterResponse { value: v })),
        spec_query(
            counter_of(prior.insert(counter_key(), spec_init(InstantiateMsg::Zero {}))),
            QueryMsg::Value {},
        ) == Ok::<CounterResponse, ContractError>((CounterResponse { value: 0u8 })),
{
}

/// Incrementing a counter at `v < 255` yields `v + 1`; at `255` it yields
/// `255` again — saturation, not an error.
pub proof fn law_increment_saturates(v: u8)
    ensures
        v < 255 ==> spec_execute(Some(v), ExecuteMsg::Inc {}) == Ok::<u8, ContractError>(
            (v + 1) as u8,
        ),
        v == 255 ==> spec_execute(Some(v), ExecuteMsg::Inc {}) == Ok::<u8, ContractError>(255u8),
{
}

/// Decrementing a counter at `v > 0` yields `v - 1`; at `0` it yields `0`
/// again — saturation, not an error.
pub proof fn law_decrement_saturates(v: u8)
    ensures
        v > 0 ==> spec_execute(Some(v), ExecuteMsg::Dec {}) == Ok::<u8, ContractError>(
            (v - 1) as u8,
        ),
        v == 0 ==> spec_execute(Some(v), ExecuteMsg::Dec {}) == Ok::<u8, ContractError>(0u8),
{
}

/// `SetTo(v)` yields exactly `v`, whatever the prior value was.
pub proof fn law_set_overwrites(prior: u8, v: u8)
    ensures
        spec_execute(Some(prior), ExecuteMsg::SetTo { value: v }) == Ok::<u8, ContractError>(v),
{
}

/// Before any initialization the store holds no counter, and both `execute`
/// and `query` then fail with `StateMissing` instead of crashing.
pub proof fn law_uninitialized_rejected(emsg: ExecuteMsg, qmsg: QueryMsg)
    ensures
        counter_of(empty_view()) is None,
        spec_execute(None, emsg) == Err::<u8, ContractError>(ContractError::StateMissing),
        spec_query(None, qmsg) == Err::<CounterResponse, ContractError>(
            ContractError::StateMissing,
        ),
{
}

/// A successful `execute` leaves exactly the stepped value in the store: a
/// query right after it answers `spec_step(v, msg)`.
pub proof fn law_execute_then_query(prior: Map<Seq<char>, u8>, v: u8, msg: ExecuteMsg)
    requires
        counter_of(prior) == Some(v),
    ensures
        spec_query(counter_of(prior.insert(counter_key(), spec_step(v, msg))), QueryMsg::Value {})
            == Ok::<CounterResponse, ContractError>((CounterResponse { value: spec_step(v, msg) })),
{
}

} // verus!
