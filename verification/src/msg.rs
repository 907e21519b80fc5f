//! The message types of the counter's three entry points, and the response
//! to a value query.

use vstd::prelude::*;

verus! {

/// The message that initializes the counter: start at zero, or at a chosen
/// value.
#[derive(Clone, Copy, Debug, PartialEq, Eq, Structural)]
pub enum InstantiateMsg {
    Zero {},
    SetTo { value: u8 },
}

/// The message that mutates an initialized counter.
#[derive(Clone, Copy, Debug, PartialEq, Eq, Structural)]
pub enum ExecuteMsg {
    Inc {},
    Dec {},
    SetTo { value: u8 },
}

/// The message that reads the counter.
#[derive(Clone, Copy, Debug, PartialEq, Eq, Structural)]
pub enum QueryMsg {
    Value {},
}

/// The answer to a `QueryMsg::Value` query: the stored byte.
#[derive(Clone, Copy, Debug, PartialEq, Eq, Structural)]
pub struct CounterResponse {
    pub value: u8,
}

} // verus!
