//! Calls on pool ledgers.

use vstd::prelude::*;
use crate::error::IndyError2;
use crate::reply::{answer, relays_to, Reply};

verus! {

/// Creating a pool ledger configuration. Success brings no outputs.
pub fn create_pool_ledger_config(reply: Reply<()>) -> (result: Result<(), IndyError2>)
    ensures
        relays_to(reply, result),
{
    answer(reply)
}

/// Opening a pool ledger. Success brings the handle of the pool.
pub fn open_pool_ledger(reply: Reply<i32>) -> (result: Result<i32, IndyError2>)
    ensures
        relays_to(reply, result),
{
    answer(reply)
}

/// Refreshing a pool ledger. Success brings no outputs.
pub fn refresh_pool_ledger(reply: Reply<()>) -> (result: Result<(), IndyError2>)
    ensures
        relays_to(reply, result),
{
    answer(reply)
}

/// Listing the pool ledgers. Success brings the list as json.
pub fn list_pools(reply: Reply<String>) -> (result: Result<String, IndyError2>)
    ensures
        relays_to(reply, result),
{
    answer(reply)
}

/// Closing a pool ledger. Success brings no outputs.
pub fn close_pool_ledger(reply: Reply<()>) -> (result: Result<(), IndyError2>)
    ensures
        relays_to(reply, result),
{
    answer(reply)
}

/// Deleting a pool ledger configuration. Success brings no outputs.
pub fn delete_pool_ledger(reply: Reply<()>) -> (result: Result<(), IndyError2>)
    ensures
        relays_to(reply, result),
{
    answer(reply)
}

/// Setting the protocol version. Success brings no outputs.
pub fn set_protocol_version(reply: Reply<()>) -> (result: Result<(), IndyError2>)
    ensures
        relays_to(reply, result),
{
    answer(reply)
}

} // verus!
