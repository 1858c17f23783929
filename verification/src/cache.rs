//! Calls that go through the cache of schemas and credential definitions.

use vstd::prelude::*;
use crate::error::IndyError2;
use crate::reply::{answer, relays_to, Reply};

verus! {

/// Getting a schema through the cache. Success brings the schema as json.
pub fn get_schema(reply: Reply<String>) -> (result: Result<String, IndyError2>)
    ensures
        relays_to(reply, result),
{
    answer(reply)
}

/// Getting a credential definition through the cache. Success brings the
/// definition as json.
pub fn get_cred_def(reply: Reply<String>) -> (result: Result<String, IndyError2>)
    ensures
        relays_to(reply, result),
{
    answer(reply)
}

/// Purging the schema cache. Success brings no outputs.
pub fn purge_schema_cache(reply: Reply<()>) -> (result: Result<(), IndyError2>)
    ensures
        relays_to(reply, result),
{
    answer(reply)
}

/// Purging the cache of credential definitions. Success brings no outputs.
pub fn purge_cred_def_cache(reply: Reply<()>) -> (result: Result<(), IndyError2>)
    ensures
        relays_to(reply, result),
{
    answer(reply)
}

} // verus!
