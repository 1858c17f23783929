//! Calls on pairwise relations.

use vstd::prelude::*;
use crate::error::IndyError2;
use crate::reply::{answer, relays_to, Reply};

verus! {

/// Asking whether a pairwise exists for a did. Success brings whether it
/// exists.
pub fn is_pairwise_exists(reply: Reply<bool>) -> (result: Result<bool, IndyError2>)
    ensures
        relays_to(reply, result),
{
    answer(reply)
}

/// Creating a pairwise. Success brings no outputs.
pub fn create_pairwise(reply: Reply<()>) -> (result: Result<(), IndyError2>)
    ensures
        relays_to(reply, result),
{
    answer(reply)
}

/// Listing the pairwises of the wallet. Success brings the list as json.
pub fn list_pairwise(reply: Reply<String>) -> (result: Result<String, IndyError2>)
    ensures
        relays_to(reply, result),
{
    answer(reply)
}

/// Reading a pairwise. Success brings my did and the metadata as json.
pub fn get_pairwise(reply: Reply<String>) -> (result: Result<String, IndyError2>)
    ensures
        relays_to(reply, result),
{
    answer(reply)
}

/// Setting the metadata of a pairwise. Success brings no outputs.
pub fn set_pairwise_metadata(reply: Reply<()>) -> (result: Result<(), IndyError2>)
    ensures
        relays_to(reply, result),
{
    answer(reply)
}

} // verus!
