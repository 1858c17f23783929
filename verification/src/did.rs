//! Calls on dids and their keys.

use vstd::prelude::*;
use crate::error::{indy_error_to_indy_error2, IndyError2};
use crate::reply::{answer, fails_as, relays_to, resolve, Reply};
use crate::results::{StringOptString, StringString};

verus! {

/// Creating a did with its keys. Success brings the did and its verification
/// key.
pub fn create_and_store_my_did(reply: Reply<(String, String)>) -> (result: Result<
    StringString,
    IndyError2,
>)
    ensures
        match reply {
            Reply::Value(value) => result matches Ok(got) && got == (StringString {
                i0: value.0,
                i1: value.1,
            }),
            Reply::Failure(_, _) => fails_as(reply, result),
        },
{
    match resolve(reply) {
        Ok(value) => Ok(StringString { i0: value.0, i1: value.1 }),
        Err(error) => Err(indy_error_to_indy_error2(error)),
    }
}

/// Starting the replacement of the keys of a did. Success brings the new
/// verification key.
pub fn replace_keys_start(reply: Reply<String>) -> (result: Result<String, IndyError2>)
    ensures
        relays_to(reply, result),
{
    answer(reply)
}

/// Applying the replacement of the keys of a did. Success brings no outputs.
pub fn replace_keys_apply(reply: Reply<()>) -> (result: Result<(), IndyError2>)
    ensures
        relays_to(reply, result),
{
    answer(reply)
}

/// Storing the did of another party. Success brings no outputs.
pub fn store_their_did(reply: Reply<()>) -> (result: Result<(), IndyError2>)
    ensures
        relays_to(reply, result),
{
    answer(reply)
}

/// Looking up the verification key of a did, on the ledger if need be. Success
/// brings the key.
pub fn key_for_did(reply: Reply<String>) -> (result: Result<String, IndyError2>)
    ensures
        relays_to(reply, result),
{
    answer(reply)
}

/// Looking up the verification key of a did in the wallet. Success brings the
/// key.
pub fn key_for_local_did(reply: Reply<String>) -> (result: Result<String, IndyError2>)
    ensures
        relays_to(reply, result),
{
    answer(reply)
}

/// Setting the endpoint of a did. Success brings no outputs.
pub fn set_endpoint_for_did(reply: Reply<()>) -> (result: Result<(), IndyError2>)
    ensures
        relays_to(reply, result),
{
    answer(reply)
}

/// Reading the endpoint of a did. Success brings the address and, where there
/// is one, the transport key.
pub fn get_endpoint_for_did(reply: Reply<(String, Option<String>)>) -> (result: Result<
    StringOptString,
    IndyError2,
>)
    ensures
        match reply {
            Reply::Value(value) => result matches Ok(got) && got == (StringOptString {
                i0: value.0,
                i1: value.1,
            }),
            Reply::Failure(_, _) => fails_as(reply, result),
        },
{
    match resolve(reply) {
        Ok(value) => Ok(StringOptString { i0: value.0, i1: value.1 }),
        Err(error) => Err(indy_error_to_indy_error2(error)),
    }
}

/// Setting the metadata of a did. Success brings no outputs.
pub fn set_did_metadata(reply: Reply<()>) -> (result: Result<(), IndyError2>)
    ensures
        relays_to(reply, result),
{
    answer(reply)
}

/// Reading the metadata of a did. Success brings the metadata.
pub fn get_did_metadata(reply: Reply<String>) -> (result: Result<String, IndyError2>)
    ensures
        relays_to(reply, result),
{
    answer(reply)
}

/// Reading a did of the wallet with its metadata. Success brings the did, its
/// key and its metadata as json.
pub fn get_my_did_with_metadata(reply: Reply<String>) -> (result: Result<String, IndyError2>)
    ensures
        relays_to(reply, result),
{
    answer(reply)
}

/// Listing the dids of the wallet with their metadata. Success brings the list
/// as json.
pub fn list_my_dids_with_metadata(reply: Reply<String>) -> (result: Result<String, IndyError2>)
    ensures
        relays_to(reply, result),
{
    answer(reply)
}

/// Abbreviating a verification key. Success brings the key in its short form.
pub fn abbreviate_verkey(reply: Reply<String>) -> (result: Result<String, IndyError2>)
    ensures
        relays_to(reply, result),
{
    answer(reply)
}

/// Qualifying a did with a method. Success brings the qualified did.
pub fn qualify_did(reply: Reply<String>) -> (result: Result<String, IndyError2>)
    ensures
        relays_to(reply, result),
{
    answer(reply)
}

} // verus!
