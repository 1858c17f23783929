//! Calls on wallets and their records.

use vstd::prelude::*;
use crate::error::IndyError2;
use crate::reply::{answer, relays_to, Reply};

verus! {

/// Registering a wallet storage type. Success brings no outputs.
pub fn register_wallet_storage(reply: Reply<()>) -> (result: Result<(), IndyError2>)
    ensures
        relays_to(reply, result),
{
    answer(reply)
}

/// Creating a wallet. Success brings no outputs.
pub fn create_wallet(reply: Reply<()>) -> (result: Result<(), IndyError2>)
    ensures
        relays_to(reply, result),
{
    answer(reply)
}

/// Opening a wallet. Success brings the handle of the open wallet.
pub fn open_wallet(reply: Reply<i32>) -> (result: Result<i32, IndyError2>)
    ensures
        relays_to(reply, result),
{
    answer(reply)
}

/// Exporting a wallet. Success brings no outputs.
pub fn export_wallet(reply: Reply<()>) -> (result: Result<(), IndyError2>)
    ensures
        relays_to(reply, result),
{
    answer(reply)
}

/// Importing a wallet from an export. Success brings no outputs.
pub fn import_wallet(reply: Reply<()>) -> (result: Result<(), IndyError2>)
    ensures
        relays_to(reply, result),
{
    answer(reply)
}

/// Deleting a wallet. Success brings no outputs.
pub fn delete_wallet(reply: Reply<()>) -> (result: Result<(), IndyError2>)
    ensures
        relays_to(reply, result),
{
    answer(reply)
}

/// Closing a wallet. Success brings no outputs.
pub fn close_wallet(reply: Reply<()>) -> (result: Result<(), IndyError2>)
    ensures
        relays_to(reply, result),
{
    answer(reply)
}

/// Adding a record to a wallet. Success brings no outputs.
pub fn add_wallet_record(reply: Reply<()>) -> (result: Result<(), IndyError2>)
    ensures
        relays_to(reply, result),
{
    answer(reply)
}

/// Replacing the value of a wallet record. Success brings no outputs.
pub fn update_wallet_record_value(reply: Reply<()>) -> (result: Result<(), IndyError2>)
    ensures
        relays_to(reply, result),
{
    answer(reply)
}

/// Replacing the tags of a wallet record. Success brings no outputs.
pub fn update_wallet_record_tags(reply: Reply<()>) -> (result: Result<(), IndyError2>)
    ensures
        relays_to(reply, result),
{
    answer(reply)
}

/// Adding tags to a wallet record. Success brings no outputs.
pub fn add_wallet_record_tags(reply: Reply<()>) -> (result: Result<(), IndyError2>)
    ensures
        relays_to(reply, result),
{
    answer(reply)
}

/// Deleting tags of a wallet record. Success brings no outputs.
pub fn delete_wallet_record_tags(reply: Reply<()>) -> (result: Result<(), IndyError2>)
    ensures
        relays_to(reply, result),
{
    answer(reply)
}

/// Deleting a wallet record. Success brings no outputs.
pub fn delete_wallet_record(reply: Reply<()>) -> (result: Result<(), IndyError2>)
    ensures
        relays_to(reply, result),
{
    answer(reply)
}

/// Reading a wallet record. Success brings the record as json.
pub fn get_wallet_record(reply: Reply<String>) -> (result: Result<String, IndyError2>)
    ensures
        relays_to(reply, result),
{
    answer(reply)
}

/// Opening a search over wallet records. Success brings the handle of the
/// search.
pub fn open_wallet_search(reply: Reply<i32>) -> (result: Result<i32, IndyError2>)
    ensures
        relays_to(reply, result),
{
    answer(reply)
}

/// Fetching the next records of a wallet search. Success brings the records as
/// json.
pub fn fetch_wallet_search_next_records(reply: Reply<String>) -> (result: Result<
    String,
    IndyError2,
>)
    ensures
        relays_to(reply, result),
{
    answer(reply)
}

/// Closing a wallet search. Success brings no outputs.
pub fn close_wallet_search(reply: Reply<()>) -> (result: Result<(), IndyError2>)
    ensures
        relays_to(reply, result),
{
    answer(reply)
}

/// Generating a wallet key. Success brings the key.
pub fn generate_wallet_key(reply: Reply<String>) -> (result: Result<String, IndyError2>)
    ensures
        relays_to(reply, result),
{
    answer(reply)
}

} // verus!
