//! Calls of issuers, provers and verifiers of anonymous credentials.

use vstd::prelude::*;
use crate::error::{indy_error_to_indy_error2, IndyError2};
use crate::reply::{answer, fails_as, relays_to, resolve, Reply};
use crate::results::{
    SearchHandleAndLength, StringString, StringStringString, StringStringString122,
};

verus! {

/// Creating a schema. Success brings the id of the schema and the schema as
/// json.
pub fn issuer_create_schema(reply: Reply<(String, String)>) -> (result: Result<
    StringString,
    IndyError2,
>)
    ensures
        match reply {
            Reply::Value(value) => result matches Ok(got) && got == (StringString {
                i0: value.0,
                i1: value.1,
            }),
            Reply::Failure(_, _) => fails_as(reply, result),
        },
{
    match resolve(reply) {
        Ok(value) => Ok(StringString { i0: value.0, i1: value.1 }),
        Err(error) => Err(indy_error_to_indy_error2(error)),
    }
}

/// Creating a credential definition and storing it. Success brings the id of
/// the definition and the definition as json.
pub fn issuer_create_and_store_credential_def(reply: Reply<(String, String)>) -> (result: Result<
    StringString,
    IndyError2,
>)
    ensures
        match reply {
            Reply::Value(value) => result matches Ok(got) && got == (StringString {
                i0: value.0,
                i1: value.1,
            }),
            Reply::Failure(_, _) => fails_as(reply, result),
        },
{
    match resolve(reply) {
        Ok(value) => Ok(StringString { i0: value.0, i1: value.1 }),
        Err(error) => Err(indy_error_to_indy_error2(error)),
    }
}

/// Starting the rotation of a credential definition. Success brings the new
/// definition as json.
pub fn issuer_rotate_credential_def_start(reply: Reply<String>) -> (result: Result<
    String,
    IndyError2,
>)
    ensures
        relays_to(reply, result),
{
    answer(reply)
}

/// Applying the rotation of a credential definition. Success brings no outputs.
pub fn issuer_rotate_credential_def_apply(reply: Reply<()>) -> (result: Result<(), IndyError2>)
    ensures
        relays_to(reply, result),
{
    answer(reply)
}

/// Creating a revocation registry and storing it. Success brings the id of the
/// registry, its definition and its first entry as json.
pub fn issuer_create_and_store_revoc_reg(reply: Reply<(String, String, String)>) -> (result: Result<
    StringStringString,
    IndyError2,
>)
    ensures
        match reply {
            Reply::Value(value) => result matches Ok(got) && got == (StringStringString {
                i0: value.0,
                i1: value.1,
                i2: value.2,
            }),
            Reply::Failure(_, _) => fails_as(reply, result),
        },
{
    match resolve(reply) {
        Ok(value) => Ok(StringStringString { i0: value.0, i1: value.1, i2: value.2 }),
        Err(error) => Err(indy_error_to_indy_error2(error)),
    }
}

/// Creating a credential offer. Success brings the offer as json.
pub fn issuer_create_credential_offer(reply: Reply<String>) -> (result: Result<String, IndyError2>)
    ensures
        relays_to(reply, result),
{
    answer(reply)
}

/// Issuing a credential. Success brings the credential as json and, where the
/// credential can be revoked, its revocation id and the delta of the registry.
pub fn issuer_create_credential(reply: Reply<(String, Option<String>, Option<String>)>) -> (result: Result<
    StringStringString122,
    IndyError2,
>)
    ensures
        match reply {
            Reply::Value(value) => result matches Ok(got) && got == (StringStringString122 {
                i0: value.0,
                i1: value.1,
                i2: value.2,
            }),
            Reply::Failure(_, _) => fails_as(reply, result),
        },
{
    match resolve(reply) {
        Ok(value) => Ok(StringStringString122 { i0: value.0, i1: value.1, i2: value.2 }),
        Err(error) => Err(indy_error_to_indy_error2(error)),
    }
}

/// Revoking a credential. Success brings the delta of the revocation registry
/// as json.
pub fn issuer_revoke_credential(reply: Reply<String>) -> (result: Result<String, IndyError2>)
    ensures
        relays_to(reply, result),
{
    answer(reply)
}

/// Merging two deltas of a revocation registry. Success brings the merged delta
/// as json.
pub fn issuer_merge_revocation_registry_deltas(reply: Reply<String>) -> (result: Result<
    String,
    IndyError2,
>)
    ensures
        relays_to(reply, result),
{
    answer(reply)
}

/// Creating a master secret. Success brings the id of the secret.
pub fn prover_create_master_secret(reply: Reply<String>) -> (result: Result<String, IndyError2>)
    ensures
        relays_to(reply, result),
{
    answer(reply)
}

/// Reading a credential. Success brings the credential as json.
pub fn prover_get_credential(reply: Reply<String>) -> (result: Result<String, IndyError2>)
    ensures
        relays_to(reply, result),
{
    answer(reply)
}

/// Deleting a credential. Success brings no outputs.
pub fn prover_delete_credential(reply: Reply<()>) -> (result: Result<(), IndyError2>)
    ensures
        relays_to(reply, result),
{
    answer(reply)
}

/// Creating a credential request. Success brings the request and its metadata
/// as json.
pub fn prover_create_credential_req(reply: Reply<(String, String)>) -> (result: Result<
    StringString,
    IndyError2,
>)
    ensures
        match reply {
            Reply::Value(value) => result matches Ok(got) && got == (StringString {
                i0: value.0,
                i1: value.1,
            }),
            Reply::Failure(_, _) => fails_as(reply, result),
        },
{
    match resolve(reply) {
        Ok(value) => Ok(StringString { i0: value.0, i1: value.1 }),
        Err(error) => Err(indy_error_to_indy_error2(error)),
    }
}

/// Setting the policy for the attribute tags of credentials. Success brings no
/// outputs.
pub fn prover_set_credential_attr_tag_policy(reply: Reply<()>) -> (result: Result<(), IndyError2>)
    ensures
        relays_to(reply, result),
{
    answer(reply)
}

/// Reading the policy for the attribute tags of credentials. Success brings the
/// policy as json.
pub fn prover_get_credential_attr_tag_policy(reply: Reply<String>) -> (result: Result<
    String,
    IndyError2,
>)
    ensures
        relays_to(reply, result),
{
    answer(reply)
}

/// Storing a credential. Success brings the id under which it is stored.
pub fn prover_store_credential(reply: Reply<String>) -> (result: Result<String, IndyError2>)
    ensures
        relays_to(reply, result),
{
    answer(reply)
}

/// Reading the credentials that pass a filter. Success brings the credentials
/// as json.
pub fn prover_get_credentials(reply: Reply<String>) -> (result: Result<String, IndyError2>)
    ensures
        relays_to(reply, result),
{
    answer(reply)
}

/// Opening a search over credentials. Success brings the handle of the search
/// and the number of credentials found.
pub fn prover_search_credentials(reply: Reply<(i32, usize)>) -> (result: Result<
    SearchHandleAndLength,
    IndyError2,
>)
    ensures
        match reply {
            Reply::Value(value) => result matches Ok(got) && got == (SearchHandleAndLength {
                i0: value.0,
                i1: value.1 as u64,
            }),
            Reply::Failure(_, _) => fails_as(reply, result),
        },
{
    match resolve(reply) {
        Ok(value) => Ok(SearchHandleAndLength { i0: value.0, i1: value.1 as u64 }),
        Err(error) => Err(indy_error_to_indy_error2(error)),
    }
}

/// Fetching the next credentials of a search. Success brings the credentials as
/// json.
pub fn prover_fetch_credentials(reply: Reply<String>) -> (result: Result<String, IndyError2>)
    ensures
        relays_to(reply, result),
{
    answer(reply)
}

/// Closing a search over credentials. Success brings no outputs.
pub fn prover_close_credentials_search(reply: Reply<()>) -> (result: Result<(), IndyError2>)
    ensures
        relays_to(reply, result),
{
    answer(reply)
}

/// Reading the credentials that fit a proof request. Success brings the
/// credentials as json.
pub fn prover_get_credentials_for_proof_req(reply: Reply<String>) -> (result: Result<
    String,
    IndyError2,
>)
    ensures
        relays_to(reply, result),
{
    answer(reply)
}

/// Opening a search for the credentials that fit a proof request. Success
/// brings the handle of the search.
pub fn prover_search_credentials_for_proof_req(reply: Reply<i32>) -> (result: Result<
    i32,
    IndyError2,
>)
    ensures
        relays_to(reply, result),
{
    answer(reply)
}

/// Fetching the next credentials for one item of a proof request. Success
/// brings the credentials as json.
pub fn prover_fetch_credentials_for_proof_req(reply: Reply<String>) -> (result: Result<
    String,
    IndyError2,
>)
    ensures
        relays_to(reply, result),
{
    answer(reply)
}

/// Closing a search for the credentials of a proof request. Success brings no
/// outputs.
pub fn prover_close_credentials_search_for_proof_req(reply: Reply<()>) -> (result: Result<
    (),
    IndyError2,
>)
    ensures
        relays_to(reply, result),
{
    answer(reply)
}

/// Creating a proof. Success brings the proof as json.
pub fn prover_create_proof(reply: Reply<String>) -> (result: Result<String, IndyError2>)
    ensures
        relays_to(reply, result),
{
    answer(reply)
}

/// Verifying a proof. Success brings whether the proof is valid.
pub fn verifier_verify_proof(reply: Reply<bool>) -> (result: Result<bool, IndyError2>)
    ensures
        relays_to(reply, result),
{
    answer(reply)
}

/// Creating a revocation state. Success brings the state as json.
pub fn create_revocation_state(reply: Reply<String>) -> (result: Result<String, IndyError2>)
    ensures
        relays_to(reply, result),
{
    answer(reply)
}

/// Updating a revocation state. Success brings the state as json.
pub fn update_revocation_state(reply: Reply<String>) -> (result: Result<String, IndyError2>)
    ensures
        relays_to(reply, result),
{
    answer(reply)
}

/// Generating a nonce. Success brings the nonce.
pub fn generate_nonce(reply: Reply<String>) -> (result: Result<String, IndyError2>)
    ensures
        relays_to(reply, result),
{
    answer(reply)
}

/// Taking the qualification off an identifier. Success brings the identifier in
/// its unqualified form.
pub fn to_unqualified(reply: Reply<String>) -> (result: Result<String, IndyError2>)
    ensures
        relays_to(reply, result),
{
    answer(reply)
}

} // verus!
