//! Calls that build, sign, send and parse ledger requests.

use vstd::prelude::*;
use crate::error::{indy_error_to_indy_error2, IndyError2};
use crate::reply::{answer, fails_as, relays_to, resolve, Reply};
use crate::results::{StringString, StringStringU64};

verus! {

/// Signing a request and sending it to the ledger. Success brings the response
/// of the ledger.
pub fn sign_and_submit_request(reply: Reply<String>) -> (result: Result<String, IndyError2>)
    ensures
        relays_to(reply, result),
{
    answer(reply)
}

/// Sending a request to the ledger. Success brings the response of the ledger.
pub fn submit_request(reply: Reply<String>) -> (result: Result<String, IndyError2>)
    ensures
        relays_to(reply, result),
{
    answer(reply)
}

/// Sending an action to nodes of the pool. Success brings the responses of the
/// nodes.
pub fn submit_action(reply: Reply<String>) -> (result: Result<String, IndyError2>)
    ensures
        relays_to(reply, result),
{
    answer(reply)
}

/// Signing a request. Success brings the signed request.
pub fn sign_request(reply: Reply<String>) -> (result: Result<String, IndyError2>)
    ensures
        relays_to(reply, result),
{
    answer(reply)
}

/// Adding a signature to a request. Success brings the request with the
/// signature added.
pub fn multi_sign_request(reply: Reply<String>) -> (result: Result<String, IndyError2>)
    ensures
        relays_to(reply, result),
{
    answer(reply)
}

/// Building a request for the ddo of a did. Success brings the request.
pub fn build_get_ddo_request(reply: Reply<String>) -> (result: Result<String, IndyError2>)
    ensures
        relays_to(reply, result),
{
    answer(reply)
}

/// Building a nym request. Success brings the request.
pub fn build_nym_request(reply: Reply<String>) -> (result: Result<String, IndyError2>)
    ensures
        relays_to(reply, result),
{
    answer(reply)
}

/// Building a request for a nym. Success brings the request.
pub fn build_get_nym_request(reply: Reply<String>) -> (result: Result<String, IndyError2>)
    ensures
        relays_to(reply, result),
{
    answer(reply)
}

/// Parsing the response to a request for a nym. Success brings the nym data as
/// json.
pub fn parse_get_nym_response(reply: Reply<String>) -> (result: Result<String, IndyError2>)
    ensures
        relays_to(reply, result),
{
    answer(reply)
}

/// Building a request for a transaction. Success brings the request.
pub fn build_get_txn_request(reply: Reply<String>) -> (result: Result<String, IndyError2>)
    ensures
        relays_to(reply, result),
{
    answer(reply)
}

/// Building an attribute request. Success brings the request.
pub fn build_attrib_request(reply: Reply<String>) -> (result: Result<String, IndyError2>)
    ensures
        relays_to(reply, result),
{
    answer(reply)
}

/// Building a request for an attribute. Success brings the request.
pub fn build_get_attrib_request(reply: Reply<String>) -> (result: Result<String, IndyError2>)
    ensures
        relays_to(reply, result),
{
    answer(reply)
}

/// Building a schema request. Success brings the request.
pub fn build_schema_request(reply: Reply<String>) -> (result: Result<String, IndyError2>)
    ensures
        relays_to(reply, result),
{
    answer(reply)
}

/// Building a request for a schema. Success brings the request.
pub fn build_get_schema_request(reply: Reply<String>) -> (result: Result<String, IndyError2>)
    ensures
        relays_to(reply, result),
{
    answer(reply)
}

/// Parsing the response to a request for a schema. Success brings the id of the
/// schema and the schema as json.
pub fn parse_get_schema_response(reply: Reply<(String, String)>) -> (result: Result<
    StringString,
    IndyError2,
>)
    ensures
        match reply {
            Reply::Value(value) => result matches Ok(got) && got == (StringString {
                i0: value.0,
                i1: value.1,
            }),
            Reply::Failure(_, _) => fails_as(reply, result),
        },
{
    match resolve(reply) {
        Ok(value) => Ok(StringString { i0: value.0, i1: value.1 }),
        Err(error) => Err(indy_error_to_indy_error2(error)),
    }
}

/// Building a request that publishes a credential definition. Success brings
/// the request.
pub fn build_cred_def_request(reply: Reply<String>) -> (result: Result<String, IndyError2>)
    ensures
        relays_to(reply, result),
{
    answer(reply)
}

/// Building a request for a credential definition. Success brings the request.
pub fn build_get_cred_def_request(reply: Reply<String>) -> (result: Result<String, IndyError2>)
    ensures
        relays_to(reply, result),
{
    answer(reply)
}

/// Parsing the response to a request for a credential definition. Success
/// brings the id of the definition and the definition as json.
pub fn parse_get_cred_def_response(reply: Reply<(String, String)>) -> (result: Result<
    StringString,
    IndyError2,
>)
    ensures
        match reply {
            Reply::Value(value) => result matches Ok(got) && got == (StringString {
                i0: value.0,
                i1: value.1,
            }),
            Reply::Failure(_, _) => fails_as(reply, result),
        },
{
    match resolve(reply) {
        Ok(value) => Ok(StringString { i0: value.0, i1: value.1 }),
        Err(error) => Err(indy_error_to_indy_error2(error)),
    }
}

/// Building a node request. Success brings the request.
pub fn build_node_request(reply: Reply<String>) -> (result: Result<String, IndyError2>)
    ensures
        relays_to(reply, result),
{
    answer(reply)
}

/// Building a request for the state of the validators. Success brings the
/// request.
pub fn build_get_validator_info_request(reply: Reply<String>) -> (result: Result<
    String,
    IndyError2,
>)
    ensures
        relays_to(reply, result),
{
    answer(reply)
}

/// Building a pool configuration request. Success brings the request.
pub fn build_pool_config_request(reply: Reply<String>) -> (result: Result<String, IndyError2>)
    ensures
        relays_to(reply, result),
{
    answer(reply)
}

/// Building a pool restart request. Success brings the request.
pub fn build_pool_restart_request(reply: Reply<String>) -> (result: Result<String, IndyError2>)
    ensures
        relays_to(reply, result),
{
    answer(reply)
}

/// Building a pool upgrade request. Success brings the request.
pub fn build_pool_upgrade_request(reply: Reply<String>) -> (result: Result<String, IndyError2>)
    ensures
        relays_to(reply, result),
{
    answer(reply)
}

/// Building a request that publishes a revocation registry definition. Success
/// brings the request.
pub fn build_revoc_reg_def_request(reply: Reply<String>) -> (result: Result<String, IndyError2>)
    ensures
        relays_to(reply, result),
{
    answer(reply)
}

/// Building a request for a revocation registry definition. Success brings the
/// request.
pub fn build_get_revoc_reg_def_request(reply: Reply<String>) -> (result: Result<String, IndyError2>)
    ensures
        relays_to(reply, result),
{
    answer(reply)
}

/// Parsing the response to a request for a revocation registry definition.
/// Success brings the id of the definition and the definition as json.
pub fn parse_get_revoc_reg_def_response(reply: Reply<(String, String)>) -> (result: Result<
    StringString,
    IndyError2,
>)
    ensures
        match reply {
            Reply::Value(value) => result matches Ok(got) && got == (StringString {
                i0: value.0,
                i1: value.1,
            }),
            Reply::Failure(_, _) => fails_as(reply, result),
        },
{
    match resolve(reply) {
        Ok(value) => Ok(StringString { i0: value.0, i1: value.1 }),
        Err(error) => Err(indy_error_to_indy_error2(error)),
    }
}

/// Building a request that publishes a revocation registry entry. Success
/// brings the request.
pub fn build_revoc_reg_entry_request(reply: Reply<String>) -> (result: Result<String, IndyError2>)
    ensures
        relays_to(reply, result),
{
    answer(reply)
}

/// Building a request for a revocation registry. Success brings the request.
pub fn build_get_revoc_reg_request(reply: Reply<String>) -> (result: Result<String, IndyError2>)
    ensures
        relays_to(reply, result),
{
    answer(reply)
}

/// Parsing the response to a request for a revocation registry. Success brings
/// the id of the registry definition, the registry as json and its timestamp.
pub fn parse_get_revoc_reg_response(reply: Reply<(String, String, u64)>) -> (result: Result<
    StringStringU64,
    IndyError2,
>)
    ensures
        match reply {
            Reply::Value(value) => result matches Ok(got) && got == (StringStringU64 {
                i0: value.0,
                i1: value.1,
                i2: value.2,
            }),
            Reply::Failure(_, _) => fails_as(reply, result),
        },
{
    match resolve(reply) {
        Ok(value) => Ok(StringStringU64 { i0: value.0, i1: value.1, i2: value.2 }),
        Err(error) => Err(indy_error_to_indy_error2(error)),
    }
}

/// Building a request for the delta of a revocation registry. Success brings
/// the request.
pub fn build_get_revoc_reg_delta_request(reply: Reply<String>) -> (result: Result<
    String,
    IndyError2,
>)
    ensures
        relays_to(reply, result),
{
    answer(reply)
}

/// Parsing the response to a request for the delta of a revocation registry.
/// Success brings the id of the registry definition, the delta as json and its
/// timestamp.
pub fn parse_get_revoc_reg_delta_response(reply: Reply<(String, String, u64)>) -> (result: Result<
    StringStringU64,
    IndyError2,
>)
    ensures
        match reply {
            Reply::Value(value) => result matches Ok(got) && got == (StringStringU64 {
                i0: value.0,
                i1: value.1,
                i2: value.2,
            }),
            Reply::Failure(_, _) => fails_as(reply, result),
        },
{
    match resolve(reply) {
        Ok(value) => Ok(StringStringU64 { i0: value.0, i1: value.1, i2: value.2 }),
        Err(error) => Err(indy_error_to_indy_error2(error)),
    }
}

/// Reading the metadata of a ledger response. Success brings the metadata as
/// json.
pub fn get_response_metadata(reply: Reply<String>) -> (result: Result<String, IndyError2>)
    ensures
        relays_to(reply, result),
{
    answer(reply)
}

/// Building a request that changes an authorization rule. Success brings the
/// request.
pub fn build_auth_rule_request(reply: Reply<String>) -> (result: Result<String, IndyError2>)
    ensures
        relays_to(reply, result),
{
    answer(reply)
}

/// Building a request that changes several authorization rules. Success brings
/// the request.
pub fn build_auth_rules_request(reply: Reply<String>) -> (result: Result<String, IndyError2>)
    ensures
        relays_to(reply, result),
{
    answer(reply)
}

/// Building a request for authorization rules. Success brings the request.
pub fn build_get_auth_rule_request(reply: Reply<String>) -> (result: Result<String, IndyError2>)
    ensures
        relays_to(reply, result),
{
    answer(reply)
}

/// Building a request that sets the transaction author agreement. Success
/// brings the request.
pub fn build_txn_author_agreement_request(reply: Reply<String>) -> (result: Result<
    String,
    IndyError2,
>)
    ensures
        relays_to(reply, result),
{
    answer(reply)
}

/// Building a request that disables every transaction author agreement. Success
/// brings the request.
pub fn build_disable_all_txn_author_agreements_request(reply: Reply<String>) -> (result: Result<
    String,
    IndyError2,
>)
    ensures
        relays_to(reply, result),
{
    answer(reply)
}

/// Building a request for the transaction author agreement. Success brings the
/// request.
pub fn build_get_txn_author_agreement_request(reply: Reply<String>) -> (result: Result<
    String,
    IndyError2,
>)
    ensures
        relays_to(reply, result),
{
    answer(reply)
}

/// Building a request that sets the acceptance mechanisms. Success brings the
/// request.
pub fn build_acceptance_mechanisms_request(reply: Reply<String>) -> (result: Result<
    String,
    IndyError2,
>)
    ensures
        relays_to(reply, result),
{
    answer(reply)
}

/// Building a request for the acceptance mechanisms. Success brings the
/// request.
pub fn build_get_acceptance_mechanisms_request(reply: Reply<String>) -> (result: Result<
    String,
    IndyError2,
>)
    ensures
        relays_to(reply, result),
{
    answer(reply)
}

/// Appending the acceptance of the transaction author agreement to a request.
/// Success brings the request with the acceptance.
pub fn append_txn_author_agreement_acceptance_to_request(reply: Reply<String>) -> (result: Result<
    String,
    IndyError2,
>)
    ensures
        relays_to(reply, result),
{
    answer(reply)
}

/// Appending an endorser to a request. Success brings the request with the
/// endorser.
pub fn append_request_endorser(reply: Reply<String>) -> (result: Result<String, IndyError2>)
    ensures
        relays_to(reply, result),
{
    answer(reply)
}

/// Building a request that freezes ledgers. Success brings the request.
pub fn build_ledgers_freeze_request(reply: Reply<String>) -> (result: Result<String, IndyError2>)
    ensures
        relays_to(reply, result),
{
    answer(reply)
}

/// Building a request for the frozen ledgers. Success brings the request.
pub fn build_get_frozen_ledgers_request(reply: Reply<String>) -> (result: Result<
    String,
    IndyError2,
>)
    ensures
        relays_to(reply, result),
{
    answer(reply)
}

} // verus!
