//! The verified core of a binding layer over a native identity and ledger
//! library.
//!
//! Every call into the native layer runs in two halves. First the text
//! arguments are put into their foreign form and the call gets a command
//! handle ([`call`], [`marshal`], [`bridge`]). Then the native layer answers,
//! at once or through its callback, and the answer becomes the outputs of the
//! call or a structured error ([`reply`], [`error`], [`error_code`]). The
//! functions named after the calls take the answer and give the result that
//! the caller of that call sees.

use vstd::prelude::*;

pub mod anoncreds;
pub mod blob_storage;
pub mod bridge;
pub mod cache;
pub mod call;
pub mod crypto;
pub mod did;
pub mod error;
pub mod error_code;
pub mod ledger;
pub mod marshal;
pub mod metrics;
pub mod pairwise;
pub mod pool;
pub mod reply;
pub mod results;
pub mod wallet;

pub use crate::bridge::{Bridge, CommandHandle, INVALID_COMMAND_HANDLE};
pub use crate::error::{indy_error_to_indy_error2, ErrorDetails, ErrorReport, IndyError, IndyError2};
pub use crate::error_code::ErrorCode;
pub use crate::reply::Reply;
pub use crate::results::{
    SearchHandleAndLength, StringOptString, StringString, StringStringString,
    StringStringString122, StringStringU64, StringVecU8,
};
pub use crate::wallet::{
    add_wallet_record, add_wallet_record_tags, close_wallet, close_wallet_search, create_wallet,
    delete_wallet, delete_wallet_record, delete_wallet_record_tags, export_wallet,
    fetch_wallet_search_next_records, generate_wallet_key, get_wallet_record, import_wallet,
    open_wallet, open_wallet_search, register_wallet_storage, update_wallet_record_tags,
    update_wallet_record_value,
};
pub use crate::pool::{
    close_pool_ledger, create_pool_ledger_config, delete_pool_ledger, list_pools, open_pool_ledger,
    refresh_pool_ledger, set_protocol_version,
};
pub use crate::did::{
    abbreviate_verkey, create_and_store_my_did, get_did_metadata, get_endpoint_for_did,
    get_my_did_with_metadata, key_for_did, key_for_local_did, list_my_dids_with_metadata,
    qualify_did, replace_keys_apply, replace_keys_start, set_did_metadata, set_endpoint_for_did,
    store_their_did,
};
pub use crate::cache::{get_cred_def, get_schema, purge_cred_def_cache, purge_schema_cache};
pub use crate::crypto::{
    anon_crypt, anon_decrypt, auth_crypt, auth_decrypt, create_key, get_key_metadata, pack_message,
    set_key_metadata, sign, unpack_message, verify,
};
pub use crate::metrics::collect_metrics;
pub use crate::pairwise::{
    create_pairwise, get_pairwise, is_pairwise_exists, list_pairwise, set_pairwise_metadata,
};
pub use crate::ledger::{
    append_request_endorser, append_txn_author_agreement_acceptance_to_request,
    build_acceptance_mechanisms_request, build_attrib_request, build_auth_rule_request,
    build_auth_rules_request, build_cred_def_request,
    build_disable_all_txn_author_agreements_request, build_get_acceptance_mechanisms_request,
    build_get_attrib_request, build_get_auth_rule_request, build_get_cred_def_request,
    build_get_ddo_request, build_get_frozen_ledgers_request, build_get_nym_request,
    build_get_revoc_reg_def_request, build_get_revoc_reg_delta_request,
    build_get_revoc_reg_request, build_get_schema_request, build_get_txn_author_agreement_request,
    build_get_txn_request, build_get_validator_info_request, build_ledgers_freeze_request,
    build_node_request, build_nym_request, build_pool_config_request, build_pool_restart_request,
    build_pool_upgrade_request, build_revoc_reg_def_request, build_revoc_reg_entry_request,
    build_schema_request, build_txn_author_agreement_request, get_response_metadata,
    multi_sign_request, parse_get_cred_def_response, parse_get_nym_response,
    parse_get_revoc_reg_def_response, parse_get_revoc_reg_delta_response,
    parse_get_revoc_reg_response, parse_get_schema_response, sign_and_submit_request, sign_request,
    submit_action, submit_request,
};
pub use crate::anoncreds::{
    create_revocation_state, generate_nonce, issuer_create_and_store_credential_def,
    issuer_create_and_store_revoc_reg, issuer_create_credential, issuer_create_credential_offer,
    issuer_create_schema, issuer_merge_revocation_registry_deltas, issuer_revoke_credential,
    issuer_rotate_credential_def_apply, issuer_rotate_credential_def_start,
    prover_close_credentials_search, prover_close_credentials_search_for_proof_req,
    prover_create_credential_req, prover_create_master_secret, prover_create_proof,
    prover_delete_credential, prover_fetch_credentials, prover_fetch_credentials_for_proof_req,
    prover_get_credential, prover_get_credential_attr_tag_policy, prover_get_credentials,
    prover_get_credentials_for_proof_req, prover_search_credentials,
    prover_search_credentials_for_proof_req, prover_set_credential_attr_tag_policy,
    prover_store_credential, to_unqualified, update_revocation_state, verifier_verify_proof,
};

use crate::marshal::{c_str, first_nul_at, has_nul, has_nul_char, terminated, NulError};
use crate::reply::relays_to;
use vstd::string::StringSliceAdditionalSpecFns;

verus! {

/// The runtime configuration in the form the native layer takes it: the json
/// as it was given, byte for byte, closed by the terminator. The recognized
/// option is `crypto_thread_pool_size`, the number of threads for the most
/// expensive crypto operations.
pub fn set_runtime_config(config: &str) -> (foreign: Result<Vec<u8>, NulError>)
    ensures
        foreign is Err <==> has_nul_char(config@),
        match foreign {
            Ok(bytes) => !has_nul(config.spec_bytes()) && bytes@ == terminated(config.spec_bytes()),
            Err(e) => first_nul_at(config.spec_bytes(), e.position as int),
        },
{
    c_str(config)
}

/// Opening a reader of blob storage. Success brings the handle of the reader.
pub fn open_reader(reply: Reply<i32>) -> (result: Result<i32, IndyError2>)
    ensures
        relays_to(reply, result),
{
    let r = blob_storage::u_open_reader(reply);
    match r {
        Ok(value) => Ok(value),
        Err(error) => Err(indy_error_to_indy_error2(error)),
    }
}

/// Opening a writer of blob storage. Success brings the handle of the writer.
pub fn open_writer(reply: Reply<i32>) -> (result: Result<i32, IndyError2>)
    ensures
        relays_to(reply, result),
{
    let r = blob_storage::u_open_writer(reply);
    match r {
        Ok(value) => Ok(value),
        Err(error) => Err(indy_error_to_indy_error2(error)),
    }
}

} // verus!
