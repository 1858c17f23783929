use indy::blob_storage;
use indy::bridge::{Completion, Settlement};
use indy::call::{submit, Rejection};
use indy::marshal::MarshalError;
use indy::reply::{answer, relay, resolve};
use indy::{
    create_and_store_my_did, auth_decrypt, create_wallet, get_endpoint_for_did, get_wallet_record,
    issuer_create_and_store_revoc_reg, issuer_create_credential, open_reader, open_wallet,
    open_writer, parse_get_revoc_reg_response, prover_search_credentials, sign,
    verifier_verify_proof, Bridge, ErrorCode, ErrorDetails, ErrorReport, IndyError, IndyError2,
    Reply,
};

fn report(message: &str) -> ErrorReport {
    ErrorReport::Parsed(ErrorDetails { message: message.to_string(), backtrace: None })
}

fn parts(error: IndyError2) -> (ErrorCode, String, String) {
    let IndyError2::ErrorResult { a, b, c } = error;
    (a, b, c)
}

#[test]
fn requesting_a_missing_wallet_record_gives_wallet_item_not_found() {
    let status = ErrorCode::from(212);
    let result = get_wallet_record(Reply::Failure(status, report("Wallet item not found")));
    let (kind, message, _) = parts(result.unwrap_err());
    assert_eq!(kind, ErrorCode::WalletItemNotFound);
    assert_eq!(kind.to_string(), "WalletItemNotFound");
    assert_eq!(message, "Wallet item not found");
}

#[test]
fn opening_an_open_wallet_gives_wallet_already_opened() {
    let status = ErrorCode::from(206);
    let result = open_wallet(Reply::Failure(status, report("Wallet is already opened")));
    let (kind, _, _) = parts(result.unwrap_err());
    assert_eq!(kind, ErrorCode::WalletAlreadyOpenedError);
    assert_eq!(kind.to_string(), "WalletAlreadyOpenedError");
}

#[test]
fn signing_with_a_malformed_key_brings_the_message_unchanged() {
    let words = "Invalid structure: Invalid verkey: \"not a key\" \u{2014} base58 decoding failed\n";
    let result = sign(Reply::Failure(
        ErrorCode::CommonInvalidStructure,
        ErrorReport::Parsed(ErrorDetails {
            message: words.to_string(),
            backtrace: Some("0: crypto::sign".to_string()),
        }),
    ));
    let (kind, message, backtrace) = parts(result.unwrap_err());
    assert_eq!(kind, ErrorCode::CommonInvalidStructure);
    assert_eq!(message, words);
    assert_eq!(backtrace, "0: crypto::sign");
}

#[test]
fn outputs_pass_through_untouched() {
    assert_eq!(open_wallet(Reply::Value(41)).unwrap(), 41);
    assert_eq!(get_wallet_record(Reply::Value("{\"id\":\"1\"}".to_string())).unwrap(), "{\"id\":\"1\"}");
    assert_eq!(sign(Reply::Value(vec![1, 2, 3])).unwrap(), vec![1, 2, 3]);
    assert_eq!(verifier_verify_proof(Reply::Value(false)).unwrap(), false);
    assert_eq!(verifier_verify_proof(Reply::Value(true)).unwrap(), true);
    assert!(create_wallet(Reply::Value(())).is_ok());
}

#[test]
fn two_texts_become_their_record() {
    let pair = create_and_store_my_did(Reply::Value(("did".to_string(), "verkey".to_string()))).unwrap();
    assert_eq!(pair.i0, "did");
    assert_eq!(pair.i1, "verkey");
}

#[test]
fn an_absent_second_text_stays_absent() {
    let with = get_endpoint_for_did(Reply::Value(("1.2.3.4:80".to_string(), Some("key".to_string())))).unwrap();
    assert_eq!(with.i0, "1.2.3.4:80");
    assert_eq!(with.i1, Some("key".to_string()));
    let without = get_endpoint_for_did(Reply::Value(("1.2.3.4:80".to_string(), None))).unwrap();
    assert_eq!(without.i1, None);
}

#[test]
fn a_text_and_a_buffer_become_their_record() {
    let got = auth_decrypt(Reply::Value(("sender".to_string(), vec![9, 8, 7]))).unwrap();
    assert_eq!(got.i0, "sender");
    assert_eq!(got.i1, vec![9, 8, 7]);
}

#[test]
fn two_texts_and_a_number_become_their_record() {
    let got = parse_get_revoc_reg_response(Reply::Value(("id".to_string(), "{}".to_string(), u64::MAX))).unwrap();
    assert_eq!(got.i0, "id");
    assert_eq!(got.i1, "{}");
    assert_eq!(got.i2, u64::MAX);
}

#[test]
fn three_texts_become_their_record() {
    let got = issuer_create_and_store_revoc_reg(Reply::Value((
        "id".to_string(),
        "def".to_string(),
        "entry".to_string(),
    )))
    .unwrap();
    assert_eq!((got.i0.as_str(), got.i1.as_str(), got.i2.as_str()), ("id", "def", "entry"));
}

#[test]
fn a_credential_that_cannot_be_revoked_has_no_revocation_outputs() {
    let got = issuer_create_credential(Reply::Value(("cred".to_string(), None, None))).unwrap();
    assert_eq!(got.i0, "cred");
    assert_eq!(got.i1, None);
    assert_eq!(got.i2, None);
    let got = issuer_create_credential(Reply::Value((
        "cred".to_string(),
        Some("7".to_string()),
        Some("delta".to_string()),
    )))
    .unwrap();
    assert_eq!(got.i1, Some("7".to_string()));
    assert_eq!(got.i2, Some("delta".to_string()));
}

#[test]
fn a_search_brings_its_handle_and_its_count() {
    let got = prover_search_credentials(Reply::Value((5, 12usize))).unwrap();
    assert_eq!(got.i0, 5);
    assert_eq!(got.i1, 12u64);
    let got = prover_search_credentials(Reply::Value((-1, usize::MAX))).unwrap();
    assert_eq!(got.i0, -1);
    assert_eq!(got.i1, usize::MAX as u64);
}

#[test]
fn a_failure_of_a_call_with_several_outputs_brings_only_the_error() {
    let result = create_and_store_my_did(Reply::Failure(
        ErrorCode::DidAlreadyExistsError,
        report("did exists"),
    ));
    let (kind, message, backtrace) = parts(result.unwrap_err());
    assert_eq!(kind, ErrorCode::DidAlreadyExistsError);
    assert_eq!(message, "did exists");
    assert_eq!(backtrace, "");
    let result = prover_search_credentials(Reply::Failure(ErrorCode::WalletInvalidHandle, ErrorReport::Missing));
    let (kind, message, _) = parts(result.unwrap_err());
    assert_eq!(kind, ErrorCode::CommonInvalidState);
    assert_eq!(message, "Invalid ErrorMessage pointer");
}

#[test]
fn resolve_gives_the_structured_error() {
    let result: Result<i32, IndyError> =
        resolve(Reply::Failure(ErrorCode::PoolLedgerTimeout, report("timeout")));
    let error = result.unwrap_err();
    assert_eq!(error.error_code, ErrorCode::PoolLedgerTimeout);
    assert_eq!(error.message, "timeout");
    assert_eq!(error.indy_backtrace, None);
    assert_eq!(resolve(Reply::Value(3)).unwrap(), 3);
}

#[test]
fn relay_flattens_the_error_and_keeps_the_value() {
    assert_eq!(relay(Ok(7)).unwrap(), 7);
    let error = IndyError {
        error_code: ErrorCode::CommonIOError,
        message: "io".to_string(),
        indy_backtrace: None,
    };
    let relayed: Result<i32, IndyError2> = relay(Err(error));
    assert_eq!(parts(relayed.unwrap_err()), (ErrorCode::CommonIOError, "io".to_string(), String::new()));
    let answered: Result<bool, IndyError2> = answer(Reply::Failure(ErrorCode::CommonIOError, report("io")));
    assert_eq!(parts(answered.unwrap_err()), (ErrorCode::CommonIOError, "io".to_string(), String::new()));
}

#[test]
fn a_prepared_call_gets_a_handle_and_its_foreign_texts() {
    let mut bridge = Bridge::new();
    let submission = submit(&mut bridge, "slot", &vec!["default", "{}"]).unwrap();
    assert_eq!(submission.command_handle, 1);
    assert_eq!(submission.arguments, vec![b"default\0".to_vec(), b"{}\0".to_vec()]);
    assert!(bridge.is_pending(1));
    let submission = submit(&mut bridge, "other", &Vec::new()).unwrap();
    assert_eq!(submission.command_handle, 2);
    assert!(submission.arguments.is_empty());
}

#[test]
fn a_text_with_a_terminator_stops_the_call_before_it_gets_a_handle() {
    let mut bridge = Bridge::new();
    match submit(&mut bridge, "slot", &vec!["fine", "bro\0ken", "\0"]) {
        Err(Rejection::EmbeddedNul { error, slot }) => {
            assert_eq!(error, MarshalError { argument: 1, position: 3 });
            assert_eq!(slot, "slot");
        }
        _ => panic!("the call was not turned away"),
    }
    assert_eq!(bridge.issued(), 0);
    assert_eq!(bridge.pending(), 0);
    assert!(!bridge.is_pending(1));
    assert_eq!(submit(&mut bridge, "slot", &vec!["fine"]).unwrap().command_handle, 1);
}

#[test]
fn opening_a_reader_runs_through_both_halves() {
    let mut bridge = Bridge::new();
    let submission = blob_storage::open_reader(&mut bridge, (), "default", "{\"base_dir\":\"/tmp\"}").unwrap();
    assert_eq!(submission.command_handle, 1);
    assert_eq!(submission.arguments[0], b"default\0".to_vec());
    assert_eq!(submission.arguments[1], b"{\"base_dir\":\"/tmp\"}\0".to_vec());
    assert!(matches!(bridge.settle(1, ErrorCode::Success), Settlement::Awaiting));
    assert!(matches!(bridge.complete(1, ErrorCode::Success), Completion::Succeeded(())));
    assert_eq!(blob_storage::u_open_reader(Reply::Value(77)).unwrap(), 77);
    assert_eq!(open_reader(Reply::Value(77)).unwrap(), 77);
}

#[test]
fn opening_a_writer_that_is_turned_down_resolves_at_once() {
    let mut bridge = Bridge::new();
    let submission = blob_storage::open_writer(&mut bridge, (), "unknown", "{}").unwrap();
    let status = ErrorCode::from(102);
    assert!(matches!(bridge.settle(submission.command_handle, status), Settlement::Refused(())));
    let error = blob_storage::u_open_writer(Reply::Failure(status, report("unknown type"))).unwrap_err();
    assert_eq!(error.error_code, ErrorCode::CommonInvalidParam3);
    assert_eq!(error.message, "unknown type");
    assert!(matches!(bridge.complete(submission.command_handle, ErrorCode::Success), Completion::Rejected));
    let flat = open_writer(Reply::Failure(status, report("unknown type"))).unwrap_err();
    assert_eq!(flat.to_string(), "{\"error_code\" : CommonInvalidParam3, \"message\" : unknown type, \"indy_backtrace\" : }");
}

#[test]
fn opening_a_reader_with_a_broken_text_makes_no_call() {
    let mut bridge = Bridge::new();
    match blob_storage::open_reader(&mut bridge, 5u8, "default", "{\0}") {
        Err(Rejection::EmbeddedNul { error, slot }) => {
            assert_eq!(error, MarshalError { argument: 1, position: 1 });
            assert_eq!(slot, 5);
        }
        _ => panic!("the call was not turned away"),
    }
    match blob_storage::open_writer(&mut bridge, 6u8, "\0", "{}") {
        Err(Rejection::EmbeddedNul { error, slot }) => {
            assert_eq!(error, MarshalError { argument: 0, position: 0 });
            assert_eq!(slot, 6);
        }
        _ => panic!("the call was not turned away"),
    }
    assert_eq!(bridge.issued(), 0);
}

#[test]
fn a_call_without_a_handle_left_is_turned_away_with_its_slot() {
    let mut bridge = Bridge::with_limit(1);
    assert_eq!(submit(&mut bridge, "first", &vec!["a"]).unwrap().command_handle, 1);
    match submit(&mut bridge, "second", &vec!["b"]) {
        Err(Rejection::HandlesExhausted { slot }) => assert_eq!(slot, "second"),
        _ => panic!("a handle was issued beyond the limit"),
    }
    match submit(&mut bridge, "third", &vec!["\0"]) {
        Err(Rejection::EmbeddedNul { error, slot }) => {
            assert_eq!(error, MarshalError { argument: 0, position: 0 });
            assert_eq!(slot, "third");
        }
        _ => panic!("the text was not checked first"),
    }
    assert_eq!(bridge.issued(), 1);
}
