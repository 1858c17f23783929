use indy::error::IndyError;
use indy::{indy_error_to_indy_error2, ErrorCode, ErrorDetails, ErrorReport, IndyError2};

fn details(message: &str, backtrace: Option<&str>) -> ErrorDetails {
    ErrorDetails { message: message.to_string(), backtrace: backtrace.map(|b| b.to_string()) }
}

#[test]
fn a_read_record_gives_kind_message_and_backtrace() {
    let error = IndyError::new(
        ErrorCode::WalletItemNotFound,
        ErrorReport::Parsed(details("Wallet item not found", Some("at wallet.rs:12"))),
    );
    assert_eq!(error.error_code, ErrorCode::WalletItemNotFound);
    assert_eq!(error.message, "Wallet item not found");
    assert_eq!(error.indy_backtrace, Some("at wallet.rs:12".to_string()));
}

#[test]
fn a_read_record_without_backtrace_gives_none() {
    let error =
        IndyError::new(ErrorCode::LedgerNotFound, ErrorReport::Parsed(details("not on ledger", None)));
    assert_eq!(error.error_code, ErrorCode::LedgerNotFound);
    assert_eq!(error.message, "not on ledger");
    assert_eq!(error.indy_backtrace, None);
}

#[test]
fn a_missing_record_gives_invalid_state() {
    let error = IndyError::new(ErrorCode::WalletItemNotFound, ErrorReport::Missing);
    assert_eq!(error.error_code, ErrorCode::CommonInvalidState);
    assert_eq!(error.message, "Invalid ErrorMessage pointer");
    assert_eq!(error.indy_backtrace, None);
}

#[test]
fn a_malformed_record_gives_invalid_state_with_the_reason() {
    let why = "missing field `message` at line 1 column 2";
    let error = IndyError::new(ErrorCode::WalletItemNotFound, ErrorReport::Malformed(why.to_string()));
    assert_eq!(error.error_code, ErrorCode::CommonInvalidState);
    assert_eq!(error.message, why);
    assert_eq!(error.indy_backtrace, None);
}

#[test]
fn a_recognized_status_keeps_its_kind() {
    let error = IndyError::from_status(206, ErrorReport::Parsed(details("already open", None)));
    assert_eq!(error.error_code, ErrorCode::WalletAlreadyOpenedError);
    assert_eq!(error.message, "already open");
}

#[test]
fn an_unrecognized_status_degrades_to_invalid_state_and_keeps_the_message() {
    let error = IndyError::from_status(
        9999,
        ErrorReport::Parsed(details("something new went wrong", Some("trace"))),
    );
    assert_eq!(error.error_code, ErrorCode::CommonInvalidState);
    assert_eq!(error.message, "something new went wrong");
    assert_eq!(error.indy_backtrace, Some("trace".to_string()));
}

#[test]
fn an_unrecognized_status_without_record_is_invalid_state() {
    let error = IndyError::from_status(-5, ErrorReport::Missing);
    assert_eq!(error.error_code, ErrorCode::CommonInvalidState);
    assert_eq!(error.message, "Invalid ErrorMessage pointer");
}

#[test]
fn flattening_keeps_kind_message_and_backtrace() {
    let error = IndyError {
        error_code: ErrorCode::AnoncredsProofRejected,
        message: "rejected".to_string(),
        indy_backtrace: Some("frame 0".to_string()),
    };
    let IndyError2::ErrorResult { a, b, c } = indy_error_to_indy_error2(error);
    assert_eq!(a, ErrorCode::AnoncredsProofRejected);
    assert_eq!(b, "rejected");
    assert_eq!(c, "frame 0");
}

#[test]
fn flattening_turns_an_absent_backtrace_into_the_empty_text() {
    let error = IndyError {
        error_code: ErrorCode::CommonIOError,
        message: "disk".to_string(),
        indy_backtrace: None,
    };
    let IndyError2::ErrorResult { a, b, c } = indy_error_to_indy_error2(error);
    assert_eq!(a, ErrorCode::CommonIOError);
    assert_eq!(b, "disk");
    assert_eq!(c, "");
}

#[test]
fn an_error_shows_its_message_on_a_line() {
    let error = IndyError {
        error_code: ErrorCode::CommonIOError,
        message: "disk is full".to_string(),
        indy_backtrace: Some("ignored".to_string()),
    };
    assert_eq!(error.to_string(), "disk is full\n");
}

#[test]
fn an_error_with_an_empty_message_shows_a_bare_line_break() {
    let error = IndyError {
        error_code: ErrorCode::Success,
        message: String::new(),
        indy_backtrace: None,
    };
    assert_eq!(error.to_string(), "\n");
}

#[test]
fn a_flat_error_shows_its_three_fields() {
    let error = IndyError2::ErrorResult {
        a: ErrorCode::WalletItemNotFound,
        b: "Wallet item not found".to_string(),
        c: "trace".to_string(),
    };
    assert_eq!(
        error.to_string(),
        "{\"error_code\" : WalletItemNotFound, \"message\" : Wallet item not found, \"indy_backtrace\" : trace}"
    );
}

#[test]
fn a_flat_error_with_empty_fields_shows_them_empty() {
    let error = IndyError2::ErrorResult {
        a: ErrorCode::TransactionNotAllowed,
        b: String::new(),
        c: String::new(),
    };
    assert_eq!(
        error.to_string(),
        "{\"error_code\" : The transaction is not allowed to a requester, \"message\" : , \"indy_backtrace\" : }"
    );
}
