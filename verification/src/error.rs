//! The structured error that every failure of the native layer is folded
//! into: a kind, a message and, where there is one, a backtrace.

use vstd::prelude::*;
use vstd::string::StringExecFns;
use crate::error_code::ErrorCode;

verus! {

/// The detail record that the native layer keeps of its last error.
#[derive(Debug)]
pub struct ErrorDetails {
    /// What went wrong, for a reader.
    pub message: String,
    /// Where it went wrong, if the native layer recorded that.
    pub backtrace: Option<String>,
}

/// What the query for the native layer's last error brought back.
#[derive(Debug)]
pub enum ErrorReport {
    /// The native layer handed out no record at all.
    Missing,
    /// The record, read in full.
    Parsed(ErrorDetails),
    /// The record could not be read; the text says why.
    Malformed(String),
}

/// The only error that callers see.
#[derive(Debug)]
pub struct IndyError {
    /// The kind of failure.
    pub error_code: ErrorCode,
    /// The native layer's own words, unchanged.
    pub message: String,
    /// The native layer's backtrace, if it gave one.
    pub indy_backtrace: Option<String>,
}

/// The same error with every field present, for callers that cannot take an
/// absent backtrace.
#[derive(Debug)]
pub enum IndyError2 {
    /// Kind `a`, message `b`, backtrace `c` (empty where there was none).
    ErrorResult { a: ErrorCode, b: String, c: String },
}

/// The characters of an optional text.
pub open spec fn opt_text(text: Option<String>) -> Option<Seq<char>> {
    match text {
        Some(t) => Some(t@),
        None => None,
    }
}

/// An `ErrorDetails` as plain values.
pub struct ErrorDetailsView {
    pub message: Seq<char>,
    pub backtrace: Option<Seq<char>>,
}

/// An `ErrorReport` as plain values.
pub enum ErrorReportView {
    Missing,
    Parsed(ErrorDetailsView),
    Malformed(Seq<char>),
}

/// An `IndyError` as plain values.
pub struct IndyErrorView {
    pub error_code: ErrorCode,
    pub message: Seq<char>,
    pub indy_backtrace: Option<Seq<char>>,
}

/// An `IndyError2` as plain values.
pub struct IndyError2View {
    pub a: ErrorCode,
    pub b: Seq<char>,
    pub c: Seq<char>,
}

impl View for ErrorDetails {
    type V = ErrorDetailsView;

    open spec fn view(&self) -> ErrorDetailsView {
        ErrorDetailsView { message: self.message@, backtrace: opt_text(self.backtrace) }
    }
}

impl View for ErrorReport {
    type V = ErrorReportView;

    open spec fn view(&self) -> ErrorReportView {
        match self {
            ErrorReport::Missing => ErrorReportView::Missing,
            ErrorReport::Parsed(details) => ErrorReportView::Parsed(details@),
            ErrorReport::Malformed(why) => ErrorReportView::Malformed(why@),
        }
    }
}

impl View for IndyError {
    type V = IndyErrorView;

    open spec fn view(&self) -> IndyErrorView {
        IndyErrorView {
            error_code: self.error_code,
            message: self.message@,
            indy_backtrace: opt_text(self.indy_backtrace),
        }
    }
}

impl View for IndyError2 {
    type V = IndyError2View;

    open spec fn view(&self) -> IndyError2View {
        match self {
            IndyError2::ErrorResult { a, b, c } => IndyError2View { a: *a, b: b@, c: c@ },
        }
    }
}

/// The message of an error made without a detail record.
pub open spec fn missing_record_message() -> Seq<char> {
    "Invalid ErrorMessage pointer"@
}

/// The error that a failure of kind `error_code` becomes, given what the
/// native layer reported of it. With the record read, the error has the kind
/// and the record's message and backtrace as they came. Without a readable
/// record the error is an invalid state, and its message says what was wrong
/// with the record.
pub open spec fn translated(error_code: ErrorCode, report: ErrorReportView) -> IndyErrorView {
    match report {
        ErrorReportView::Parsed(details) => IndyErrorView {
            error_code,
            message: details.message,
            indy_backtrace: details.backtrace,
        },
        ErrorReportView::Missing => IndyErrorView {
            error_code: ErrorCode::CommonInvalidState,
            message: missing_record_message(),
            indy_backtrace: None,
        },
        ErrorReportView::Malformed(why) => IndyErrorView {
            error_code: ErrorCode::CommonInvalidState,
            message: why,
            indy_backtrace: None,
        },
    }
}

/// The kind that the raw `status` is reported under: its own where the
/// native layer has one, an invalid state where it has none.
pub open spec fn kind_or_invalid_state(status: int) -> ErrorCode {
    match ErrorCode::kind_of(status) {
        Some(kind) => kind,
        None => ErrorCode::CommonInvalidState,
    }
}

/// An error with every field present: the backtrace is empty where there was
/// none.
pub open spec fn flattened(error: IndyErrorView) -> IndyError2View {
    IndyError2View {
        a: error.error_code,
        b: error.message,
        c: match error.indy_backtrace {
            Some(trace) => trace,
            None => Seq::<char>::empty(),
        },
    }
}

/// What an `IndyError` shows to a reader: its message on a line of its own.
pub open spec fn error_text(error: IndyErrorView) -> Seq<char> {
    error.message.push('\n')
}

/// What an `IndyError2` shows to a reader: the three fields between braces,
/// each behind its name.
pub open spec fn error2_text(error: IndyError2View) -> Seq<char> {
    "{\"error_code\" : "@ + error.a.text() + ", \"message\" : "@ + error.b
        + ", \"indy_backtrace\" : "@ + error.c + "}"@
}

impl IndyError {
    /// Folds a failure of kind `error_code` and the report of the native
    /// layer's last error into one structured error.
    pub fn new(error_code: ErrorCode, report: ErrorReport) -> (error: IndyError)
        ensures
            error@ == translated(error_code, report@),
    {
        match report {
            ErrorReport::Missing => IndyError {
                error_code: ErrorCode::CommonInvalidState,
                message: String::from_str("Invalid ErrorMessage pointer"),
                indy_backtrace: None,
            },
            ErrorReport::Parsed(details) => IndyError {
                error_code,
                message: details.message,
                indy_backtrace: details.backtrace,
            },
            ErrorReport::Malformed(why) => IndyError {
                error_code: ErrorCode::CommonInvalidState,
                message: why,
                indy_backtrace: None,
            },
        }
    }

    /// The same for a raw status. A status that the native layer has no kind
    /// for is reported as an invalid state; the message is kept as it came.
    pub fn from_status(status: i32, report: ErrorReport) -> (error: IndyError)
        ensures
            error@ == translated(kind_or_invalid_state(status as int), report@),
    {
        let kind = match ErrorCode::from_i32(status) {
            Some(kind) => kind,
            None => ErrorCode::CommonInvalidState,
        };
        IndyError::new(kind, report)
    }

    /// The message, closed by a line break.
    pub fn to_string(&self) -> (text: String)
        ensures
            text@ == error_text(self@),
    {
        let mut text = String::from_str(self.message.as_str());
        text.append("\n");
        proof {
            reveal_strlit("\n");
            assert("\n"@ =~= seq!['\n']);
        }
        text
    }
}

impl IndyError2 {
    /// The three fields between braces, each behind its name.
    pub fn to_string(&self) -> (text: String)
        ensures
            text@ == error2_text(self@),
    {
        match self {
            IndyError2::ErrorResult { a, b, c } => {
                let kind = a.to_string();
                let mut text = String::from_str("{\"error_code\" : ");
                text.append(kind.as_str());
                text.append(", \"message\" : ");
                text.append(b.as_str());
                text.append(", \"indy_backtrace\" : ");
                text.append(c.as_str());
                text.append("}");
                text
            },
        }
    }
}

/// Gives an error the form in which every field is present: the kind and the
/// message stay, an absent backtrace becomes the empty text.
pub fn indy_error_to_indy_error2(error: IndyError) -> (flat: IndyError2)
    ensures
        flat@ == flattened(error@),
{
    let c1: String = match error.indy_backtrace {
        Some(x) => x,
        None => String::new(),
    };
    IndyError2::ErrorResult { a: error.error_code, b: error.message, c: c1 }
}

/// The message of the native layer reaches the caller unchanged, whatever
/// the kind: through the structured error and through its flat form.
pub proof fn lemma_message_preserved(error_code: ErrorCode, details: ErrorDetailsView)
    ensures
        translated(error_code, ErrorReportView::Parsed(details)).error_code == error_code,
        translated(error_code, ErrorReportView::Parsed(details)).message == details.message,
        flattened(translated(error_code, ErrorReportView::Parsed(details))).a == error_code,
        flattened(translated(error_code, ErrorReportView::Parsed(details))).b == details.message,
{
}

/// Without a readable record the error is an invalid state and has no
/// backtrace, whatever the kind of the failure was.
pub proof fn lemma_unreadable_record_is_invalid_state(
    error_code: ErrorCode,
    report: ErrorReportView,
)
    requires
        !(report is Parsed),
    ensures
        translated(error_code, report).error_code == ErrorCode::CommonInvalidState,
        translated(error_code, report).indy_backtrace is None,
{
}

} // verus!
