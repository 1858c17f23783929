//! From what the native layer answered to what the caller gets: the outputs
//! of the call, or the structured error.

use vstd::prelude::*;
use crate::error::{flattened, indy_error_to_indy_error2, translated, ErrorReport, IndyError, IndyError2};
use crate::error_code::ErrorCode;

verus! {

/// What came back for one call.
#[derive(Debug)]
pub enum Reply<T> {
    /// The callback reported success and brought these outputs.
    Value(T),
    /// The native layer reported a failure of this kind, at once or through
    /// the callback; with it, what the query for its last error brought back.
    Failure(ErrorCode, ErrorReport),
}

/// Whether `result` is what `reply` resolves to: the outputs untouched, or the
/// failure folded into a structured error.
pub open spec fn resolves_to<T>(reply: Reply<T>, result: Result<T, IndyError>) -> bool {
    match reply {
        Reply::Value(value) => result matches Ok(got) && got == value,
        Reply::Failure(kind, report) => result matches Err(error) && error@ == translated(
            kind,
            report@,
        ),
    }
}

/// Whether `result` is the failure that `reply` reports, in the form with
/// every field present.
pub open spec fn fails_as<T, U>(reply: Reply<T>, result: Result<U, IndyError2>) -> bool {
    reply matches Reply::Failure(kind, report) && result matches Err(error) && error@
        == flattened(translated(kind, report@))
}

/// Whether `result` is what `reply` is relayed as: the outputs untouched, or
/// the failure in the form with every field present.
pub open spec fn relays_to<T>(reply: Reply<T>, result: Result<T, IndyError2>) -> bool {
    match reply {
        Reply::Value(value) => result matches Ok(got) && got == value,
        Reply::Failure(_, _) => fails_as(reply, result),
    }
}

/// Resolves a call: success gives the outputs as they came, a failure gives
/// the structured error made of its kind and the native layer's report.
pub fn resolve<T>(reply: Reply<T>) -> (result: Result<T, IndyError>)
    ensures
        resolves_to(reply, result),
{
    match reply {
        Reply::Value(value) => Ok(value),
        Reply::Failure(kind, report) => Err(IndyError::new(kind, report)),
    }
}

/// Hands a result on with its error in the form with every field present.
pub fn relay<T>(result: Result<T, IndyError>) -> (relayed: Result<T, IndyError2>)
    ensures
        match result {
            Ok(value) => relayed matches Ok(got) && got == value,
            Err(error) => relayed matches Err(flat) && flat@ == flattened(error@),
        },
{
    match result {
        Ok(value) => Ok(value),
        Err(error) => Err(indy_error_to_indy_error2(error)),
    }
}

/// Resolves a call and hands the result on: `relay` after `resolve`.
pub fn answer<T>(reply: Reply<T>) -> (result: Result<T, IndyError2>)
    ensures
        relays_to(reply, result),
{
    relay(resolve(reply))
}

/// A call gives outputs exactly when the native layer reported success, and
/// then no error; any failure gives the error of its kind and no outputs.
pub proof fn lemma_outputs_or_error<T>(reply: Reply<T>, result: Result<T, IndyError2>)
    requires
        relays_to(reply, result),
    ensures
        result is Ok <==> reply is Value,
        result is Err <==> reply is Failure,
        reply matches Reply::Failure(kind, report) ==> (report is Parsed ==> result->Err_0@.a
            == kind),
{
}

} // verus!
