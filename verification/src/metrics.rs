//! The call that collects metrics.

use vstd::prelude::*;
use crate::error::IndyError2;
use crate::reply::{answer, relays_to, Reply};

verus! {

/// Collecting the metrics of the native layer. Success brings the metrics as
/// json.
pub fn collect_metrics(reply: Reply<String>) -> (result: Result<String, IndyError2>)
    ensures
        relays_to(reply, result),
{
    answer(reply)
}

} // verus!
