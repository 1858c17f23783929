//! The first half of every call: the text arguments are put into their
//! foreign form, and only if all of them pass does the call get a command
//! handle and a slot in the registry. A call that is turned away here never
//! reaches the native layer.

use vstd::prelude::*;
use vstd::string::StringSliceAdditionalSpecFns;
use crate::bridge::{Bridge, BridgeState, CommandHandle};
use crate::marshal::{
    first_bad_argument, first_nul_at, has_nul, has_nul_char, lemma_nul_byte_iff_nul_char, marshal,
    terminated_all, MarshalError,
};

verus! {

/// A call that is ready to be made.
#[derive(Debug)]
pub struct Submission {
    /// The handle to make the call with; the callback will bring it back.
    pub command_handle: CommandHandle,
    /// The text arguments in their foreign form, in the order of the call.
    pub arguments: Vec<Vec<u8>>,
}

/// Why a call was not prepared. The slot comes back in either case.
#[derive(Debug)]
pub enum Rejection<S> {
    /// A text argument holds a zero byte.
    EmbeddedNul { error: MarshalError, slot: S },
    /// The bridge has no handle left to give.
    HandlesExhausted { slot: S },
}

/// Whether none of `texts` holds a terminator.
pub open spec fn all_clean(texts: Seq<&str>) -> bool {
    forall|k: int| 0 <= k < texts.len() ==> !has_nul(#[trigger] texts[k].spec_bytes())
}

/// The texts are clean exactly when none of them holds the terminator
/// character.
pub proof fn lemma_clean_texts_hold_no_nul_char(texts: Seq<&str>)
    ensures
        all_clean(texts) <==> forall|k: int|
            0 <= k < texts.len() ==> !has_nul_char(#[trigger] texts[k]@),
{
    assert forall|k: int| 0 <= k < texts.len() implies (has_nul(#[trigger] texts[k].spec_bytes())
        <==> has_nul_char(texts[k]@)) by {
        lemma_nul_byte_iff_nul_char(texts[k]@);
    }
    if all_clean(texts) {
        assert forall|k: int| 0 <= k < texts.len() implies !has_nul_char(#[trigger] texts[k]@) by {
            assert(!has_nul(texts[k].spec_bytes()));
        }
    }
    if forall|k: int| 0 <= k < texts.len() ==> !has_nul_char(#[trigger] texts[k]@) {
        assert forall|k: int| 0 <= k < texts.len() implies !has_nul(
            #[trigger] texts[k].spec_bytes(),
        ) by {
            assert(!has_nul_char(texts[k]@));
        }
    }
}

/// Whether `outcome` and the bridge `after` are what preparing a call with
/// the text arguments `texts` and the slot `slot` gives on the bridge
/// `before`.
///
/// With clean texts and a handle left: the next handle, the slot registered
/// under it, and the foreign forms of the texts. Otherwise the bridge is as
/// it was and the slot comes back, with the first text at fault where there
/// is one.
pub open spec fn submits<S>(
    before: BridgeState<S>,
    slot: S,
    texts: Seq<&str>,
    after: BridgeState<S>,
    outcome: Result<Submission, Rejection<S>>,
) -> bool {
    match outcome {
        Ok(submission) => {
            &&& all_clean(texts)
            &&& before.can_issue()
            &&& submission.command_handle == before.next_handle()
            &&& terminated_all(texts, texts.len() as int, submission.arguments@)
            &&& after == before.issue(slot)
        },
        Err(Rejection::EmbeddedNul { error, slot: back }) => {
            &&& first_bad_argument(texts, error.argument as int)
            &&& first_nul_at(texts[error.argument as int].spec_bytes(), error.position as int)
            &&& back == slot
            &&& after == before
        },
        Err(Rejection::HandlesExhausted { slot: back }) => {
            &&& all_clean(texts)
            &&& !before.can_issue()
            &&& back == slot
            &&& after == before
        },
    }
}

/// Prepares a call with the text arguments `texts`: checks and converts the
/// texts first, then registers `slot` under a fresh handle.
pub fn submit<S>(bridge: &mut Bridge<S>, slot: S, texts: &Vec<&str>) -> (outcome: Result<
    Submission,
    Rejection<S>,
>)
    ensures
        final(bridge)@.inv(),
        submits(old(bridge)@, slot, texts@, final(bridge)@, outcome),
{
    proof {
        use_type_invariant(&*bridge);
    }
    let arguments = match marshal(texts) {
        Ok(arguments) => arguments,
        Err(error) => {
            return Err(Rejection::EmbeddedNul { error, slot });
        },
    };
    match bridge.issue(slot) {
        Ok(command_handle) => Ok(Submission { command_handle, arguments }),
        Err(slot) => Err(Rejection::HandlesExhausted { slot }),
    }
}

/// A text argument with a terminator inside stops the call before anything
/// else happens: no handle is issued, nothing is registered, the bridge is
/// as it was.
pub proof fn lemma_embedded_nul_stops_the_call<S>(
    before: BridgeState<S>,
    slot: S,
    texts: Seq<&str>,
    after: BridgeState<S>,
    outcome: Result<Submission, Rejection<S>>,
)
    requires
        submits(before, slot, texts, after, outcome),
        !all_clean(texts),
    ensures
        outcome matches Err(Rejection::EmbeddedNul { .. }),
        after == before,
        after.issued == before.issued,
        after.pending == before.pending,
{
}

/// A call is prepared exactly when every text is clean and a handle is left;
/// the handle it gets was never issued before.
pub proof fn lemma_submission_is_fresh<S>(
    before: BridgeState<S>,
    slot: S,
    texts: Seq<&str>,
    after: BridgeState<S>,
    outcome: Result<Submission, Rejection<S>>,
)
    requires
        before.inv(),
        submits(before, slot, texts, after, outcome),
    ensures
        outcome is Ok <==> all_clean(texts) && before.can_issue(),
        outcome matches Ok(submission) ==> !before.was_issued(submission.command_handle)
            && after.is_pending(submission.command_handle) && after.pending[submission.command_handle]
            == slot,
{
    if outcome is Ok {
        crate::bridge::lemma_issue(before, slot);
    }
    match outcome {
        Err(Rejection::EmbeddedNul { error, slot: back }) => {
            assert(has_nul(texts[error.argument as int].spec_bytes()));
        },
        _ => {},
    }
}

} // verus!
