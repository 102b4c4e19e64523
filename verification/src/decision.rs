//! From a request to the admission decision.

use crate::pod::lemma_one_line_per_lacking_container;
use crate::pod::pod_lacking;
use crate::pod::pod_outcome;
use crate::pod::pod_violations;
use crate::pod::validate_pod;
use crate::pod::PodSpecView;
use crate::request::extract_pod_spec;
use crate::request::extraction_view;
use crate::request::request_pod_spec;
use crate::request::Extraction;
use crate::request::RequestError;
use crate::text::lemma_laid_out_empty;
use vstd::prelude::*;

verus! {

/// The admission decision for a request.
#[derive(Clone, Debug, PartialEq, Eq)]
pub enum Decision {
    Accept,
    /// Rejected, with the reason to show to the user.
    Reject(String),
}

/// A decision with its message as a sequence of characters.
pub enum DecisionView {
    Accept,
    Reject(Seq<char>),
}

impl View for Decision {
    type V = DecisionView;

    open spec fn view(&self) -> DecisionView {
        match self {
            Decision::Accept => DecisionView::Accept,
            Decision::Reject(message) => DecisionView::Reject(message@),
        }
    }
}

/// The message of the rejection of a request that cannot be read.
pub open spec fn unparsable_message() -> Seq<char> {
    "Cannot parse validation request"@
}

/// The decision that follows from what was read out of a request.
///
/// A request that cannot be read is rejected. One whose object is of a kind
/// that bears no pods, or has no pod specification, is outside the rule and
/// accepted. A pod specification is accepted when it is valid, and else
/// rejected with its violations as the message.
pub open spec fn decision_for(extraction: Result<Option<PodSpecView>, RequestError>) -> DecisionView {
    match extraction {
        Err(RequestError::Unparsable) => DecisionView::Reject(unparsable_message()),
        Err(RequestError::UnsupportedKind) => DecisionView::Accept,
        Ok(None) => DecisionView::Accept,
        Ok(Some(pod)) => match pod_outcome(pod) {
            Ok(()) => DecisionView::Accept,
            Err(message) => DecisionView::Reject(message),
        },
    }
}

/// Decides on what was read out of a request.
pub fn decide(extraction: Extraction) -> (decision: Decision)
    ensures
        decision@ == decision_for(extraction_view(extraction)),
{
    match extraction {
        Err(RequestError::Unparsable) => Decision::Reject(
            String::from_str("Cannot parse validation request"),
        ),
        Err(RequestError::UnsupportedKind) => Decision::Accept,
        Ok(None) => Decision::Accept,
        Ok(Some(pod)) => match validate_pod(&pod) {
            Ok(()) => Decision::Accept,
            Err(message) => Decision::Reject(message),
        },
    }
}

/// Evaluates the raw bytes of an admission request: reads the pod
/// specification out of them and decides on it.
pub fn validate(payload: &[u8]) -> (decision: Decision)
    ensures
        decision@ == decision_for(request_pod_spec(payload@)),
{
    decide(extract_pod_spec(payload))
}

/// A request is rejected in two cases only: it cannot be read, or a
/// container of its pod lacks a probe. No request without a pod
/// specification is rejected, and every rejection carries a message.
pub proof fn lemma_rejections(extraction: Result<Option<PodSpecView>, RequestError>)
    ensures
        decision_for(extraction) is Reject <==> extraction == Err::<
            Option<PodSpecView>,
            RequestError,
        >(RequestError::Unparsable) || (extraction matches Ok(Some(pod)) && pod_lacking(pod) > 0),
        decision_for(extraction) matches DecisionView::Reject(message) ==> message.len() > 0,
{
    reveal_strlit("Cannot parse validation request");
    if let Ok(Some(pod)) = extraction {
        lemma_one_line_per_lacking_container(pod);
        lemma_laid_out_empty(pod_violations(pod));
    }
}

/// Evaluating the same request twice gives the same decision, with the same
/// message: whatever two calls of [`validate`] on one payload return, the
/// two results are equal.
pub proof fn lemma_validate_is_repeatable(payload: &[u8], first: Decision, second: Decision)
    requires
        call_ensures(validate, (payload,), first),
        call_ensures(validate, (payload,), second),
    ensures
        first@ == second@,
{
}

} // verus!
