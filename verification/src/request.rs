//! Reading the pod specification out of an admission request.

use crate::container::Container;
use crate::container::EphemeralContainer;
use crate::pod::PodSpec;
use crate::pod::PodSpecView;
use kubewarden_policy_sdk::request::ValidationRequest;
use kubewarden_policy_sdk::Error;
use vstd::prelude::*;

verus! {

/// Why no pod specification could be looked for in a request.
#[derive(Clone, Copy, Debug, PartialEq, Eq)]
pub enum RequestError {
    /// The payload is no admission request, or its object is not what its
    /// kind announces.
    Unparsable,
    /// The object is of a kind that bears no pods.
    UnsupportedKind,
}

/// What reading a request gives: the pod specification of its object, if the
/// object has one.
pub type Extraction = Result<Option<PodSpec>, RequestError>;

/// The settings of a request. The rule has none, so the settings object
/// that a request carries is read and left aside.
type Settings = serde_json::Map<String, serde_json::Value>;

/// What `kubewarden_policy_sdk` reads out of the bytes of a request: the pod
/// specification of its object, nothing where the object has none, or why
/// it could not be looked for. It says nothing of what this is on any given
/// bytes.
pub uninterp spec fn request_pod_spec(payload: Seq<u8>) -> Result<Option<PodSpecView>, RequestError>;

/// The extraction with the pod specification taken by its view.
pub open spec fn extraction_view(extraction: Extraction) -> Result<
    Option<PodSpecView>,
    RequestError,
> {
    match extraction {
        Ok(Some(pod)) => Ok(Some(pod@)),
        Ok(None) => Ok(None),
        Err(error) => Err(error),
    }
}

/// Reads an admission request with `ValidationRequest::new` and takes the
/// pod specification of its object with `extract_pod_spec_from_object`, both
/// of `kubewarden_policy_sdk`. Of each container the name and the two probes
/// are moved over, and nothing else is kept.
///
/// Trusted, not proved: the result depends on the payload alone, so that it
/// can be named [`request_pod_spec`]. Both calls parse JSON and read no
/// state.
///
/// `extract_pod_spec_from_object` reports an object of a kind other than
/// Deployment, ReplicaSet, StatefulSet, DaemonSet, ReplicationController,
/// Job, CronJob and Pod with the error `Error::Validation`, and uses that
/// error for nothing else: it becomes [`RequestError::UnsupportedKind`],
/// every other error of the two calls [`RequestError::Unparsable`].
#[verifier::external_body]
pub(crate) fn extract_pod_spec(payload: &[u8]) -> (extraction: Extraction)
    ensures
        extraction_view(extraction) == request_pod_spec(payload@),
{
    let request = ValidationRequest::<Settings>::new(payload)
        .map_err(|_| RequestError::Unparsable)?;
    let spec = request.extract_pod_spec_from_object().map_err(|error| match error {
        Error::Validation(_) => RequestError::UnsupportedKind,
        _ => RequestError::Unparsable,
    })?;
    Ok(spec.map(|s| PodSpec::new(
        s.containers.into_iter()
            .map(|c| Container::new(c.name, c.liveness_probe, c.readiness_probe)).collect(),
        s.init_containers.map(|v| v.into_iter()
            .map(|c| Container::new(c.name, c.liveness_probe, c.readiness_probe)).collect()),
        s.ephemeral_containers.map(|v| v.into_iter()
            .map(|c| EphemeralContainer::new(c.name, c.liveness_probe, c.readiness_probe)).collect()),
    )))
}

} // verus!
