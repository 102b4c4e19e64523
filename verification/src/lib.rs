//! Admission rule for Kubernetes workloads: every container of a pod, whether
//! primary, init or ephemeral, declares a liveness probe and a readiness probe.
//!
//! The rule for one container is in [`container`], the traversal of a pod
//! specification and the wording of the violations in [`pod`]. [`request`]
//! reads the pod specification out of an admission request, and [`decision`]
//! turns what was read into the decision to accept or to reject.

pub mod container;
pub mod decision;
pub mod pod;
pub mod request;
pub mod text;

pub use container::validate_container;
pub use container::validate_ephemeral_container;
pub use container::Container;
pub use container::EphemeralContainer;
pub use decision::decide;
pub use decision::validate;
pub use decision::Decision;
pub use pod::validate_pod;
pub use pod::PodSpec;
pub use request::RequestError;
