//! The rule for one container: it declares a liveness probe and a readiness
//! probe.
//!
//! Primary and init containers are of type [`Container`], ephemeral ones of
//! type [`EphemeralContainer`]. The rule reads the same three things of both,
//! through [`ProbedContainer`], and [`check_probes`] is the one place where it
//! is evaluated.

use vstd::prelude::*;

verus! {

/// The probe type of the Kubernetes object model, `Probe` of `k8s_openapi`.
/// The rule reads nothing of a probe: it only asks whether a container has
/// one.
#[verifier::external_type_specification]
#[verifier::external_body]
pub struct ExProbe(k8s_openapi::api::core::v1::Probe);

/// The two probes that the rule asks for.
#[derive(Clone, Copy, Debug, PartialEq, Eq)]
pub enum ProbeKind {
    Liveness,
    Readiness,
}

/// What the rule reads of a container.
pub struct ContainerView {
    pub name: Seq<char>,
    pub has_liveness_probe: bool,
    pub has_readiness_probe: bool,
}

/// A primary or init container, reduced to the fields that the rule reads.
#[derive(Clone, Debug)]
pub struct Container {
    pub name: String,
    pub liveness_probe: Option<k8s_openapi::api::core::v1::Probe>,
    pub readiness_probe: Option<k8s_openapi::api::core::v1::Probe>,
}

/// An ephemeral container, reduced to the fields that the rule reads.
#[derive(Clone, Debug)]
pub struct EphemeralContainer {
    pub name: String,
    pub liveness_probe: Option<k8s_openapi::api::core::v1::Probe>,
    pub readiness_probe: Option<k8s_openapi::api::core::v1::Probe>,
}

impl Container {
    /// A container with the given name and probes.
    pub fn new(
        name: String,
        liveness_probe: Option<k8s_openapi::api::core::v1::Probe>,
        readiness_probe: Option<k8s_openapi::api::core::v1::Probe>,
    ) -> (container: Self)
        ensures
            container.name == name,
            container.liveness_probe == liveness_probe,
            container.readiness_probe == readiness_probe,
    {
        Container { name, liveness_probe, readiness_probe }
    }
}

impl EphemeralContainer {
    /// An ephemeral container with the given name and probes.
    pub fn new(
        name: String,
        liveness_probe: Option<k8s_openapi::api::core::v1::Probe>,
        readiness_probe: Option<k8s_openapi::api::core::v1::Probe>,
    ) -> (container: Self)
        ensures
            container.name == name,
            container.liveness_probe == liveness_probe,
            container.readiness_probe == readiness_probe,
    {
        EphemeralContainer { name, liveness_probe, readiness_probe }
    }
}

impl View for Container {
    type V = ContainerView;

    open spec fn view(&self) -> ContainerView {
        ContainerView {
            name: self.name@,
            has_liveness_probe: self.liveness_probe is Some,
            has_readiness_probe: self.readiness_probe is Some,
        }
    }
}

impl DeepView for Container {
    type V = ContainerView;

    open spec fn deep_view(&self) -> ContainerView {
        self@
    }
}

impl View for EphemeralContainer {
    type V = ContainerView;

    open spec fn view(&self) -> ContainerView {
        ContainerView {
            name: self.name@,
            has_liveness_probe: self.liveness_probe is Some,
            has_readiness_probe: self.readiness_probe is Some,
        }
    }
}

impl DeepView for EphemeralContainer {
    type V = ContainerView;

    open spec fn deep_view(&self) -> ContainerView {
        self@
    }
}

/// The three things that the rule reads of a container, whatever its type.
pub trait ProbedContainer: DeepView<V = ContainerView> {
    fn name(&self) -> (name: &str)
        ensures
            name@ == self.deep_view().name,
    ;

    fn has_liveness_probe(&self) -> (present: bool)
        ensures
            present == self.deep_view().has_liveness_probe,
    ;

    fn has_readiness_probe(&self) -> (present: bool)
        ensures
            present == self.deep_view().has_readiness_probe,
    ;
}

impl ProbedContainer for Container {
    fn name(&self) -> (name: &str) {
        self.name.as_str()
    }

    fn has_liveness_probe(&self) -> (present: bool) {
        self.liveness_probe.is_some()
    }

    fn has_readiness_probe(&self) -> (present: bool) {
        self.readiness_probe.is_some()
    }
}

impl ProbedContainer for EphemeralContainer {
    fn name(&self) -> (name: &str) {
        self.name.as_str()
    }

    fn has_liveness_probe(&self) -> (present: bool) {
        self.liveness_probe.is_some()
    }

    fn has_readiness_probe(&self) -> (present: bool) {
        self.readiness_probe.is_some()
    }
}

/// A container is compliant when it has both probes.
pub open spec fn compliant(container: ContainerView) -> bool {
    container.has_liveness_probe && container.has_readiness_probe
}

/// The words that name a missing probe in a finding.
pub open spec fn missing_probe_words(kind: ProbeKind) -> Seq<char> {
    match kind {
        ProbeKind::Liveness => " without liveness probe is not accepted"@,
        ProbeKind::Readiness => " without readiness probe is not accepted"@,
    }
}

/// The finding for a container called `name` that lacks the probe `kind`.
pub open spec fn finding(name: Seq<char>, kind: ProbeKind) -> Seq<char> {
    "container "@ + name + missing_probe_words(kind)
}

/// The findings for a container: one for each probe that it lacks, the
/// liveness probe first.
pub open spec fn findings(container: ContainerView) -> Seq<Seq<char>> {
    let liveness = if container.has_liveness_probe {
        Seq::<Seq<char>>::empty()
    } else {
        seq![finding(container.name, ProbeKind::Liveness)]
    };
    let readiness = if container.has_readiness_probe {
        Seq::<Seq<char>>::empty()
    } else {
        seq![finding(container.name, ProbeKind::Readiness)]
    };
    liveness + readiness
}

/// Number of probes that a container lacks.
pub open spec fn missing_probes(container: ContainerView) -> nat {
    let liveness: nat = if container.has_liveness_probe { 0 } else { 1 };
    let readiness: nat = if container.has_readiness_probe { 0 } else { 1 };
    liveness + readiness
}

/// Words the finding for a container called `name` that lacks the probe `kind`.
pub fn missing_probe_message(name: &str, kind: ProbeKind) -> (message: String)
    ensures
        message@ == finding(name@, kind),
{
    let mut message = String::from_str("container ");
    message.append(name);
    match kind {
        ProbeKind::Liveness => message.append(" without liveness probe is not accepted"),
        ProbeKind::Readiness => message.append(" without readiness probe is not accepted"),
    }
    message
}

/// Evaluates the rule on one container of either type: `Ok` when it has both
/// probes, else the findings, one for each probe that it lacks.
pub fn check_probes<C: ProbedContainer>(container: &C) -> (outcome: Result<(), Vec<String>>)
    ensures
        outcome is Ok <==> compliant(container.deep_view()),
        outcome matches Err(found) ==> found.deep_view() == findings(container.deep_view()),
        outcome matches Err(found) ==> found.len() == missing_probes(container.deep_view()),
{
    let mut found: Vec<String> = Vec::new();
    if !container.has_liveness_probe() {
        found.push(missing_probe_message(container.name(), ProbeKind::Liveness));
    }
    if !container.has_readiness_probe() {
        found.push(missing_probe_message(container.name(), ProbeKind::Readiness));
    }
    assert(found.deep_view() == findings(container.deep_view()));
    if found.len() == 0 {
        Ok(())
    } else {
        Err(found)
    }
}

/// The rule for a primary or init container.
pub fn validate_container(container: &Container) -> (outcome: Result<(), Vec<String>>)
    ensures
        outcome is Ok <==> compliant(container@),
        outcome matches Err(found) ==> found.deep_view() == findings(container@),
        outcome matches Err(found) ==> found.len() == missing_probes(container@),
{
    check_probes(container)
}

/// The rule for an ephemeral container: the same as for any other.
pub fn validate_ephemeral_container(container: &EphemeralContainer) -> (outcome: Result<
    (),
    Vec<String>,
>)
    ensures
        outcome is Ok <==> compliant(container@),
        outcome matches Err(found) ==> found.deep_view() == findings(container@),
        outcome matches Err(found) ==> found.len() == missing_probes(container@),
{
    check_probes(container)
}

/// A container has one finding for each probe that it lacks, and none when
/// it has both: the finding for the liveness probe comes first, and the two
/// findings of a container that lacks both differ.
pub proof fn lemma_one_finding_per_missing_probe(container: ContainerView)
    ensures
        findings(container).len() == missing_probes(container),
        compliant(container) <==> findings(container).len() == 0,
        !container.has_liveness_probe ==> findings(container).first() == finding(
            container.name,
            ProbeKind::Liveness,
        ),
        !container.has_readiness_probe ==> findings(container).last() == finding(
            container.name,
            ProbeKind::Readiness,
        ),
        finding(container.name, ProbeKind::Liveness) != finding(
            container.name,
            ProbeKind::Readiness,
        ),
{
    reveal_strlit("container ");
    reveal_strlit(" without liveness probe is not accepted");
    reveal_strlit(" without readiness probe is not accepted");
    let at: int = 19int + container.name.len();
    assert(finding(container.name, ProbeKind::Liveness)[at] == 'l');
    assert(finding(container.name, ProbeKind::Readiness)[at] == 'r');
}

} // verus!
