//! The rule for a pod specification: every container of its three classes is
//! checked, and each one that lacks a probe gives one line of the message.

use crate::container::check_probes;
use crate::container::compliant;
use crate::container::finding;
use crate::container::findings;
use crate::container::Container;
use crate::container::ContainerView;
use crate::container::EphemeralContainer;
use crate::container::ProbedContainer;
use crate::text::join;
use crate::text::joined;
use crate::text::laid_out;
use crate::text::lemma_laid_out_concat;
use crate::text::lemma_joined_on_one_line;
use crate::text::lemma_laid_out_empty;
use crate::text::lemma_laid_out_line_feeds;
use crate::text::lemma_laid_out_push;
use crate::text::line_feeds;
use crate::text::on_one_line;
use vstd::prelude::*;

verus! {

/// The three classes of containers in a pod specification, in the order in
/// which the rule visits them.
#[derive(Clone, Copy, Debug, PartialEq, Eq)]
pub enum ContainerClass {
    Primary,
    Init,
    Ephemeral,
}

/// The containers of a pod.
#[derive(Clone, Debug)]
pub struct PodSpec {
    pub containers: Vec<Container>,
    pub init_containers: Option<Vec<Container>>,
    pub ephemeral_containers: Option<Vec<EphemeralContainer>>,
}

/// What the rule reads of a pod specification.
pub struct PodSpecView {
    pub containers: Seq<ContainerView>,
    pub init_containers: Option<Seq<ContainerView>>,
    pub ephemeral_containers: Option<Seq<ContainerView>>,
}

impl PodSpec {
    /// A pod specification with the given containers.
    pub fn new(
        containers: Vec<Container>,
        init_containers: Option<Vec<Container>>,
        ephemeral_containers: Option<Vec<EphemeralContainer>>,
    ) -> (pod: Self)
        ensures
            pod.containers == containers,
            pod.init_containers == init_containers,
            pod.ephemeral_containers == ephemeral_containers,
    {
        PodSpec { containers, init_containers, ephemeral_containers }
    }
}

impl View for PodSpec {
    type V = PodSpecView;

    open spec fn view(&self) -> PodSpecView {
        PodSpecView {
            containers: self.containers.deep_view(),
            init_containers: self.init_containers.deep_view(),
            ephemeral_containers: self.ephemeral_containers.deep_view(),
        }
    }
}

/// The containers of an optional list: none where the list is absent.
pub open spec fn listed(containers: Option<Seq<ContainerView>>) -> Seq<ContainerView> {
    match containers {
        Some(containers) => containers,
        None => Seq::empty(),
    }
}

/// The words that open the line of a container of the given class.
pub open spec fn class_words(class: ContainerClass) -> Seq<char> {
    match class {
        ContainerClass::Primary => "container "@,
        ContainerClass::Init => "init container "@,
        ContainerClass::Ephemeral => "ephemeral container "@,
    }
}

/// The line for a container of the given class that lacks a probe: its
/// class and name, then its findings, with `"; "` between two.
pub open spec fn violation_line(class: ContainerClass, container: ContainerView) -> Seq<char> {
    class_words(class) + container.name + " is invalid: "@ + joined(findings(container), "; "@)
}

/// The lines for the containers of one class: one for each container that
/// lacks a probe, in the order of the list.
pub open spec fn class_violations(class: ContainerClass, containers: Seq<ContainerView>) -> Seq<
    Seq<char>,
>
    decreases containers.len(),
{
    if containers.len() == 0 {
        Seq::empty()
    } else {
        let earlier = class_violations(class, containers.drop_last());
        if compliant(containers.last()) {
            earlier
        } else {
            earlier.push(violation_line(class, containers.last()))
        }
    }
}

/// The lines for a pod: those of its primary containers, then those of its
/// init containers, then those of its ephemeral containers.
pub open spec fn pod_violations(pod: PodSpecView) -> Seq<Seq<char>> {
    class_violations(ContainerClass::Primary, pod.containers) + class_violations(
        ContainerClass::Init,
        listed(pod.init_containers),
    ) + class_violations(ContainerClass::Ephemeral, listed(pod.ephemeral_containers))
}

/// The outcome of the rule for a pod: valid when no container lacks a probe,
/// else the violation lines, each followed by a line feed.
pub open spec fn pod_outcome(pod: PodSpecView) -> Result<(), Seq<char>> {
    if pod_violations(pod).len() == 0 {
        Ok(())
    } else {
        Err(laid_out(pod_violations(pod)))
    }
}

fn class_opening(class: ContainerClass) -> (words: &'static str)
    ensures
        words@ == class_words(class),
{
    match class {
        ContainerClass::Primary => "container ",
        ContainerClass::Init => "init container ",
        ContainerClass::Ephemeral => "ephemeral container ",
    }
}

/// Checks the containers of one class in their order and appends to
/// `message` the line of each one that lacks a probe.
fn append_violations<C: ProbedContainer>(
    message: &mut String,
    class: ContainerClass,
    containers: &Vec<C>,
)
    ensures
        final(message)@ == old(message)@ + laid_out(
            class_violations(class, containers.deep_view()),
        ),
{
    let mut i: usize = 0;
    while i < containers.len()
        invariant
            i <= containers.len(),
            message@ == old(message)@ + laid_out(
                class_violations(class, containers.deep_view().take(i as int)),
            ),
        decreases containers.len() - i,
    {
        let container = &containers[i];
        proof {
            let seen = containers.deep_view().take(i as int);
            let next = containers.deep_view().take(i + 1);
            assert(next.drop_last() == seen);
            assert(next.last() == container.deep_view());
            if !compliant(container.deep_view()) {
                lemma_laid_out_push(
                    class_violations(class, seen),
                    violation_line(class, container.deep_view()),
                );
            }
        }
        match check_probes(container) {
            Ok(()) => {},
            Err(found) => {
                message.append(class_opening(class));
                message.append(container.name());
                message.append(" is invalid: ");
                let detail = join(&found, "; ");
                message.append(detail.as_str());
                message.append("\n");
            },
        }
        i += 1;
    }
    proof {
        assert(containers.deep_view().take(containers.len() as int) == containers.deep_view());
    }
}

/// The rule for a pod specification. Every container is checked, the primary
/// ones first, then the init containers, then the ephemeral ones, each class
/// in the order of its list; none is passed over after an earlier one has
/// failed. The pod is valid when no container lacks a probe. Else the
/// message has one line for each container that does.
pub fn validate_pod(pod: &PodSpec) -> (outcome: Result<(), String>)
    ensures
        outcome is Ok <==> pod_outcome(pod@) is Ok,
        outcome matches Err(message) ==> pod_outcome(pod@) == Err::<(), Seq<char>>(message@),
{
    let mut message = String::new();
    append_violations(&mut message, ContainerClass::Primary, &pod.containers);
    if let Some(init_containers) = &pod.init_containers {
        append_violations(&mut message, ContainerClass::Init, init_containers);
    }
    if let Some(ephemeral_containers) = &pod.ephemeral_containers {
        append_violations(&mut message, ContainerClass::Ephemeral, ephemeral_containers);
    }
    proof {
        let primary = class_violations(ContainerClass::Primary, pod@.containers);
        let init = class_violations(ContainerClass::Init, listed(pod@.init_containers));
        let ephemeral = class_violations(
            ContainerClass::Ephemeral,
            listed(pod@.ephemeral_containers),
        );
        lemma_laid_out_concat(primary, init);
        lemma_laid_out_concat(primary + init, ephemeral);
        lemma_laid_out_empty(pod_violations(pod@));
        assert(message@ == laid_out(pod_violations(pod@)));
    }
    if message.as_str().is_empty() {
        Ok(())
    } else {
        Err(message)
    }
}

/// A pod specification without primary containers and without a list of
/// init or of ephemeral containers is valid.
pub proof fn lemma_pod_without_containers_is_valid(pod: PodSpecView)
    requires
        pod.containers.len() == 0,
        pod.init_containers is None,
        pod.ephemeral_containers is None,
    ensures
        pod_outcome(pod) is Ok,
{
}

/// Number of containers in a list that lack a probe.
pub open spec fn lacking(containers: Seq<ContainerView>) -> nat
    decreases containers.len(),
{
    if containers.len() == 0 {
        0
    } else {
        let last: nat = if compliant(containers.last()) {
            0
        } else {
            1
        };
        lacking(containers.drop_last()) + last
    }
}

/// Number of containers of a pod, of all three classes, that lack a probe.
pub open spec fn pod_lacking(pod: PodSpecView) -> nat {
    lacking(pod.containers) + lacking(listed(pod.init_containers)) + lacking(
        listed(pod.ephemeral_containers),
    )
}

proof fn lemma_class_violations_len(class: ContainerClass, containers: Seq<ContainerView>)
    ensures
        class_violations(class, containers).len() == lacking(containers),
    decreases containers.len(),
{
    if containers.len() > 0 {
        lemma_class_violations_len(class, containers.drop_last());
    }
}

/// A pod in which N containers lack a probe has exactly N violation lines.
pub proof fn lemma_one_line_per_lacking_container(pod: PodSpecView)
    ensures
        pod_violations(pod).len() == pod_lacking(pod),
        pod_outcome(pod) is Ok <==> pod_lacking(pod) == 0,
{
    lemma_class_violations_len(ContainerClass::Primary, pod.containers);
    lemma_class_violations_len(ContainerClass::Init, listed(pod.init_containers));
    lemma_class_violations_len(ContainerClass::Ephemeral, listed(pod.ephemeral_containers));
}

/// A container as the rule meets it: with the class of the list it is in.
pub struct Visit {
    pub class: ContainerClass,
    pub container: ContainerView,
}

/// The containers of one list, each with the class of the list.
pub open spec fn visits(class: ContainerClass, containers: Seq<ContainerView>) -> Seq<Visit> {
    Seq::new(containers.len(), |i: int| Visit { class, container: containers[i] })
}

/// The containers of a pod in the order of declaration: the primary ones,
/// then the init containers, then the ephemeral ones, each list in its own
/// order.
pub open spec fn traversal(pod: PodSpecView) -> Seq<Visit> {
    visits(ContainerClass::Primary, pod.containers) + visits(
        ContainerClass::Init,
        listed(pod.init_containers),
    ) + visits(ContainerClass::Ephemeral, listed(pod.ephemeral_containers))
}

/// `lines` are the violation lines of the containers among `visited` that
/// lack a probe, in the order of `visited`: line `i` is that of the container
/// at `positions[i]`, the positions go upwards, and they pass over no
/// container that lacks a probe.
pub open spec fn in_order_of(lines: Seq<Seq<char>>, visited: Seq<Visit>, positions: Seq<int>) -> bool {
    &&& positions.len() == lines.len()
    &&& forall|i: int|
        0 <= i < positions.len() ==> 0 <= #[trigger] positions[i] < visited.len() && !compliant(
            visited[positions[i]].container,
        ) && lines[i] == violation_line(
            visited[positions[i]].class,
            visited[positions[i]].container,
        )
    &&& forall|i: int, j: int|
        0 <= i < j < positions.len() ==> #[trigger] positions[i] < #[trigger] positions[j]
    &&& forall|p: int|
        0 <= p < visited.len() && !compliant((#[trigger] visited[p]).container)
            ==> positions.contains(p)
}

proof fn lemma_class_in_order(class: ContainerClass, containers: Seq<ContainerView>) -> (positions:
    Seq<int>)
    ensures
        in_order_of(class_violations(class, containers), visits(class, containers), positions),
    decreases containers.len(),
{
    if containers.len() == 0 {
        Seq::empty()
    } else {
        let earlier = lemma_class_in_order(class, containers.drop_last());
        let last: int = containers.len() - 1;
        let positions = if compliant(containers.last()) {
            earlier
        } else {
            earlier.push(last)
        };
        let visited = visits(class, containers);
        let before = visits(class, containers.drop_last());
        assert forall|p: int| 0 <= p < before.len() implies before[p] == visited[p] by {}
        assert forall|p: int|
            0 <= p < visited.len() && !compliant((#[trigger] visited[p]).container)
                implies positions.contains(p) by {
            if p < last {
                assert(!compliant(before[p].container));
                let i = choose|i: int| 0 <= i < earlier.len() && earlier[i] == p;
                assert(positions[i] == p);
            } else {
                assert(positions[positions.len() - 1] == p);
            }
        }
        positions
    }
}

proof fn lemma_in_order_concat(
    first_lines: Seq<Seq<char>>,
    first_visited: Seq<Visit>,
    first_positions: Seq<int>,
    second_lines: Seq<Seq<char>>,
    second_visited: Seq<Visit>,
    second_positions: Seq<int>,
) -> (positions: Seq<int>)
    requires
        in_order_of(first_lines, first_visited, first_positions),
        in_order_of(second_lines, second_visited, second_positions),
    ensures
        in_order_of(first_lines + second_lines, first_visited + second_visited, positions),
{
    let shift = first_visited.len();
    let shifted = Seq::new(second_positions.len(), |i: int| second_positions[i] + shift);
    let positions = first_positions + shifted;
    let lines = first_lines + second_lines;
    let visited = first_visited + second_visited;
    assert forall|i: int| 0 <= i < positions.len() implies 0 <= #[trigger] positions[i]
        < visited.len() && !compliant(visited[positions[i]].container) && lines[i]
        == violation_line(visited[positions[i]].class, visited[positions[i]].container) by {
        if i < first_positions.len() {
            assert(positions[i] == first_positions[i]);
        } else {
            let k = i - first_positions.len();
            assert(positions[i] == second_positions[k] + shift);
            assert(visited[positions[i]] == second_visited[second_positions[k]]);
            assert(lines[i] == second_lines[k]);
        }
    }
    assert forall|i: int, j: int| 0 <= i < j < positions.len() implies #[trigger] positions[i]
        < #[trigger] positions[j] by {
        if j < first_positions.len() {
            assert(positions[i] == first_positions[i]);
            assert(positions[j] == first_positions[j]);
        } else if i < first_positions.len() {
            assert(positions[i] == first_positions[i]);
            assert(positions[j] == second_positions[j - first_positions.len()] + shift);
        } else {
            assert(positions[i] == second_positions[i - first_positions.len()] + shift);
            assert(positions[j] == second_positions[j - first_positions.len()] + shift);
        }
    }
    assert forall|p: int|
        0 <= p < visited.len() && !compliant((#[trigger] visited[p]).container)
            implies positions.contains(p) by {
        if p < shift {
            assert(visited[p] == first_visited[p]);
            let i = choose|i: int| 0 <= i < first_positions.len() && first_positions[i] == p;
            assert(positions[i] == p);
        } else {
            assert(visited[p] == second_visited[p - shift]);
            let k = choose|k: int|
                0 <= k < second_positions.len() && second_positions[k] == p - shift;
            assert(positions[first_positions.len() + k] == p);
        }
    }
    positions
}

/// The violation lines of a pod follow the order of declaration: there is
/// one line for each container that lacks a probe, none for any other, and
/// the line of a container that is declared before another one comes before
/// the line of that one.
pub proof fn lemma_violations_in_order_of_declaration(pod: PodSpecView) -> (positions: Seq<int>)
    ensures
        in_order_of(pod_violations(pod), traversal(pod), positions),
{
    let primary = lemma_class_in_order(ContainerClass::Primary, pod.containers);
    let init = lemma_class_in_order(ContainerClass::Init, listed(pod.init_containers));
    let ephemeral = lemma_class_in_order(
        ContainerClass::Ephemeral,
        listed(pod.ephemeral_containers),
    );
    let first = lemma_in_order_concat(
        class_violations(ContainerClass::Primary, pod.containers),
        visits(ContainerClass::Primary, pod.containers),
        primary,
        class_violations(ContainerClass::Init, listed(pod.init_containers)),
        visits(ContainerClass::Init, listed(pod.init_containers)),
        init,
    );
    lemma_in_order_concat(
        class_violations(ContainerClass::Primary, pod.containers) + class_violations(
            ContainerClass::Init,
            listed(pod.init_containers),
        ),
        visits(ContainerClass::Primary, pod.containers) + visits(
            ContainerClass::Init,
            listed(pod.init_containers),
        ),
        first,
        class_violations(ContainerClass::Ephemeral, listed(pod.ephemeral_containers)),
        visits(ContainerClass::Ephemeral, listed(pod.ephemeral_containers)),
        ephemeral,
    )
}

/// The line of a container whose name holds no line feed holds none.
proof fn lemma_violation_line_on_one_line(class: ContainerClass, container: ContainerView)
    requires
        on_one_line(container.name),
    ensures
        on_one_line(violation_line(class, container)),
{
    reveal_strlit("container ");
    reveal_strlit("init container ");
    reveal_strlit("ephemeral container ");
    reveal_strlit(" is invalid: ");
    reveal_strlit("; ");
    reveal_strlit(" without liveness probe is not accepted");
    reveal_strlit(" without readiness probe is not accepted");
    assert(on_one_line(class_words(class)));
    assert(on_one_line(" is invalid: "@));
    assert(on_one_line("; "@));
    assert(on_one_line(finding(container.name, crate::container::ProbeKind::Liveness)));
    assert(on_one_line(finding(container.name, crate::container::ProbeKind::Readiness)));
    lemma_joined_on_one_line(findings(container), "; "@);
}

proof fn lemma_class_violations_on_one_line(class: ContainerClass, containers: Seq<ContainerView>)
    requires
        forall|i: int| 0 <= i < containers.len() ==> on_one_line((#[trigger] containers[i]).name),
    ensures
        forall|i: int|
            0 <= i < class_violations(class, containers).len() ==> on_one_line(
                #[trigger] class_violations(class, containers)[i],
            ),
    decreases containers.len(),
{
    if containers.len() > 0 {
        let earlier = class_violations(class, containers.drop_last());
        lemma_class_violations_on_one_line(class, containers.drop_last());
        lemma_violation_line_on_one_line(class, containers.last());
        assert forall|i: int| 0 <= i < class_violations(class, containers).len() implies on_one_line(
            #[trigger] class_violations(class, containers)[i],
        ) by {
            if i < earlier.len() {
                assert(class_violations(class, containers)[i] == earlier[i]);
            }
        }
    }
}

/// Where no container name holds a line feed, the message of a pod in which
/// N containers lack a probe has exactly N lines: it holds N line feeds, one
/// at the end of each violation line.
pub proof fn lemma_message_has_one_line_per_lacking_container(pod: PodSpecView)
    requires
        forall|p: int|
            0 <= p < traversal(pod).len() ==> on_one_line(
                (#[trigger] traversal(pod)[p]).container.name,
            ),
    ensures
        line_feeds(laid_out(pod_violations(pod))) == pod_lacking(pod),
{
    let init = listed(pod.init_containers);
    let ephemeral = listed(pod.ephemeral_containers);
    let visited = traversal(pod);
    assert forall|i: int| 0 <= i < pod.containers.len() implies on_one_line(
        (#[trigger] pod.containers[i]).name,
    ) by {
        assert(visited[i].container == pod.containers[i]);
    }
    assert forall|i: int| 0 <= i < init.len() implies on_one_line((#[trigger] init[i]).name) by {
        assert(visited[pod.containers.len() + i].container == init[i]);
    }
    assert forall|i: int| 0 <= i < ephemeral.len() implies on_one_line(
        (#[trigger] ephemeral[i]).name,
    ) by {
        assert(visited[pod.containers.len() + init.len() + i].container == ephemeral[i]);
    }
    lemma_class_violations_on_one_line(ContainerClass::Primary, pod.containers);
    lemma_class_violations_on_one_line(ContainerClass::Init, init);
    lemma_class_violations_on_one_line(ContainerClass::Ephemeral, ephemeral);
    lemma_laid_out_line_feeds(pod_violations(pod));
    lemma_one_line_per_lacking_container(pod);
}

} // verus!
