use probes_policy::validate_pod;
use probes_policy::Container;
use probes_policy::EphemeralContainer;
use probes_policy::PodSpec;

fn probe(present: bool) -> Option<k8s_openapi::api::core::v1::Probe> {
    if present {
        Some(k8s_openapi::api::core::v1::Probe::default())
    } else {
        None
    }
}

fn container(name: &str, liveness: bool, readiness: bool) -> Container {
    Container::new(name.to_string(), probe(liveness), probe(readiness))
}

fn ephemeral(name: &str, liveness: bool, readiness: bool) -> EphemeralContainer {
    EphemeralContainer::new(name.to_string(), probe(liveness), probe(readiness))
}

#[test]
fn pod_without_containers_is_valid() {
    assert_eq!(validate_pod(&PodSpec::new(Vec::new(), None, None)), Ok(()));
}

#[test]
fn pod_with_empty_lists_is_valid() {
    assert_eq!(validate_pod(&PodSpec::new(Vec::new(), Some(Vec::new()), Some(Vec::new()))), Ok(()));
}

#[test]
fn pod_with_compliant_containers_is_valid() {
    let pod = PodSpec::new(
        vec![container("web", true, true), container("sidecar", true, true)],
        Some(vec![container("init", true, true)]),
        Some(vec![ephemeral("debugger", true, true)]),
    );
    assert_eq!(validate_pod(&pod), Ok(()));
}

#[test]
fn line_of_a_primary_container() {
    let pod = PodSpec::new(vec![container("web", false, true)], None, None);
    assert_eq!(
        validate_pod(&pod),
        Err("container web is invalid: container web without liveness probe is not accepted\n"
            .to_string())
    );
}

#[test]
fn line_of_an_init_container() {
    let pod = PodSpec::new(
        vec![container("web", true, true)],
        Some(vec![container("setup", true, false)]),
        None,
    );
    assert_eq!(
        validate_pod(&pod),
        Err(
            "init container setup is invalid: container setup without readiness probe is not accepted\n"
                .to_string()
        )
    );
}

#[test]
fn line_of_an_ephemeral_container() {
    let pod = PodSpec::new(Vec::new(), None, Some(vec![ephemeral("debugger", false, true)]));
    assert_eq!(
        validate_pod(&pod),
        Err(
            "ephemeral container debugger is invalid: container debugger without liveness probe is not accepted\n"
                .to_string()
        )
    );
}

#[test]
fn container_without_probes_gives_one_line_with_both_findings() {
    let pod = PodSpec::new(vec![container("web", false, false)], None, None);
    assert_eq!(
        validate_pod(&pod),
        Err(
            "container web is invalid: container web without liveness probe is not accepted; container web without readiness probe is not accepted\n"
                .to_string()
        )
    );
}

#[test]
fn every_container_is_checked_after_a_failure() {
    let pod = PodSpec::new(
        vec![
            container("a", false, true),
            container("b", true, true),
            container("c", true, false),
            container("d", false, false),
        ],
        None,
        None,
    );
    let message = validate_pod(&pod).unwrap_err();
    assert_eq!(
        message,
        "container a is invalid: container a without liveness probe is not accepted\n\
         container c is invalid: container c without readiness probe is not accepted\n\
         container d is invalid: container d without liveness probe is not accepted; container d without readiness probe is not accepted\n"
    );
    assert_eq!(message.lines().count(), 3);
}

#[test]
fn lines_follow_the_order_of_declaration() {
    let pod = PodSpec::new(
        vec![container("web", true, false), container("cache", true, true), container("proxy", false, true)],
        Some(vec![container("migrate", true, true), container("seed", false, true)]),
        Some(vec![ephemeral("shell", true, false), ephemeral("trace", true, true)]),
    );
    let message = validate_pod(&pod).unwrap_err();
    let lines: Vec<&str> = message.lines().collect();
    assert_eq!(
        lines,
        vec![
            "container web is invalid: container web without readiness probe is not accepted",
            "container proxy is invalid: container proxy without liveness probe is not accepted",
            "init container seed is invalid: container seed without liveness probe is not accepted",
            "ephemeral container shell is invalid: container shell without readiness probe is not accepted",
        ]
    );
    assert!(message.ends_with('\n'));
}

#[test]
fn one_line_for_each_container_that_lacks_a_probe() {
    for n in 0..6usize {
        let mut containers = Vec::new();
        for i in 0..n {
            containers.push(container(&format!("bad{}", i), false, i % 2 == 0));
            containers.push(container(&format!("good{}", i), true, true));
        }
        let pod = PodSpec::new(containers, Some(Vec::new()), None);
        match validate_pod(&pod) {
            Ok(()) => assert_eq!(n, 0),
            Err(message) => {
                assert_eq!(message.matches('\n').count(), n);
                for (i, line) in message.lines().enumerate() {
                    assert!(line.starts_with(&format!("container bad{} is invalid: ", i)));
                }
            }
        }
    }
}

#[test]
fn containers_of_the_same_name_each_give_a_line() {
    let pod = PodSpec::new(
        vec![container("twin", false, true), container("twin", false, true)],
        None,
        None,
    );
    let line = "container twin is invalid: container twin without liveness probe is not accepted\n";
    assert_eq!(validate_pod(&pod), Err(format!("{}{}", line, line)));
}

#[test]
fn a_name_with_a_line_feed_spreads_its_line() {
    let pod = PodSpec::new(vec![container("odd\nname", true, false)], None, None);
    let message = validate_pod(&pod).unwrap_err();
    assert_eq!(
        message,
        "container odd\nname is invalid: container odd\nname without readiness probe is not accepted\n"
    );
    assert_eq!(message.matches('\n').count(), 3);
}

#[test]
fn the_pod_is_left_as_it_was() {
    let pod = PodSpec::new(
        vec![container("web", false, true)],
        Some(vec![container("setup", true, true)]),
        Some(vec![ephemeral("debugger", true, false)]),
    );
    let first = validate_pod(&pod);
    let second = validate_pod(&pod);
    assert_eq!(first, second);
    assert_eq!(pod.containers.len(), 1);
    assert_eq!(pod.containers[0].name, "web");
    assert!(pod.containers[0].liveness_probe.is_none());
    assert!(pod.containers[0].readiness_probe.is_some());
    assert_eq!(pod.init_containers.as_ref().map(|list| list.len()), Some(1));
    assert_eq!(pod.ephemeral_containers.as_ref().map(|list| list.len()), Some(1));
}
