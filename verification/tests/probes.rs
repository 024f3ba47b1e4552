//! Probes, simulations and what they make of a node.

use berthos::doctor::evaluate;
use berthos::eligibility::{CheckId, GuestImage, REQUIRED_GUEST_IMAGE};
use berthos::guest::CommandOutcome;
use berthos::json::Json;
use berthos::probes::{
    default_facts_config, docker_available, free_mem_gib, free_vcpu, guest_image_from_labels,
    inspect_guest_image, labeled_guest_image_ready, observe, simulate, Probes, SimulateCase,
};

const LABELS: &[u8] = br#"{
    "berthos.guest.version": "v1",
    "berthos.desktop": "xvfb-openbox-chromium",
    "berthos.egress.policy": "default-deny"
}"#;

fn ok(stdout: &[u8]) -> CommandOutcome {
    CommandOutcome::Exited {
        success: true,
        stdout: stdout.to_vec(),
        stderr: String::new(),
    }
}

fn failed() -> CommandOutcome {
    CommandOutcome::Exited {
        success: false,
        stdout: vec![],
        stderr: "no".into(),
    }
}

fn green() -> Probes {
    Probes {
        docker_info: ok(b""),
        image_inspect: ok(LABELS),
        parallelism: Some(8),
        meminfo: Some("MemTotal: 1 kB\nMemAvailable:   8388608 kB\n".into()),
        tunnel_version: CommandOutcome::Unavailable("not found".into()),
    }
}

#[test]
fn simulate_cases_are_fail_closed_only() {
    for case in [
        SimulateCase::Laptop,
        SimulateCase::MissingImage,
        SimulateCase::BindAll,
    ] {
        let report = evaluate(&simulate(case));
        assert!(!report.eligible, "{case:?} must not be eligible");
    }
}

#[test]
fn simulate_rejects_eligible_keyword() {
    assert!(SimulateCase::parse("eligible").is_err());
    assert!(SimulateCase::parse("pass").is_err());
}

#[test]
fn live_docker_probe_skips_when_daemon_missing() {
    let mut probes = green();
    let facts = observe(&default_facts_config(), &probes);
    assert!(
        facts.runtime_running,
        "docker info succeeded so runtime_running must be true"
    );
    probes.docker_info = CommandOutcome::Unavailable("no docker".into());
    let facts = observe(&default_facts_config(), &probes);
    assert!(
        !facts.runtime_running,
        "missing docker must fail closed, not skip"
    );
    assert!(facts.guest_image.is_none());
}

#[test]
fn live_docker_requires_labeled_guest_image() {
    let facts = observe(&default_facts_config(), &green());
    let image = facts.guest_image.as_ref().expect("image");
    assert!(image.matches_required());
    assert_eq!(image.name, REQUIRED_GUEST_IMAGE);
    assert!(evaluate(&facts).ok);

    let mut probes = green();
    probes.image_inspect = failed();
    let report = evaluate(&observe(&default_facts_config(), &probes));
    assert!(!report.ok);
    assert!(report.failed(CheckId::GuestImage));

    probes.image_inspect = ok(b"null");
    let facts = observe(&default_facts_config(), &probes);
    assert!(!facts.guest_image.as_ref().expect("unlabeled").matches_required());
    let report = evaluate(&facts);
    assert!(!report.ok, "unlabeled image must fail closed");
    assert!(report.failed(CheckId::GuestImage));
}

#[test]
fn every_missing_probe_fails_closed() {
    let broken: [fn(&mut Probes); 4] = [
        |p| p.docker_info = CommandOutcome::Unavailable("x".into()),
        |p| p.image_inspect = CommandOutcome::Unavailable("x".into()),
        |p| p.parallelism = None,
        |p| p.meminfo = None,
    ];
    assert!(evaluate(&observe(&default_facts_config(), &green())).eligible);
    for breakage in broken {
        let mut probes = green();
        breakage(&mut probes);
        assert!(!evaluate(&observe(&default_facts_config(), &probes)).eligible);
    }
}

#[test]
fn observed_facts_are_the_probes() {
    let facts = observe(&default_facts_config(), &green());
    assert_eq!(facts.bind_display, "127.0.0.1:7432");
    assert!(facts.bind_is_loopback);
    assert_eq!(facts.free_vcpu, 8);
    assert_eq!(facts.free_mem_gib, 8);
    assert!(!facts.tunnel_present);
}

#[test]
fn unknown_simulations_are_named_in_the_error() {
    assert_eq!(SimulateCase::parse("laptop"), Ok(SimulateCase::Laptop));
    assert_eq!(SimulateCase::parse("missing-image"), Ok(SimulateCase::MissingImage));
    assert_eq!(SimulateCase::parse("bind-all"), Ok(SimulateCase::BindAll));
    assert_eq!(
        SimulateCase::parse("eli\"gible").unwrap_err(),
        "unknown simulate case \"eli\\\"gible\"; expected laptop, missing-image, or bind-all"
    );
}

#[test]
fn memory_is_read_from_the_first_matching_line() {
    assert_eq!(free_mem_gib(None), 0);
    assert_eq!(free_mem_gib(Some("")), 0);
    assert_eq!(free_mem_gib(Some("MemTotal: 99999999 kB\n")), 0);
    assert_eq!(free_mem_gib(Some("MemAvailable: 5242879 kB")), 4);
    assert_eq!(free_mem_gib(Some("MemAvailable:\t5242880\r\n")), 5);
    assert_eq!(free_mem_gib(Some("MemAvailable: many kB\nMemAvailable: 5242880\n")), 0);
    assert_eq!(free_mem_gib(Some(" MemAvailable: 5242880\n")), 0);
    assert_eq!(free_mem_gib(Some("MemAvailable: 18446744073709551615\n")), u32::MAX);
    assert_eq!(free_mem_gib(Some("MemAvailable: 18446744073709551616\n")), 0);
}

#[test]
fn processors_are_counted() {
    assert_eq!(free_vcpu(None), 0);
    assert_eq!(free_vcpu(Some(16)), 16);
}

#[test]
fn labels_describe_the_image() {
    let outcome = ok(LABELS);
    assert_eq!(
        inspect_guest_image("img", &outcome),
        Some(GuestImage {
            name: "img".into(),
            version_label: "v1".into(),
            desktop_label: "xvfb-openbox-chromium".into(),
            egress_label: "default-deny".into(),
        })
    );
    assert_eq!(inspect_guest_image("img", &ok(b"not json")), None);
    assert_eq!(guest_image_from_labels("img", &Json::Null).version_label, "");
    assert!(labeled_guest_image_ready(REQUIRED_GUEST_IMAGE, &ok(b""), &outcome));
    assert!(!labeled_guest_image_ready(REQUIRED_GUEST_IMAGE, &failed(), &outcome));
    assert!(!labeled_guest_image_ready(REQUIRED_GUEST_IMAGE, &ok(b""), &ok(b"{}")));
    assert!(docker_available(&ok(b"")));
    assert!(!docker_available(&failed()));
}
