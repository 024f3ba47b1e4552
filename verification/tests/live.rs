//! Leases against a Docker daemon that is played by the test.

use berthos::action::MINIMAL_PNG;
use berthos::addr::{IpAddr, SocketAddr};
use berthos::clock::Timestamp;
use berthos::eligibility::{CheckId, GuestOs, REQUIRED_GUEST_IMAGE};
use berthos::http::{new_state_with_report, png_reply, NodeInner, Viewed};
use berthos::guest::{CommandOutcome, GuestError};
use berthos::probes::Probes;
use berthos::session::{CreateLeaseRequest, Lease, LeaseId, OccupancyUnit};
use berthos::{
    default_facts_config, evaluate, inspect_isolation, observe, DockerGuest, GuestHandle, GuestOp,
    GuestRuntime, GuestSpec, LoopbackView,
};

/// A daemon that knows the containers that were started.
struct FakeDocker {
    containers: Vec<String>,
}

fn ok(stdout: &[u8]) -> CommandOutcome {
    CommandOutcome::Exited {
        success: true,
        stdout: stdout.to_vec(),
        stderr: String::new(),
    }
}

fn no_such_container(name: &str) -> CommandOutcome {
    CommandOutcome::Exited {
        success: false,
        stdout: vec![],
        stderr: format!("Error: No such container: {name}"),
    }
}

impl FakeDocker {
    fn docker(&mut self, args: &[String]) -> CommandOutcome {
        match args[0].as_str() {
            "run" => {
                let name = args.iter().position(|a| a == "--name").unwrap() + 1;
                self.containers.push(args[name].clone());
                ok(b"")
            }
            "inspect" if self.containers.contains(&args[1]) => {
                ok(br#"[{"HostConfig":{"NetworkMode":"none","Privileged":false}}]"#)
            }
            "exec" if self.containers.contains(&args[1]) => ok(&MINIMAL_PNG),
            "rm" if self.containers.contains(&args[2]) => {
                self.containers.retain(|c| c != &args[2]);
                ok(b"")
            }
            "rm" => no_such_container(&args[2]),
            _ => no_such_container(&args[1]),
        }
    }

    fn inspect(&mut self, handle: &GuestHandle) -> CommandOutcome {
        self.docker(&DockerGuest.inspect_args(handle))
    }
}

impl GuestRuntime for FakeDocker {
    fn start(&mut self, id: &LeaseId, spec: &GuestSpec) -> Result<GuestHandle, GuestError> {
        let mut step = DockerGuest.start(id, spec);
        while let Some(args) = step.command() {
            let outcome = self.docker(args);
            step = DockerGuest.next(step, &outcome);
        }
        step.finish()
    }

    fn destroy(&mut self, handle: &GuestHandle) -> Result<(), GuestError> {
        let outcome = self.docker(&DockerGuest.remove_args(handle));
        DockerGuest.after_remove(handle, &outcome)
    }

    fn exec(&mut self, handle: &GuestHandle, argv: &Vec<String>) -> Result<Vec<u8>, GuestError> {
        let outcome = self.docker(&DockerGuest.exec_args(handle, argv));
        DockerGuest.after_exec(handle, outcome)
    }
}

fn green() -> Probes {
    Probes {
        docker_info: ok(b""),
        image_inspect: ok(br#"{
            "berthos.guest.version": "v1",
            "berthos.desktop": "xvfb-openbox-chromium",
            "berthos.egress.policy": "default-deny"
        }"#),
        parallelism: Some(4),
        meminfo: Some("MemAvailable: 16777216 kB\n".into()),
        tunnel_version: no_such_container("cloudflared"),
    }
}

fn paired_node() -> (NodeInner, String) {
    let config = default_facts_config();
    let report = evaluate(&observe(&config, &green()));
    assert!(report.ok, "{report:?}");
    let mut node = new_state_with_report(config, report);
    let code = node.pairing.code.clone();
    let token = node.pair(&code).unwrap().token;
    (node, format!("Bearer {token}"))
}

fn create(node: &mut NodeInner, docker: &mut FakeDocker, header: &str) -> Lease {
    let body = CreateLeaseRequest {
        os: GuestOs::Linux,
        vcpu: Some(1),
        mem_gib: Some(1),
        disk_gib: None,
    };
    let id = node.create_lease(docker, Some(header), &body).unwrap();
    let bound = SocketAddr {
        ip: IpAddr::localhost(),
        port: 40123,
    };
    match node.view_started(docker, &id, LoopbackView::start(Ok(bound))) {
        Viewed::Created(201, lease) => lease,
        other => panic!("{other:?}"),
    }
}

#[test]
fn live_observe_probes_daemon() {
    let mut probes = green();
    probes.image_inspect = no_such_container("image");
    let facts = observe(&default_facts_config(), &probes);
    assert!(facts.runtime_running);
    assert!(facts.guest_image.is_none());
    let report = evaluate(&facts);
    assert!(!report.ok);
    assert!(report.failed(CheckId::GuestImage));
}

#[test]
fn live_guest_is_isolated_and_destroyed() {
    let mut runtime = FakeDocker { containers: vec![] };
    let id = LeaseId::generate();
    let spec = GuestSpec {
        image: REQUIRED_GUEST_IMAGE.to_string(),
        vcpu: 1,
        mem_gib: 1,
    };
    let handle = runtime.start(&id, &spec).expect("start isolated guest");
    let isolation = inspect_isolation(&handle, &runtime.inspect(&handle)).expect("inspect");
    assert_eq!(isolation.network_mode, "none");
    assert!(
        isolation.is_isolated(),
        "guest must not see host net/display/cursor: {isolation:?}"
    );
    runtime.destroy(&handle).expect("destroy");
    assert!(
        inspect_isolation(&handle, &runtime.inspect(&handle)).is_err(),
        "destroy must remove the container"
    );

    let again = runtime
        .start(&LeaseId::generate(), &spec)
        .expect("destroy-and-recreate");
    let outcome = runtime.inspect(&again);
    assert!(inspect_isolation(&again, &outcome).expect("recreate").is_isolated());
    runtime.destroy(&again).expect("destroy recreate");
    runtime.destroy(&again).expect("destroying twice is fine");
}

#[test]
fn live_http_lease_returns_occupancy_receipt() {
    let mut docker = FakeDocker { containers: vec![] };
    let (mut node, header) = paired_node();
    let lease = create(&mut node, &mut docker, &header);
    let handle = GuestHandle {
        container: format!("berthos-{}", lease.id.0),
    };
    let isolation = inspect_isolation(&handle, &docker.inspect(&handle)).expect("lease container");
    assert_eq!(isolation.network_mode, "none");
    assert!(isolation.is_isolated(), "{isolation:?}");

    let ended = node.end_lease(&mut docker, Some(&header), &lease.id.0).unwrap();
    assert_eq!(ended.destroyed, Ok(()));
    let receipt = ended.receipt(Timestamp::now_utc(), "0.000800".into());
    assert_eq!(receipt.occupancy_unit, OccupancyUnit::Seconds);
    assert!(receipt.billed_seconds >= 60);
    assert!(!receipt.settlement.charged_here);
    assert!(
        inspect_isolation(&handle, &docker.inspect(&handle)).is_err(),
        "the end must destroy the guest"
    );
}

#[test]
fn live_view_and_screenshot_die_with_lease() {
    let mut docker = FakeDocker { containers: vec![] };
    let (mut node, header) = paired_node();
    let lease = create(&mut node, &mut docker, &header);
    let viewer = lease.viewer_url.clone().expect("viewer_url");
    assert!(
        viewer.starts_with("http://127.0.0.1:"),
        "view must be loopback: {viewer}"
    );
    let png = node
        .run_live_op(&mut docker, Some(&header), &lease.id.0, &GuestOp::Screenshot)
        .and_then(png_reply)
        .unwrap();
    assert!(
        png.starts_with(b"\x89PNG\r\n\x1a\n"),
        "live guest screenshot must be a PNG ({} bytes)",
        png.len()
    );

    let ended = node.end_lease(&mut docker, Some(&header), &lease.id.0).unwrap();
    assert!(!ended.view.expect("view").serving);
    let refused = node
        .run_live_op(&mut docker, Some(&header), &lease.id.0, &GuestOp::Screenshot)
        .unwrap_err();
    assert_eq!(refused.status, 404);
}
