//! The node behind the HTTP API.

use berthos::action::{GuestOp, MINIMAL_PNG, PNG_MAGIC};
use berthos::addr::{IpAddr, IpBits, SocketAddr};
use berthos::clock::Timestamp;
use berthos::doctor::{eligible_private_facts, evaluate};
use berthos::eligibility::{CheckId, GuestOs, NodeClass};
use berthos::guest::{
    args_violate_isolation, isolated_run_args, GuestError, GuestHandle, GuestRuntime, GuestSpec,
    MemoryGuest,
};
use berthos::http::{
    action_reply, exec_reply, guest_argv, health, new_state, new_state_with_report,
    parse_action_body, png_reply, reject_if_bind_all, ActionBody, ApiError, NodeInner, Viewed,
};
use berthos::json::Json;
use berthos::pairing::Capability;
use berthos::probes::default_facts_config;
use berthos::session::{CreateLeaseRequest, Lease, LeaseId, LeaseState, OccupancyUnit};
use berthos::view::{LoopbackView, ViewError};
use berthos::NodeError;

fn eligible_state() -> NodeInner {
    let report = evaluate(&eligible_private_facts());
    assert!(report.eligible);
    new_state_with_report(default_facts_config(), report)
}

fn pair_token(node: &mut NodeInner) -> String {
    let code = node.pairing.code.clone();
    let response = node.pair(&code).expect("pair");
    format!("Bearer {}", response.token)
}

fn request(os: GuestOs) -> CreateLeaseRequest {
    CreateLeaseRequest {
        os,
        vcpu: None,
        mem_gib: None,
        disk_gib: None,
    }
}

fn loopback(port: u16) -> SocketAddr {
    SocketAddr {
        ip: IpAddr::localhost(),
        port,
    }
}

fn created(node: &mut NodeInner, guests: &mut MemoryGuest, header: &str) -> Lease {
    let id = node
        .create_lease(guests, Some(header), &request(GuestOs::Linux))
        .expect("lease");
    let view = LoopbackView::start(Ok(loopback(6080)));
    match node.view_started(guests, &id, view) {
        Viewed::Created(status, lease) => {
            assert_eq!(status, 201);
            lease
        }
        other => panic!("{other:?}"),
    }
}

fn error(status: u16, message: &str) -> ApiError {
    ApiError::new(status, message)
}

#[test]
fn serve_rejects_bind_all() {
    let all = IpAddr {
        bits: IpBits::V4([0, 0, 0, 0]),
        text: "0.0.0.0".into(),
    };
    assert!(matches!(
        reject_if_bind_all(all),
        Err(NodeError::BindAllRejected(_))
    ));
    assert!(reject_if_bind_all(IpAddr::localhost()).is_ok());
}

#[test]
fn eligibility_endpoint_reports_fail_closed_laptop() {
    let mut facts = eligible_private_facts();
    facts.class = NodeClass::Laptop;
    let report = evaluate(&facts);
    assert!(report.failed(CheckId::Class));
    let mut node = new_state_with_report(default_facts_config(), report);
    let body = node.eligibility(&eligible_private_facts()).attest().unwrap();
    assert_eq!(body.get("ok").and_then(Json::as_bool), Some(false));
    assert_eq!(body.get("eligible").and_then(Json::as_bool), Some(false));
    assert_eq!(body.text_field("class"), Some("laptop"));
    assert_eq!(body.text_field("source"), Some("berthos.doctor"));
    assert!(body.get("checks").and_then(Json::as_array).is_some());
    assert!(body.text_field("timestamp").is_some());
    assert!(matches!(body.get("image"), Some(Json::Object(_))));
}

#[test]
fn pairing_reveal_ignores_forwarded_and_needs_loopback() {
    let node = eligible_state();
    let far = SocketAddr {
        ip: IpAddr {
            bits: IpBits::V4([203, 0, 113, 9]),
            text: "203.0.113.9".into(),
        },
        port: 9,
    };
    assert_eq!(node.reveal_pairing(&far).unwrap_err(), error(404, "not found"));
    let reveal = node.reveal_pairing(&loopback(9)).unwrap();
    assert!(reveal.code.contains('-'));
    assert_eq!(reveal.code, node.pairing.code);
}

#[test]
fn lease_create_end_records_occupancy_seconds() {
    let mut node = eligible_state();
    let mut guests = MemoryGuest::default();
    let header = pair_token(&mut node);
    let lease = created(&mut node, &mut guests, &header);
    assert_eq!(lease.quote.occupancy_unit, OccupancyUnit::Seconds);
    assert!(!lease.quote.settlement.charged_here);

    let ended = node.end_lease(&mut guests, Some(&header), &lease.id.0).unwrap();
    assert_eq!(ended.destroyed, Ok(()));
    assert!(guests.live.is_empty());
    let later = lease.started_at.unix_nanos() + 75_000_000_000;
    let later = Timestamp::from_unix_nanos(later).unwrap();
    let timed = ended.receipt(later, "0.001000".into());
    assert_eq!((timed.occupancy_seconds, timed.billed_seconds), (75, 75));
    let receipt = ended.receipt(Timestamp::now_utc(), "0.000800".into());
    assert_eq!(receipt.occupancy_unit, OccupancyUnit::Seconds);
    assert!(receipt.billed_seconds >= 60);
    assert!(!receipt.settlement.charged_here);
}

#[test]
fn unpark_blocks_new_lease() {
    let mut node = eligible_state();
    let header = pair_token(&mut node);
    assert_eq!(node.unpark(Some(&header)), Ok(204));
    let refused = node
        .create_lease(
            &mut MemoryGuest::default(),
            Some(&header),
            &request(GuestOs::Linux),
        )
        .unwrap_err();
    assert_eq!(refused.status, 409);
    assert!(refused.message.contains("unparked"));
    assert_eq!(node.park(Some(&header)), Ok(204));
    assert!(node.plan_lease(Some(&header), &request(GuestOs::Linux)).is_ok());
}

#[test]
fn macos_lease_rejected() {
    let mut node = eligible_state();
    let header = pair_token(&mut node);
    let refused = node
        .plan_lease(Some(&header), &request(GuestOs::Macos))
        .unwrap_err();
    assert_eq!(refused.status, 400);
}

#[test]
fn windows_lease_rejected() {
    let mut node = eligible_state();
    let header = pair_token(&mut node);
    let refused = node
        .plan_lease(Some(&header), &request(GuestOs::WindowsHomeOem))
        .unwrap_err();
    assert_eq!(
        refused,
        error(400, "v1 leases only os=linux; windows and macos are out of scope")
    );
}

#[test]
fn no_lease_view_and_actions_fail() {
    let mut node = eligible_state();
    let mut guests = MemoryGuest::default();
    let header = pair_token(&mut node);
    let refused = node
        .run_live_op(&mut guests, Some(&header), "l_missing", &GuestOp::Screenshot)
        .unwrap_err();
    assert_eq!(refused.status, 404);
    assert!(refused.message.contains("lease"));

    let body = ActionBody {
        op: "click".into(),
        x: Some(1),
        y: Some(2),
        button: None,
        text: None,
        keys: None,
    };
    let op = parse_action_body(&body).unwrap();
    let refused = node
        .run_live_op(&mut guests, Some(&header), "l_missing", &op)
        .unwrap_err();
    assert_eq!(refused.status, 404);

    let refused = node.lease_view_info(Some(&header), "l_missing").unwrap_err();
    assert_eq!(refused.status, 404);
}

#[test]
fn screenshot_and_view_require_lease_bearer() {
    let node = eligible_state();
    let refused = node
        .plan_live_op(None, "l_x", &GuestOp::Screenshot)
        .unwrap_err();
    assert_eq!(refused, error(401, "missing bearer token"));
}

#[test]
fn end_lease_tears_down_loopback_view() {
    let mut node = eligible_state();
    let mut guests = MemoryGuest::default();
    let header = pair_token(&mut node);
    let lease = created(&mut node, &mut guests, &header);
    let viewer = lease.viewer_url.clone().expect("viewer_url");
    assert!(
        viewer.starts_with("http://127.0.0.1:"),
        "view must be loopback: {viewer}"
    );
    assert!(!viewer.contains("0.0.0.0"), "{viewer}");

    let png = node
        .run_live_op(&mut guests, Some(&header), &lease.id.0, &GuestOp::Screenshot)
        .unwrap();
    let png = png_reply(png).unwrap();
    assert!(png.starts_with(&PNG_MAGIC), "guest PNG");

    let ended = node.end_lease(&mut guests, Some(&header), &lease.id.0).unwrap();
    let mut view = ended.view.expect("view");
    assert_eq!(view.addr, loopback(6080));
    assert!(!view.serving);
    assert!(!view.stop());
    assert!(guests.live.is_empty());

    let refused = node
        .run_live_op(&mut guests, Some(&header), &lease.id.0, &GuestOp::Screenshot)
        .unwrap_err();
    assert_eq!(refused, error(404, "no live lease"));
    assert_eq!(
        node.get_lease(Some(&header), &lease.id.0).unwrap_err(),
        error(404, "lease not found")
    );
}

#[test]
fn a_node_leases_one_guest_at_a_time_and_then_again() {
    let mut node = eligible_state();
    let mut guests = MemoryGuest::default();
    let header = pair_token(&mut node);
    let lease = created(&mut node, &mut guests, &header);
    assert_eq!(guests.live, [format!("memory-{}", lease.id.0)]);
    assert_eq!(
        node.create_lease(&mut guests, Some(&header), &request(GuestOs::Linux)),
        Err(error(409, "a lease is already live"))
    );
    assert_eq!(
        node.unpark(Some(&header)),
        Err(error(409, "cannot unpark while a lease is live"))
    );
    assert_eq!(
        node.end_lease(&mut guests, Some(&header), "l_other").unwrap_err(),
        error(404, "lease not found")
    );
    assert_eq!(guests.live, [format!("memory-{}", lease.id.0)]);
    assert_eq!(node.get_lease(Some(&header), &lease.id.0), Ok(lease.clone()));
    assert_eq!(node.list_leases(Some(&header)).unwrap(), [lease.clone()]);
    node.end_lease(&mut guests, Some(&header), &lease.id.0).unwrap();
    assert!(node.list_leases(Some(&header)).unwrap().is_empty());
    assert!(node.parked);
    created(&mut node, &mut guests, &header);
}

#[test]
fn ineligible_nodes_neither_park_nor_lease() {
    let mut facts = eligible_private_facts();
    facts.class = NodeClass::Laptop;
    let mut node = new_state(default_facts_config(), &facts);
    assert!(node.live_eligibility);
    let header = pair_token(&mut node);
    let ineligible = error(403, "node is ineligible; run berth doctor");
    assert_eq!(node.park(Some(&header)), Err(error(403, "node is ineligible; run berth doctor")));
    assert_eq!(
        node.create_lease(
            &mut MemoryGuest::default(),
            Some(&header),
            &request(GuestOs::Linux)
        ),
        Err(ineligible)
    );
    assert!(!node.node_status().eligible);
    assert!(node.eligibility(&eligible_private_facts()).eligible);
    assert!(node.park(Some(&header)).is_ok());
}

#[test]
fn zero_resources_are_a_bad_request() {
    let mut node = eligible_state();
    let header = pair_token(&mut node);
    let mut body = request(GuestOs::Linux);
    body.disk_gib = Some(0);
    assert_eq!(
        node.plan_lease(Some(&header), &body).unwrap_err(),
        error(400, "disk_gib must be > 0")
    );
    body.mem_gib = Some(0);
    assert_eq!(
        node.plan_lease(Some(&header), &body).unwrap_err(),
        error(400, "mem_gib must be > 0 (0 is not unlimited)")
    );
    body.vcpu = Some(0);
    assert_eq!(
        node.plan_lease(Some(&header), &body).unwrap_err(),
        error(400, "vcpu must be > 0 (0 is not unlimited)")
    );
}

#[test]
fn plans_follow_the_request() {
    let mut node = eligible_state();
    let header = pair_token(&mut node);
    let plan = node.plan_lease(Some(&header), &request(GuestOs::Linux)).unwrap();
    assert_eq!(plan.spec.image, "berthos-linux-desktop:v1");
    assert_eq!((plan.spec.vcpu, plan.spec.mem_gib, plan.quote.disk_gib), (2, 4, 40));
    let body = CreateLeaseRequest {
        os: GuestOs::Linux,
        vcpu: Some(7),
        mem_gib: Some(8),
        disk_gib: Some(9),
    };
    let plan = node.plan_lease(Some(&header), &body).unwrap();
    assert_eq!((plan.spec.vcpu, plan.spec.mem_gib, plan.quote.disk_gib), (7, 8, 9));
    assert!(plan.id.0.starts_with("l_"));
    let (_, args) = isolated_run_args(&plan.id, &plan.spec);
    assert!(!args_violate_isolation(&args));

    let failed = node.install_lease(
        plan,
        Err(GuestError::Runtime("no image".into())),
        Timestamp::now_utc(),
    );
    assert_eq!(failed, Err(error(503, "guest runtime: no image")));
    assert!(node.live.is_none());

    let plan = node.plan_lease(Some(&header), &body).unwrap();
    let id = plan.id.clone();
    let handle = GuestHandle {
        container: "c".into(),
    };
    let now = Timestamp::from_unix_timestamp(5).unwrap();
    assert_eq!(node.install_lease(plan, Ok(handle), now), Ok(id.clone()));
    let lease = node.get_lease(Some(&header), &id.0).unwrap();
    assert_eq!(lease.started_at, now);
    assert_eq!(lease.state, LeaseState::Live);
    assert_eq!(lease.viewer_url, None);
    assert_eq!(
        node.lease_view_info(Some(&header), &id.0).unwrap_err(),
        error(404, "lease has no guest view")
    );
}

struct BrokenGuest;

impl GuestRuntime for BrokenGuest {
    fn start(&mut self, _: &LeaseId, _: &GuestSpec) -> Result<GuestHandle, GuestError> {
        Err(GuestError::Isolation("leaky".into()))
    }

    fn destroy(&mut self, _: &GuestHandle) -> Result<(), GuestError> {
        Ok(())
    }

    fn exec(&mut self, _: &GuestHandle, _: &Vec<String>) -> Result<Vec<u8>, GuestError> {
        Err(GuestError::Runtime("dead".into()))
    }
}

#[test]
fn a_guest_that_does_not_start_leaves_no_lease() {
    let mut node = eligible_state();
    let header = pair_token(&mut node);
    assert_eq!(
        node.create_lease(&mut BrokenGuest, Some(&header), &request(GuestOs::Linux)),
        Err(error(503, "guest isolation: leaky"))
    );
    assert!(node.live.is_none());
    let lease = created(&mut node, &mut MemoryGuest::default(), &header);
    assert_eq!(
        node.run_live_op(&mut BrokenGuest, Some(&header), &lease.id.0, &GuestOp::Screenshot),
        Err(error(502, "guest runtime: dead"))
    );
}

#[test]
fn a_view_that_does_not_start_takes_the_lease_with_it() {
    let mut node = eligible_state();
    let mut guests = MemoryGuest::default();
    let header = pair_token(&mut node);
    let id = node
        .create_lease(&mut guests, Some(&header), &request(GuestOs::Linux))
        .unwrap();
    assert_eq!(guests.live, [format!("memory-{}", id.0)]);
    let outcome = node.view_started(&mut guests, &id, Err(ViewError::Bind("in use".into())));
    assert_eq!(
        outcome,
        Viewed::Failed {
            error: error(503, "guest view bind: in use"),
            stop: None,
        }
    );
    assert!(node.live.is_none());
    assert!(guests.live.is_empty());

    let view = LoopbackView::start(Ok(loopback(1))).unwrap();
    match node.view_started(&mut guests, &id, Ok(view)) {
        Viewed::Failed { error: e, stop } => {
            assert_eq!(e, error(404, "lease not found"));
            assert!(stop.is_some());
        }
        other => panic!("{other:?}"),
    }
}

#[test]
fn another_lease_is_left_alone() {
    let mut node = eligible_state();
    let mut guests = MemoryGuest::default();
    let header = pair_token(&mut node);
    let lease = created(&mut node, &mut guests, &header);
    let stranger = LeaseId("l_stranger".into());
    let view = LoopbackView::start(Ok(loopback(2)));
    match node.view_started(&mut guests, &stranger, view) {
        Viewed::Failed { error: e, stop } => {
            assert_eq!(e, error(409, "a lease is already live"));
            assert!(stop.is_some());
        }
        other => panic!("{other:?}"),
    }
    match node.view_started(&mut guests, &stranger, Err(ViewError::Bind("x".into()))) {
        Viewed::Failed { .. } => assert_eq!(guests.live.len(), 1),
        other => panic!("{other:?}"),
    }
    assert_eq!(node.get_lease(Some(&header), &lease.id.0), Ok(lease));
}

#[test]
fn tokens_are_checked() {
    let mut node = eligible_state();
    let header = pair_token(&mut node);
    assert!(node.require_token(Some(&header), Capability::Operator).is_ok());
    for bad in [None, Some("bearer abc"), Some("abc")] {
        assert_eq!(
            node.require_token(bad, Capability::Lease),
            Err(error(401, "missing bearer token"))
        );
    }
    assert_eq!(
        node.require_token(Some("Bearer nope"), Capability::Lease),
        Err(error(401, "unknown pairing token"))
    );
    assert_eq!(
        node.pair("wrong").unwrap_err(),
        error(403, "pairing code rejected")
    );
}

#[test]
fn pairing_says_what_it_grants() {
    let mut node = eligible_state();
    let code = node.pairing.code.clone();
    let response = node.pair(&code.to_lowercase()).unwrap();
    assert_eq!(response.capabilities, ["operator", "lease"]);
}

#[test]
fn node_status_says_who_it_is() {
    let mut node = eligible_state();
    let mut guests = MemoryGuest::default();
    let header = pair_token(&mut node);
    let status = node.node_status();
    assert_eq!(status.protocol, "v1");
    assert!(status.parked && status.eligible);
    assert_eq!(status.bind, "127.0.0.1:7432");
    assert_eq!(status.class, NodeClass::VmGuest);
    assert_eq!(status.live_lease, None);
    assert!(status.settlement.starts_with("quoted, not charged"));
    let lease = created(&mut node, &mut guests, &header);
    assert_eq!(node.node_status().live_lease, Some(lease.id.clone()));
    let info = node.lease_view_info(Some(&header), &lease.id.0).unwrap();
    assert_eq!(info.viewer_url, "http://127.0.0.1:6080/");
    assert_eq!(info.target, "guest");
    assert_eq!(info.token, "Authorization: Bearer <lease token from POST /v1/pair>");
}

#[test]
fn action_bodies() {
    let body = |op: &str| ActionBody {
        op: op.into(),
        x: Some(1),
        y: Some(2),
        button: Some("right".into()),
        text: Some("hi".into()),
        keys: Some(vec!["a".into()]),
    };
    assert!(matches!(
        parse_action_body(&body("click")),
        Ok(GuestOp::Click { x: 1, y: 2, .. })
    ));
    assert_eq!(
        parse_action_body(&body("type")),
        Ok(GuestOp::Type { text: "hi".into() })
    );
    assert_eq!(
        parse_action_body(&body("key")),
        Ok(GuestOp::Key {
            keys: vec!["a".into()]
        })
    );
    assert_eq!(parse_action_body(&body("screenshot")), Ok(GuestOp::Screenshot));
    assert_eq!(
        parse_action_body(&body("drag")),
        Err(error(400, "unknown op `drag`"))
    );
    let mut bad = body("click");
    bad.button = Some("fourth".into());
    assert_eq!(
        parse_action_body(&bad),
        Err(error(400, "unknown button `fourth`; expected left, right, or middle"))
    );
    bad.y = None;
    assert_eq!(parse_action_body(&bad), Err(error(400, "y is required")));
    bad.x = None;
    assert_eq!(parse_action_body(&bad), Err(error(400, "x is required")));
    bad.op = "type".into();
    bad.text = None;
    assert_eq!(parse_action_body(&bad), Err(error(400, "text is required")));
    bad.op = "key".into();
    bad.keys = None;
    assert_eq!(parse_action_body(&bad), Err(error(400, "keys is required")));
}

#[test]
fn ops_that_reach_the_host_are_refused() {
    assert_eq!(
        guest_argv(&GuestOp::Type {
            text: "DISPLAY=:0".into()
        }),
        Err(error(403, "refusing to target the host display"))
    );
    assert_eq!(
        guest_argv(&GuestOp::Type { text: "".into() }),
        Err(error(400, "text is empty"))
    );
    assert_eq!(
        guest_argv(&GuestOp::Screenshot).unwrap(),
        ["/usr/local/bin/driver", "screenshot"]
    );
}

#[test]
fn replies() {
    assert_eq!(exec_reply(Ok(Ok(vec![1]))), Ok(vec![1]));
    assert_eq!(
        exec_reply(Ok(Err(GuestError::Runtime("x".into())))),
        Err(error(502, "guest runtime: x"))
    );
    assert_eq!(exec_reply(Err("panicked".into())), Err(error(500, "panicked")));
    assert_eq!(png_reply(MINIMAL_PNG.to_vec()), Ok(MINIMAL_PNG.to_vec()));
    assert_eq!(
        png_reply(b"GIF89a".to_vec()),
        Err(error(502, "guest screenshot was not a PNG"))
    );
    assert_eq!(health().get("protocol").and_then(Json::as_str), Some("v1"));
    assert_eq!(health().get("ok").and_then(Json::as_bool), Some(true));
    assert_eq!(action_reply().get("target").and_then(Json::as_str), Some("guest"));
    assert_eq!(
        error(404, "gone").body().get("error").and_then(Json::as_str),
        Some("gone")
    );
}

/// A runtime that notes what it is asked.
#[derive(Default)]
struct Ledger {
    started: Vec<(LeaseId, GuestSpec)>,
    ran: Vec<(GuestHandle, Vec<String>)>,
    destroyed: Vec<GuestHandle>,
}

impl GuestRuntime for Ledger {
    fn start(&mut self, id: &LeaseId, spec: &GuestSpec) -> Result<GuestHandle, GuestError> {
        self.started.push((id.clone(), spec.clone()));
        Ok(GuestHandle { container: "box".into() })
    }

    fn destroy(&mut self, handle: &GuestHandle) -> Result<(), GuestError> {
        self.destroyed.push(handle.clone());
        Err(GuestError::Runtime("stuck".into()))
    }

    fn exec(&mut self, handle: &GuestHandle, argv: &Vec<String>) -> Result<Vec<u8>, GuestError> {
        self.ran.push((handle.clone(), argv.clone()));
        Ok(vec![1, 2, 3])
    }
}

#[test]
fn the_runtime_is_asked_for_the_planned_guest_once() {
    let mut node = eligible_state();
    let mut guests = Ledger::default();
    let header = pair_token(&mut node);
    let mut body = request(GuestOs::Linux);
    body.vcpu = Some(3);
    let id = node.create_lease(&mut guests, Some(&header), &body).unwrap();
    let spec = GuestSpec {
        image: node.config.image.clone(),
        vcpu: 3,
        mem_gib: 4,
    };
    assert_eq!(guests.started, [(id.clone(), spec)]);
    let handle = GuestHandle { container: "box".into() };
    assert_eq!(node.live.as_ref().unwrap().handle, handle);

    let op = GuestOp::Screenshot;
    let bytes = node.run_live_op(&mut guests, Some(&header), &id.0, &op);
    assert_eq!(bytes, Ok(vec![1, 2, 3]));
    let argv = guest_argv(&op).unwrap();
    assert_eq!(guests.ran, [(handle.clone(), argv)]);

    let ended = node.end_lease(&mut guests, Some(&header), &id.0).unwrap();
    assert_eq!(guests.destroyed, [handle]);
    assert_eq!(ended.destroyed, Err(GuestError::Runtime("stuck".into())));
    assert!(node.live.is_none());
}

#[test]
fn a_refused_request_leaves_the_runtime_alone() {
    let mut node = eligible_state();
    let mut guests = MemoryGuest::default();
    let header = pair_token(&mut node);
    let mut body = request(GuestOs::Linux);
    body.vcpu = Some(0);
    assert_eq!(
        node.create_lease(&mut guests, Some(&header), &body),
        Err(error(400, "vcpu must be > 0 (0 is not unlimited)"))
    );
    assert!(node.live.is_none());
    assert!(guests.live.is_empty());

    let mut guests = Ledger::default();
    assert_eq!(
        node.create_lease(&mut guests, None, &request(GuestOs::Linux)),
        Err(error(401, "missing bearer token"))
    );
    assert_eq!(
        node.run_live_op(&mut guests, Some(&header), "l_x", &GuestOp::Screenshot),
        Err(error(404, "no live lease"))
    );
    assert_eq!(
        node.end_lease(&mut guests, None, "l_x"),
        Err(error(401, "missing bearer token"))
    );
    assert!(guests.started.is_empty() && guests.ran.is_empty() && guests.destroyed.is_empty());
}

#[test]
fn a_pairing_code_works_once() {
    let mut node = eligible_state();
    let code = node.pairing.code.clone();
    let token = node.pair(&code).unwrap().token;
    assert_ne!(node.pairing.code, code);
    let header = format!("Bearer {token}");
    assert!(node.require_token(Some(&header), Capability::Lease).is_ok());
    assert_eq!(node.pair(&code), Err(error(403, "pairing code rejected")));
    assert_eq!(node.pair(&code.to_lowercase()), Err(error(403, "pairing code rejected")));
    assert!(node.require_token(Some(&header), Capability::Operator).is_ok());
}
