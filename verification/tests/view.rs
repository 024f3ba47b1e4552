//! The lease-scoped viewer.

use berthos::action::GuestOp;
use berthos::addr::{IpAddr, IpBits, SocketAddr};
use berthos::doctor::{eligible_private_facts, evaluate};
use berthos::eligibility::GuestOs;
use berthos::guest::MemoryGuest;
use berthos::http::{new_state_with_report, ActionBody, ApiError, NodeInner};
use berthos::probes::default_facts_config;
use berthos::session::{CreateLeaseRequest, LeaseId};
use berthos::view::{
    bearer_or_query, guest_file, novnc_page, parse_op, require_lease, run_op,
    view_bind_is_loopback, view_guest, vnc_proxy_args, LoopbackView, NovncPage, ViewError,
};

fn addr(octets: [u8; 4], text: &str, port: u16) -> SocketAddr {
    SocketAddr {
        ip: IpAddr {
            bits: IpBits::V4(octets),
            text: text.into(),
        },
        port,
    }
}

fn leased() -> (NodeInner, LeaseId, String) {
    let report = evaluate(&eligible_private_facts());
    let mut node = new_state_with_report(default_facts_config(), report);
    let code = node.pairing.code.clone();
    let token = node.pair(&code).unwrap().token;
    let request = CreateLeaseRequest {
        os: GuestOs::Linux,
        vcpu: None,
        mem_gib: None,
        disk_gib: None,
    };
    let header = format!("Bearer {token}");
    let id = node
        .create_lease(&mut MemoryGuest::default(), Some(&header), &request)
        .unwrap();
    (node, id, token)
}

#[test]
fn loopback_predicate() {
    let loopback = addr([127, 0, 0, 1], "127.0.0.1", 9);
    assert!(view_bind_is_loopback(&loopback));
    let all = addr([0, 0, 0, 0], "0.0.0.0", 6080);
    assert!(!view_bind_is_loopback(&all));
}

#[test]
fn token_from_header_or_query() {
    assert_eq!(
        bearer_or_query(Some("Bearer abc"), None).as_deref(),
        Some("abc")
    );
    assert_eq!(bearer_or_query(None, Some("xyz")).as_deref(), Some("xyz"));
    assert!(bearer_or_query(None, None).is_none());
}

#[test]
fn the_header_comes_first_and_blank_queries_do_not_count() {
    assert_eq!(
        bearer_or_query(Some("Bearer abc"), Some("xyz")).as_deref(),
        Some("abc")
    );
    assert_eq!(bearer_or_query(Some("Basic abc"), Some(" xyz ")).as_deref(), Some("xyz"));
    assert!(bearer_or_query(None, Some("  ")).is_none());
}

#[test]
fn viewers_start_on_loopback_only() {
    let view = LoopbackView::start(Ok(addr([127, 0, 0, 1], "127.0.0.1", 41000))).unwrap();
    assert_eq!(view.url(), "http://127.0.0.1:41000/");
    let error = LoopbackView::start(Ok(addr([0, 0, 0, 0], "0.0.0.0", 1))).unwrap_err();
    assert_eq!(error.message(), "guest view refused bind-all (0.0.0.0:1)");
    assert_eq!(
        LoopbackView::start(Err("in use".into())),
        Err(ViewError::Bind("in use".into()))
    );
}

#[test]
fn viewers_serve_their_own_lease() {
    let (node, id, token) = leased();
    let header = format!("Bearer {token}");
    assert!(require_lease(&node, &id, Some(&header), None).is_ok());
    assert!(require_lease(&node, &id, None, Some(&token)).is_ok());
    assert_eq!(
        require_lease(&node, &id, None, None),
        Err(ApiError::new(
            401,
            "missing lease bearer (Authorization: Bearer or ?token=)"
        ))
    );
    assert_eq!(
        require_lease(&node, &id, None, Some("nope")),
        Err(ApiError::new(401, "unknown pairing token"))
    );
    let other = LeaseId("l_other".into());
    assert_eq!(
        require_lease(&node, &other, Some(&header), None),
        Err(ApiError::new(404, "no live lease for this view"))
    );
    assert_eq!(
        view_guest(&node, &id).unwrap().container,
        format!("memory-{}", id.0)
    );
}

#[test]
fn viewer_ops_stay_in_the_guest() {
    let (node, id, _) = leased();
    let (handle, argv) = run_op(&node, &id, &GuestOp::Screenshot).unwrap();
    assert_eq!(handle.container, format!("memory-{}", id.0));
    assert_eq!(argv, ["/usr/local/bin/driver", "screenshot"]);
    assert_eq!(
        run_op(&node, &LeaseId("l_x".into()), &GuestOp::Screenshot),
        Err(ApiError::new(404, "no live lease for this view"))
    );
    assert_eq!(
        run_op(
            &node,
            &id,
            &GuestOp::Type {
                text: "/tmp/.X11-unix".into()
            }
        ),
        Err(ApiError::new(403, "refusing to target the host display"))
    );
}

#[test]
fn guest_files_are_never_host_displays() {
    let (mut node, id, _) = leased();
    let (handle, argv) = guest_file(&node, "/usr/share/novnc/vnc.html").unwrap();
    assert_eq!(handle.container, format!("memory-{}", id.0));
    assert_eq!(argv, ["cat", "/usr/share/novnc/vnc.html"]);
    for path in ["/tmp/.X11-unix/X0", "/run/wayland-0"] {
        assert_eq!(guest_file(&node, path), Err(ApiError::new(403, "refused")));
    }
    node.live = None;
    assert_eq!(
        guest_file(&node, "/tmp/.X11-unix/X0"),
        Err(ApiError::new(404, "no live lease"))
    );
}

#[test]
fn novnc_falls_back_to_the_built_in_page() {
    assert_eq!(novnc_page(Ok(vec![1, 2])), NovncPage::Guest(vec![1, 2]));
    assert_eq!(novnc_page(Ok(vec![])), NovncPage::BuiltIn);
    assert_eq!(novnc_page(Err(ApiError::new(502, "x"))), NovncPage::BuiltIn);
}

#[test]
fn vnc_goes_through_docker_exec() {
    assert_eq!(
        vnc_proxy_args("c"),
        ["exec", "-i", "c", "socat", "STDIO", "TCP:127.0.0.1:5900"]
    );
}

#[test]
fn viewer_action_bodies() {
    let body = ActionBody {
        op: "type".into(),
        x: None,
        y: None,
        button: None,
        text: Some("hello".into()),
        keys: None,
    };
    assert_eq!(parse_op(&body), Ok(GuestOp::Type { text: "hello".into() }));
}
