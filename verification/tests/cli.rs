//! What the command line accepts and prints.

use berthos::addr::{IpAddr, IpBits, SocketAddr};
use berthos::cli::{
    doctor_exit, lease_lines, node_up_allowed, node_up_config, node_up_lines, pair_body,
    pair_token, pair_url, paired_lines, parse_os, print_report, receipt_lines, simulated_report,
    up_request, up_url, view_link,
};
use berthos::clock::Timestamp;
use berthos::doctor::{eligible_private_facts, evaluate};
use berthos::eligibility::{GuestOs, Intent, NodeClass};
use berthos::json::{object1, Json};
use berthos::probes::default_facts_config;
use berthos::session::{EndReason, Lease, LeaseId, LeaseState, Quote, Receipt};
use berthos::NodeError;

fn lease() -> Lease {
    Lease {
        id: LeaseId("l_1".into()),
        state: LeaseState::Live,
        quote: Quote::linux_isolated(2, 4, 40).unwrap(),
        started_at: Timestamp::from_unix_timestamp(100).unwrap(),
        ended_at: None,
        viewer_url: Some("http://127.0.0.1:6080/".into()),
    }
}

#[test]
fn guest_os_names() {
    assert_eq!(parse_os("Linux"), Ok(GuestOs::Linux));
    assert_eq!(parse_os("mac"), Ok(GuestOs::Macos));
    assert_eq!(parse_os("MACOS"), Ok(GuestOs::Macos));
    assert_eq!(parse_os("windows"), Ok(GuestOs::WindowsHomeOem));
    assert_eq!(parse_os("windows-home-oem"), Ok(GuestOs::WindowsHomeOem));
    assert_eq!(parse_os("windows-pro-oem"), Ok(GuestOs::WindowsProOem));
    assert_eq!(
        parse_os("BeOS"),
        Err("unknown --os beos; v1 accepts linux".into())
    );
}

#[test]
fn up_asks_for_the_default_linux_guest() {
    let request = up_request("linux").unwrap();
    assert_eq!(request.os, GuestOs::Linux);
    assert_eq!(request.vcpu, Some(2));
    assert_eq!(request.mem_gib, Some(4));
    assert_eq!(request.disk_gib, Some(40));
    assert_eq!(up_request("macos").unwrap_err(), "v1 only accepts --os linux");
    assert_eq!(
        up_request("os/2").unwrap_err(),
        "unknown --os os/2; v1 accepts linux"
    );
}

#[test]
fn requests_go_to_the_right_node() {
    assert_eq!(up_url(None, "http://a//"), "http://a/v1/leases");
    assert_eq!(up_url(Some("http://b/"), "http://a"), "http://b/v1/leases");
    assert_eq!(
        pair_url("http://a/"),
        ("http://a".to_string(), "http://a/v1/pair".to_string())
    );
    assert_eq!(pair_body("ABCD-EFGH").text_field("code"), Some("ABCD-EFGH"));
}

#[test]
fn pair_answers() {
    assert_eq!(pair_token(&object1("token", Json::string("t"))), Ok("t".into()));
    assert_eq!(
        pair_token(&object1("token", Json::integer(1))),
        Err("pair response missing token".into())
    );
    assert_eq!(
        paired_lines("http://a", "/h/client.toml"),
        [
            "paired with http://a",
            "token stored in /h/client.toml (mode 0600)",
            "quoted occupancy is not charged in this repo"
        ]
    );
}

#[test]
fn reports_are_printed_row_by_row() {
    let mut facts = eligible_private_facts();
    let lines = print_report(&evaluate(&facts));
    assert_eq!(lines.len(), 15);
    assert_eq!(lines[0], "Berthos doctor (fail-closed)  intent=Private");
    assert_eq!(lines[1], "");
    assert!(lines[2].starts_with("  [pass] class "), "{}", lines[2]);
    assert!(lines[11].starts_with("  [warn] tunnel "), "{}", lines[11]);
    assert_eq!(lines[13], "eligible: yes");
    facts.class = NodeClass::Laptop;
    facts.intent = Intent::Public;
    let lines = print_report(&evaluate(&facts));
    assert_eq!(lines[0], "Berthos doctor (fail-closed)  intent=Public");
    assert!(lines[2].starts_with("  [FAIL] class "), "{}", lines[2]);
    assert!(lines[13].starts_with("eligible: no"), "{}", lines[13]);
}

#[test]
fn the_doctor_exits_nonzero_for_an_ineligible_node() {
    assert_eq!(doctor_exit(&evaluate(&eligible_private_facts())), 0);
    let report = simulated_report("laptop").unwrap();
    assert_eq!(doctor_exit(&report), 1);
    assert!(node_up_allowed(&evaluate(&eligible_private_facts())).is_ok());
    assert_eq!(
        node_up_allowed(&report),
        Err("node refused to start: eligibility doctor failed closed".into())
    );
    assert!(simulated_report("eligible").is_err());
}

#[test]
fn node_up_overrides_the_saved_config() {
    let config =
        node_up_config(default_facts_config(), Intent::Public, IpAddr::localhost(), 9).unwrap();
    assert_eq!(config.intent, Intent::Public);
    assert_eq!(config.port, 9);
    assert_eq!(config.image, default_facts_config().image);
    let all = IpAddr {
        bits: IpBits::V4([0, 0, 0, 0]),
        text: "0.0.0.0".into(),
    };
    assert_eq!(
        node_up_config(default_facts_config(), Intent::Private, all.clone(), 9),
        Err(NodeError::BindAllRejected(all))
    );
}

#[test]
fn node_up_prints_how_to_go_on() {
    let bind = SocketAddr {
        ip: IpAddr::localhost(),
        port: 7432,
    };
    let lines = node_up_lines("ABCD-EFGH", &bind);
    assert_eq!(lines[0], "pairing code: ABCD-EFGH");
    assert_eq!(lines[1], "listening on http://127.0.0.1:7432");
    assert_eq!(lines[2], "eligibility: GET http://127.0.0.1:7432/v1/eligibility");
    assert_eq!(
        lines[4],
        "next: berth pair --code ABCD-EFGH   then   berth up --os linux"
    );
}

#[test]
fn leases_and_receipts_are_printed() {
    let lines = lease_lines(&lease());
    assert_eq!(lines[0], "lease l_1");
    assert_eq!(lines[1], "viewer http://127.0.0.1:6080/");
    assert_eq!(
        lines[2],
        "quote seconds occupancy-seconds (min 60s) notional $0.048/hr — not charged"
    );
    assert!(lines[3].starts_with("settlement: quoted, not charged"));
    let ended = Timestamp::from_unix_timestamp(175).unwrap();
    let receipt = Receipt::from_lease(&lease(), ended, EndReason::Graceful, "0.001000".into());
    assert_eq!(
        receipt_lines(&receipt)[1],
        "occupancy 75s billed 75s (min 60s) notional $0.001000 — not charged"
    );
}

#[test]
fn the_viewer_link_carries_the_bearer() {
    assert_eq!(
        view_link(&lease(), "abc"),
        Ok("http://127.0.0.1:6080/?token=abc".into())
    );
    let mut blind = lease();
    blind.viewer_url = None;
    assert_eq!(view_link(&blind, "abc"), Err("lease has no guest view".into()));
}
