//! The fail-closed eligibility doctor.

use berthos::clock::Timestamp;
use berthos::doctor::{eligible_private_facts, evaluate, evaluate_at};
use berthos::eligibility::{
    Chassis, CheckId, CheckStatus, EgressPolicy, GuestImage, GuestOs, Intent, NodeClass,
    ATTESTATION_SOURCE, REQUIRED_DESKTOP_LABEL, REQUIRED_EGRESS_POLICY, REQUIRED_GUEST_IMAGE,
    REQUIRED_GUEST_VERSION,
};
use berthos::json::Json;

#[test]
fn laptop_class_rejected() {
    let mut facts = eligible_private_facts();
    facts.class = NodeClass::Laptop;
    let report = evaluate(&facts);
    assert!(!report.eligible, "laptop must fail closed");
    assert!(report.failed(CheckId::Class));
    assert!(report
        .failure_detail(CheckId::Class)
        .unwrap()
        .contains("class=laptop"));
}

#[test]
fn missing_image_rejected() {
    let mut facts = eligible_private_facts();
    facts.guest_image = None;
    let report = evaluate(&facts);
    assert!(!report.eligible);
    assert!(report.failed(CheckId::GuestImage));
    assert!(report
        .failure_detail(CheckId::GuestImage)
        .unwrap()
        .contains("missing"));
}

#[test]
fn unlabeled_image_rejected() {
    let mut facts = eligible_private_facts();
    facts.guest_image = Some(GuestImage {
        name: "old-desktop:dev".into(),
        version_label: String::new(),
        desktop_label: "something".into(),
        egress_label: String::new(),
    });
    let report = evaluate(&facts);
    assert!(!report.eligible);
    assert!(report.failed(CheckId::GuestImage));
}

#[test]
fn bind_all_rejected() {
    let mut facts = eligible_private_facts();
    facts.bind_is_loopback = false;
    facts.bind_display = "0.0.0.0:7432".into();
    let report = evaluate(&facts);
    assert!(!report.eligible);
    assert!(report.failed(CheckId::Bind));
    assert!(report
        .failure_detail(CheckId::Bind)
        .unwrap()
        .contains("bind-all"));
}

#[test]
fn eligible_private_fixture_passes() {
    let report = evaluate(&eligible_private_facts());
    assert!(report.eligible, "{report:?}");
    assert!(!report.failed(CheckId::Tunnel));
    assert!(report
        .checks
        .iter()
        .any(|c| c.id == CheckId::Tunnel && c.status == CheckStatus::Warn));
}

#[test]
fn public_laptop_chassis_rejected() {
    let mut facts = eligible_private_facts();
    facts.intent = Intent::Public;
    facts.chassis = Chassis::Laptop;
    let report = evaluate(&facts);
    assert!(!report.eligible);
    assert!(report.failed(CheckId::Chassis));
}

#[test]
fn public_windows_oem_rejected() {
    let mut facts = eligible_private_facts();
    facts.intent = Intent::Public;
    facts.guest_os = GuestOs::WindowsHomeOem;
    let report = evaluate(&facts);
    assert!(!report.eligible);
    assert!(report.failed(CheckId::GuestOs));
}

#[test]
fn public_macos_rejected() {
    let mut facts = eligible_private_facts();
    facts.intent = Intent::Public;
    facts.guest_os = GuestOs::Macos;
    let report = evaluate(&facts);
    assert!(!report.eligible);
    assert!(report.failed(CheckId::GuestOs));
}

#[test]
fn default_allow_egress_rejected() {
    let mut facts = eligible_private_facts();
    facts.egress = EgressPolicy::DefaultAllow;
    let report = evaluate(&facts);
    assert!(!report.eligible);
    assert!(report.failed(CheckId::Egress));
}

#[test]
fn missing_runtime_rejected() {
    let mut facts = eligible_private_facts();
    facts.runtime_running = false;
    let report = evaluate(&facts);
    assert!(!report.eligible);
    assert!(report.failed(CheckId::Runtime));
}

#[test]
fn public_requires_wired_always_on() {
    let mut facts = eligible_private_facts();
    facts.intent = Intent::Public;
    facts.always_on = false;
    facts.wired = false;
    let report = evaluate(&facts);
    assert!(!report.eligible);
    assert!(report.failed(CheckId::Availability));
}

#[test]
fn attestation_includes_ok_class_image_labels_and_timestamp() {
    let report = evaluate(&eligible_private_facts());
    assert!(report.ok);
    assert_eq!(report.ok, report.eligible);
    assert_eq!(report.class, NodeClass::VmGuest);
    assert_eq!(report.source, ATTESTATION_SOURCE);
    let image = report.image.expect("labeled fixture image");
    assert_eq!(image.name, REQUIRED_GUEST_IMAGE);
    assert_eq!(image.labels.guest_version, REQUIRED_GUEST_VERSION);
    assert_eq!(image.labels.desktop, REQUIRED_DESKTOP_LABEL);
    assert_eq!(image.labels.egress_policy, REQUIRED_EGRESS_POLICY);
    let timestamp =
        time::OffsetDateTime::from_unix_timestamp_nanos(report.timestamp.unix_nanos()).unwrap();
    assert!(timestamp.year() >= 2026);
}

#[test]
fn missing_image_attestation_is_null_and_not_ok() {
    let mut facts = eligible_private_facts();
    facts.guest_image = None;
    let report = evaluate(&facts);
    assert!(!report.ok);
    assert!(report.image.is_none());
}

#[test]
fn a_fixed_time_gives_a_fixed_report() {
    let when = Timestamp::from_unix_timestamp(1_700_000_000).unwrap();
    let report = evaluate_at(&eligible_private_facts(), when);
    assert_eq!(report, evaluate_at(&eligible_private_facts(), when));
    assert_eq!(report.timestamp, when);
    assert_eq!(report.protocol, "v1");
    let ids: Vec<&str> = report.checks.iter().map(|c| c.id.name()).collect();
    assert_eq!(ids.len(), 10);
    assert_eq!(ids[0], "class");
    assert_eq!(ids[9], "tunnel");
}

#[test]
fn a_tunnel_changes_nothing() {
    let mut facts = eligible_private_facts();
    facts.tunnel_present = true;
    assert!(evaluate(&facts).eligible);
    facts.class = NodeClass::Laptop;
    assert!(!evaluate(&facts).eligible);
}

#[test]
fn no_capacity_is_not_unlimited_capacity() {
    let mut facts = eligible_private_facts();
    facts.free_vcpu = 0;
    assert!(evaluate(&facts).failed(CheckId::Capacity));
    facts.free_vcpu = 2;
    facts.free_mem_gib = 3;
    assert!(evaluate(&facts).failed(CheckId::Capacity));
    facts.free_mem_gib = 4;
    assert!(!evaluate(&facts).failed(CheckId::Capacity));
    assert_eq!(evaluate(&facts).failure_detail(CheckId::Capacity), None);
}

#[test]
fn what_is_eligible_in_public_is_eligible_in_private() {
    let mut facts = eligible_private_facts();
    facts.intent = Intent::Public;
    assert!(evaluate(&facts).eligible);
    facts.intent = Intent::Private;
    assert!(evaluate(&facts).eligible);
}

#[test]
fn attestations_are_stored_as_documents() {
    let when = Timestamp::from_unix_timestamp(1_787_469_660).unwrap();
    let document = evaluate_at(&eligible_private_facts(), when).attest().unwrap();
    assert_eq!(document.text_field("protocol"), Some("v1"));
    assert_eq!(document.text_field("source"), Some("berthos.doctor"));
    assert_eq!(document.get("ok").and_then(Json::as_bool), Some(true));
    assert_eq!(document.get("eligible").and_then(Json::as_bool), Some(true));
    assert_eq!(document.text_field("class"), Some("vm-guest"));
    assert_eq!(document.text_field("intent"), Some("private"));
    assert_eq!(document.text_field("timestamp"), Some("2026-08-23T07:21:00Z"));
    let row = document.get("checks").and_then(|c| c.at(0)).unwrap();
    assert_eq!(row.text_field("id"), Some("class"));
    assert_eq!(row.text_field("status"), Some("pass"));
    assert_eq!(
        row.text_field("detail"),
        Some("class=vm-guest (isolated guest, not the host desktop)")
    );
    let image = document.get("image").unwrap();
    assert_eq!(image.text_field("name"), Some("berthos-linux-desktop:v1"));
    let labels = image.get("labels").unwrap();
    assert_eq!(labels.text_field("berthos.guest.version"), Some("v1"));
    assert_eq!(labels.text_field("berthos.desktop"), Some("xvfb-openbox-chromium"));
    assert_eq!(labels.text_field("berthos.egress.policy"), Some("default-deny"));
}

#[test]
fn a_missing_image_is_stored_as_null() {
    let mut facts = eligible_private_facts();
    facts.guest_image = None;
    facts.class = NodeClass::Laptop;
    facts.intent = Intent::Public;
    let document = evaluate(&facts).attestation("then");
    assert!(matches!(document.get("image"), Some(Json::Null)));
    assert_eq!(document.get("ok").and_then(Json::as_bool), Some(false));
    assert_eq!(document.text_field("class"), Some("laptop"));
    assert_eq!(document.text_field("intent"), Some("public"));
    assert_eq!(document.text_field("timestamp"), Some("then"));
}

#[test]
fn years_before_the_common_era_have_no_rfc3339_text() {
    let early = Timestamp::from_unix_timestamp(-100_000_000_000).unwrap();
    assert!(evaluate_at(&eligible_private_facts(), early).attest().is_err());
    let epoch = Timestamp::from_unix_timestamp(0).unwrap();
    assert_eq!(epoch.print_rfc3339().as_deref(), Ok("1970-01-01T00:00:00Z"));
}
