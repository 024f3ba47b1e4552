//! Quotes, leases and receipts.

use berthos::cli::lease_lines;
use berthos::clock::Timestamp;
use berthos::eligibility::GuestOs;
use berthos::json::Json;
use berthos::session::{
    EndReason, Lease, LeaseId, LeaseState, OccupancyUnit, Quote, QuoteError, Receipt,
    SettlementHint, DEFAULT_MIN_SECONDS,
};
use serde_json::Value;

fn lease_started_at(started_at: Timestamp) -> Lease {
    Lease {
        id: LeaseId("l_test".into()),
        state: LeaseState::Live,
        quote: Quote::linux_isolated(2, 4, 40).unwrap(),
        started_at,
        ended_at: None,
        viewer_url: None,
    }
}

#[test]
fn occupancy_unit_is_seconds_not_clicks() {
    let quote = Quote::linux_isolated(2, 4, 40).expect("default shape");
    assert_eq!(quote.occupancy_unit, OccupancyUnit::Seconds);
    let encoded = serde_json::to_string(&value_of(&quote.to_json())).expect("json");
    assert!(encoded.contains("seconds"));
    assert!(!encoded.contains("click"));
}

#[test]
fn what_is_printed_of_a_lease_counts_seconds() {
    let lease = lease_started_at(Timestamp::from_unix_timestamp(0).unwrap());
    assert_eq!(lease.quote.occupancy_unit_label(), "seconds");
    let printed = lease_lines(&lease).join("\n");
    assert!(printed.contains("seconds"));
    assert!(!printed.contains("click"));
}

fn value_of(json: &Json) -> Value {
    match json {
        Json::Null => Value::Null,
        Json::Bool(b) => Value::Bool(*b),
        Json::Number(_, text) => serde_json::from_str(text).expect("number"),
        Json::Str(text) => Value::String(text.clone()),
        Json::Array(items) => Value::Array(items.iter().map(value_of).collect()),
        Json::Object(members) => Value::Object(
            members
                .iter()
                .map(|(key, value)| (key.clone(), value_of(value)))
                .collect(),
        ),
    }
}

fn document(text: &str) -> Value {
    serde_json::from_str(text).expect("document")
}

const QUOTE: &str = r#"{"vcpu":2,"mem_gib":4,"disk_gib":40,"os":"linux",
    "density":"isolated","min_seconds":60,"occupancy_unit":"seconds",
    "notional_usd_per_hour":"0.048","settlement":{"charged_here":false,
    "note":"quoted, not charged. listings and settlement live in https://github.com/hexuria/berth-market"}}"#;

#[test]
fn a_quote_has_its_document() {
    let mut quote = Quote::linux_isolated(2, 4, 40).unwrap();
    assert_eq!(value_of(&quote.to_json()), document(QUOTE));
    quote.min_seconds = u64::MAX;
    let json = quote.to_json();
    let seconds = json.get("min_seconds").unwrap();
    assert_eq!(*seconds, Json::Number(None, "18446744073709551615".into()));
    for (os, name) in [
        (GuestOs::Linux, "linux"),
        (GuestOs::WindowsHomeOem, "windows-home-oem"),
        (GuestOs::WindowsProOem, "windows-pro-oem"),
        (GuestOs::Macos, "macos"),
    ] {
        quote.os = os;
        assert_eq!(quote.to_json().text_field("os"), Some(name));
    }
}

#[test]
fn a_lease_has_its_document() {
    let mut lease = lease_started_at(Timestamp::from_unix_timestamp(1_700_000_000).unwrap());
    let text = format!(
        r#"{{"id":"l_test","state":"live","quote":{QUOTE},
            "started_at":"2023-11-14T22:13:20Z","ended_at":null}}"#
    );
    assert_eq!(value_of(&lease.to_json().unwrap()), document(&text));
    lease.state = LeaseState::Ended;
    lease.ended_at = Timestamp::from_unix_timestamp(1_700_000_012);
    lease.viewer_url = Some("http://127.0.0.1:9/".into());
    let text = format!(
        r#"{{"id":"l_test","state":"ended","quote":{QUOTE},"started_at":"2023-11-14T22:13:20Z",
            "ended_at":"2023-11-14T22:13:32Z","viewer_url":"http://127.0.0.1:9/"}}"#
    );
    assert_eq!(value_of(&lease.to_json().unwrap()), document(&text));
    let json = lease.to_json_at("then".into(), None);
    assert_eq!(json.text_field("started_at"), Some("then"));
    assert_eq!(json.get("ended_at"), Some(&Json::Null));
}

#[test]
fn a_receipt_has_its_document() {
    let lease = lease_started_at(Timestamp::from_unix_timestamp(1_700_000_000).unwrap());
    let ended = Timestamp::from_unix_timestamp(1_700_000_100).unwrap();
    let receipt = Receipt::from_lease(&lease, ended, EndReason::Graceful, "0.001333".into());
    let text = r#"{"lease_id":"l_test","occupancy_seconds":100,"min_seconds":60,
        "billed_seconds":100,"occupancy_unit":"seconds","notional_usd":"0.001333",
        "reason":"graceful","settlement":{"charged_here":false,
        "note":"quoted, not charged. listings and settlement live in https://github.com/hexuria/berth-market"}}"#;
    assert_eq!(value_of(&receipt.to_json()), document(text));
}

#[test]
fn quote_rejects_zero_resources() {
    assert_eq!(Quote::linux_isolated(0, 4, 40), Err(QuoteError::ZeroVcpu));
    assert_eq!(Quote::linux_isolated(2, 0, 40), Err(QuoteError::ZeroMemory));
}

#[test]
fn receipt_meters_seconds_and_applies_minimum() {
    let started = Timestamp::from_unix_timestamp(1_700_000_000).unwrap();
    let lease = lease_started_at(started);
    let ended = Timestamp::from_unix_timestamp(1_700_000_000 + 12).unwrap();
    let receipt = Receipt::from_lease(&lease, ended, EndReason::Graceful, "0.000800".into());
    assert_eq!(receipt.occupancy_seconds, 12);
    assert_eq!(receipt.billed_seconds, DEFAULT_MIN_SECONDS);
    assert_eq!(receipt.occupancy_unit, OccupancyUnit::Seconds);
    assert!(!receipt.settlement.charged_here);
    assert!(receipt.settlement.note.contains("berth-market"));
}

#[test]
fn settlement_hint_never_claims_payment() {
    let hint = SettlementHint::not_charged_here();
    assert!(!hint.charged_here);
}

#[test]
fn disk_of_zero_is_rejected_too() {
    assert_eq!(Quote::linux_isolated(2, 4, 0), Err(QuoteError::ZeroDisk));
    assert_eq!(Quote::linux_isolated(0, 0, 0), Err(QuoteError::ZeroVcpu));
    assert_eq!(
        QuoteError::ZeroVcpu.message(),
        "vcpu must be > 0 (0 is not unlimited)"
    );
    assert_eq!(
        QuoteError::ZeroMemory.message(),
        "mem_gib must be > 0 (0 is not unlimited)"
    );
    assert_eq!(QuoteError::ZeroDisk.message(), "disk_gib must be > 0");
}

#[test]
fn longer_leases_are_billed_in_full() {
    let started = Timestamp::from_unix_nanos(1_000_000_000_500_000_000).unwrap();
    let lease = lease_started_at(started);
    let ended = Timestamp::from_unix_nanos(1_000_000_100_499_999_999).unwrap();
    let receipt = Receipt::from_lease(&lease, ended, EndReason::Graceful, "x".into());
    assert_eq!(receipt.occupancy_seconds, 99);
    assert_eq!(receipt.billed_seconds, 99);
    assert_eq!(receipt.min_seconds, 60);
    assert_eq!(receipt.notional_usd, "x");
    assert_eq!(receipt.lease_id.0, "l_test");
}

#[test]
fn a_clock_that_runs_backwards_costs_the_minimum() {
    let started = Timestamp::from_unix_timestamp(1_700_000_000).unwrap();
    let lease = lease_started_at(started);
    let ended = Timestamp::from_unix_timestamp(1_600_000_000).unwrap();
    let receipt = Receipt::from_lease(&lease, ended, EndReason::Graceful, String::new());
    assert_eq!(receipt.occupancy_seconds, 0);
    assert_eq!(receipt.billed_seconds, 60);
}

#[test]
fn timestamps_stay_on_the_calendar() {
    assert!(Timestamp::from_unix_timestamp(253_402_300_799).is_some());
    assert!(Timestamp::from_unix_timestamp(253_402_300_800).is_none());
    assert!(Timestamp::from_unix_timestamp(-377_705_116_800).is_some());
    assert!(Timestamp::from_unix_timestamp(-377_705_116_801).is_none());
    let first = Timestamp::from_unix_timestamp(-377_705_116_800).unwrap();
    let last = Timestamp::from_unix_timestamp(253_402_300_799).unwrap();
    assert_eq!(first.seconds_until(&last), 631_107_417_599);
    let now = Timestamp::now_utc();
    assert!(now.unix_nanos() > 1_700_000_000_000_000_000);
}

#[test]
fn generated_ids_are_hexadecimal_and_differ() {
    let a = LeaseId::generate();
    let b = LeaseId::generate();
    assert_eq!(&a.0[14..15], "4");
    assert!("89ab".contains(&a.0[18..19]), "{a:?}");
    assert_ne!(a, b);
    assert_eq!(a.0.len(), 34);
    assert!(a.0.starts_with("l_"));
    assert!(a.0[2..].chars().all(|c| c.is_ascii_digit() || ('a'..='f').contains(&c)));
    assert_eq!(LeaseId::of_digits("00").0, "l_00");
}
