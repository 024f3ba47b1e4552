//! What the `berth` command line accepts, asks of a node and prints.
//!
//! Nothing here lists inventory, opens a wallet, or speaks x402. Those live in
//! https://github.com/hexuria/berth-market.

use vstd::prelude::*;
use vstd::string::*;

use crate::addr::{is_loopback_bits, socket_text, IpAddr, SocketAddr};
use crate::config::NodeConfig;
use crate::decimal::{decimal, print_u64};
use crate::doctor::evaluate;
use crate::eligibility::{
    check_name, CheckStatus, CheckView, DoctorCheck, DoctorReport, GuestOs, Intent, ReportView,
};
use crate::http::reject_if_bind_all;
use crate::json::{object1, Json, JsonView};
use crate::probes::{named_case, simulate, simulated, unknown_case_text, SimulateCase};
use crate::readings::is_clock_reading;
use crate::session::{
    CreateLeaseRequest, Lease, Receipt, DEFAULT_DISK_GIB, DEFAULT_MEM_GIB, DEFAULT_VCPU,
};
use crate::text::{
    concat, concat3, debug_text, lowercase, same, texts, to_lower, trim_end_slashes,
    without_trailing,
};
use crate::NodeError;

verus! {

/// The guest OS that a `--os` value names, whatever its letter case.
pub open spec fn named_os(raw: Seq<char>) -> Option<GuestOs> {
    let name = lowercase(raw);
    if name == "linux"@ {
        Some(GuestOs::Linux)
    } else if name == "macos"@ || name == "mac"@ {
        Some(GuestOs::Macos)
    } else if name == "windows"@ || name == "windows-home-oem"@ {
        Some(GuestOs::WindowsHomeOem)
    } else if name == "windows-pro-oem"@ {
        Some(GuestOs::WindowsProOem)
    } else {
        None
    }
}

/// Text for a `--os` value that names no guest OS.
pub open spec fn unknown_os_text(raw: Seq<char>) -> Seq<char> {
    "unknown --os "@ + lowercase(raw) + "; v1 accepts linux"@
}

/// The guest OS that a `--os` value names.
pub fn parse_os(raw: &str) -> (r: Result<GuestOs, String>)
    ensures
        match r {
            Ok(os) => named_os(raw@) == Some(os),
            Err(message) => named_os(raw@) is None && message@ == unknown_os_text(raw@),
        },
{
    let lower = to_lower(raw);
    let name = lower.as_str();
    if same(name, "linux") {
        Ok(GuestOs::Linux)
    } else if same(name, "macos") || same(name, "mac") {
        Ok(GuestOs::Macos)
    } else if same(name, "windows") || same(name, "windows-home-oem") {
        Ok(GuestOs::WindowsHomeOem)
    } else if same(name, "windows-pro-oem") {
        Ok(GuestOs::WindowsProOem)
    } else {
        Err(concat3("unknown --os ", name, "; v1 accepts linux"))
    }
}

/// What `berth up` asks of the node: a Linux guest of the default size.
pub fn up_request(os: &str) -> (r: Result<CreateLeaseRequest, String>)
    ensures
        match named_os(os@) {
            None => r matches Err(message) && message@ == unknown_os_text(os@),
            Some(GuestOs::Linux) => r == Ok::<CreateLeaseRequest, String>(
                CreateLeaseRequest {
                    os: GuestOs::Linux,
                    vcpu: Some(DEFAULT_VCPU),
                    mem_gib: Some(DEFAULT_MEM_GIB),
                    disk_gib: Some(DEFAULT_DISK_GIB),
                },
            ),
            Some(_) => r matches Err(message) && message@ == "v1 only accepts --os linux"@,
        },
{
    match parse_os(os) {
        Ok(os) => {
            if os != GuestOs::Linux {
                return Err("v1 only accepts --os linux".to_string());
            }
            Ok(
                CreateLeaseRequest {
                    os,
                    vcpu: Some(DEFAULT_VCPU),
                    mem_gib: Some(DEFAULT_MEM_GIB),
                    disk_gib: Some(DEFAULT_DISK_GIB),
                },
            )
        },
        Err(message) => Err(message),
    }
}

/// The URL of `path` on a node.
pub open spec fn url_of(node: Seq<char>, path: Seq<char>) -> Seq<char> {
    without_trailing(node, '/') + path
}

/// Where `berth up` sends its request: to the node that was named, else to
/// the one the client is paired with.
pub fn up_url(named: Option<&str>, paired: &str) -> (r: String)
    ensures
        r@ == match named {
            Some(node) => url_of(node@, "/v1/leases"@),
            None => url_of(paired@, "/v1/leases"@),
        },
{
    let node = match named {
        Some(node) => node,
        None => paired,
    };
    concat(trim_end_slashes(node).as_str(), "/v1/leases")
}

/// The node that `berth pair` keeps, and where it sends its request.
pub fn pair_url(node: &str) -> (r: (String, String))
    ensures
        r.0@ == without_trailing(node@, '/'),
        r.1@ == url_of(node@, "/v1/pair"@),
{
    let url = trim_end_slashes(node);
    let path = concat(url.as_str(), "/v1/pair");
    (url, path)
}

/// The body of a pairing request.
pub fn pair_body(code: &str) -> (r: Json)
    ensures
        r@ == JsonView::Object(seq![("code"@, JsonView::Str(code@))]),
{
    object1("code", Json::string(code))
}

/// The token in the answer to a pairing request.
pub fn pair_token(answer: &Json) -> (r: Result<String, String>)
    ensures
        match answer@.text_field("token"@) {
            Some(token) => r matches Ok(t) && t@ == token,
            None => r matches Err(message) && message@ == "pair response missing token"@,
        },
{
    match answer.text_field("token") {
        Some(token) => Ok(token.to_string()),
        None => Err("pair response missing token".to_string()),
    }
}

/// What `berth pair` prints, the token being stored in `path`.
pub fn paired_lines(url: &str, path: &str) -> (r: Vec<String>)
    ensures
        texts(r@) == seq![
            "paired with "@ + url@,
            "token stored in "@ + path@ + " (mode 0600)"@,
            "quoted occupancy is not charged in this repo"@,
        ],
{
    let r: Vec<String> = vec![
        concat("paired with ", url),
        concat3("token stored in ", path, " (mode 0600)"),
        "quoted occupancy is not charged in this repo".to_string(),
    ];
    assert(texts(r@) =~= seq![
        "paired with "@ + url@,
        "token stored in "@ + path@ + " (mode 0600)"@,
        "quoted occupancy is not charged in this repo"@,
    ]);
    r
}

/// How an intent is printed.
pub open spec fn intent_text(intent: Intent) -> Seq<char> {
    match intent {
        Intent::Private => "Private"@,
        Intent::Public => "Public"@,
    }
}

/// How a status is printed.
pub open spec fn status_text(status: CheckStatus) -> Seq<char> {
    match status {
        CheckStatus::Pass => "pass"@,
        CheckStatus::Fail => "FAIL"@,
        CheckStatus::Warn => "warn"@,
    }
}

/// How a row of the doctor report is printed.
pub open spec fn check_line(check: CheckView) -> Seq<char> {
    "  ["@ + status_text(check.status) + "] "@ + check_name(check.id) + " "@ + check.detail
}

/// How a doctor report is printed.
pub open spec fn report_lines(report: ReportView) -> Seq<Seq<char>> {
    seq!["Berthos doctor (fail-closed)  intent="@ + intent_text(report.intent), ""@]
        + report.checks.map_values(|c: CheckView| check_line(c)) + seq![
        ""@,
        if report.eligible {
            "eligible: yes"@
        } else {
            "eligible: no — this node cannot participate until every required check passes"@
        },
        "payments/listings: not this repo — https://github.com/hexuria/berth-market"@,
    ]
}

fn print_check(check: &DoctorCheck) -> (r: String)
    ensures
        r@ == check_line(check@),
{
    let mark = match check.status {
        CheckStatus::Pass => "pass",
        CheckStatus::Fail => "FAIL",
        CheckStatus::Warn => "warn",
    };
    let mut line = "  [".to_string();
    line.append(mark);
    line.append("] ");
    line.append(check.id.name());
    line.append(" ");
    line.append(check.detail.as_str());
    line
}

fn push_line(lines: &mut Vec<String>, line: String)
    ensures
        texts(final(lines)@) == texts(old(lines)@).push(line@),
{
    lines.push(line);
    assert(texts(lines@) =~= texts(old(lines)@).push(line@));
}

/// The lines in which a doctor report is printed.
pub fn print_report(report: &DoctorReport) -> (r: Vec<String>)
    ensures
        texts(r@) == report_lines(report@),
{
    let intent = match report.intent {
        Intent::Private => "Private",
        Intent::Public => "Public",
    };
    let ghost head = seq![
        "Berthos doctor (fail-closed)  intent="@ + intent_text(report.intent),
        ""@,
    ];
    let ghost rows = report@.checks.map_values(|c: CheckView| check_line(c));
    let mut lines: Vec<String> = Vec::new();
    push_line(&mut lines, concat("Berthos doctor (fail-closed)  intent=", intent));
    push_line(&mut lines, "".to_string());
    assert(texts(lines@) =~= head + rows.take(0));
    let mut i: usize = 0;
    while i < report.checks.len()
        invariant
            i <= report.checks@.len(),
            rows == report@.checks.map_values(|c: CheckView| check_line(c)),
            texts(lines@) == head + rows.take(i as int),
        decreases report.checks@.len() - i,
    {
        push_line(&mut lines, print_check(&report.checks[i]));
        assert(head + rows.take(i + 1) =~= (head + rows.take(i as int)).push(rows[i as int]));
        i += 1;
    }
    assert(rows.take(i as int) =~= rows);
    push_line(&mut lines, "".to_string());
    if report.eligible {
        push_line(&mut lines, "eligible: yes".to_string());
    } else {
        push_line(
            &mut lines,
            "eligible: no — this node cannot participate until every required check passes".to_string(),
        );
    }
    push_line(
        &mut lines,
        "payments/listings: not this repo — https://github.com/hexuria/berth-market".to_string(),
    );
    assert(texts(lines@) =~= report_lines(report@));
    lines
}

/// Exit status of `berth doctor`: nonzero for an ineligible node.
pub fn doctor_exit(report: &DoctorReport) -> (r: i32)
    ensures
        r == if report.eligible {
            0int
        } else {
            1
        },
{
    if report.eligible {
        0
    } else {
        1
    }
}

/// The report on a simulation that a `--simulate` value names.
pub fn simulated_report(raw: &str) -> (r: Result<DoctorReport, String>)
    ensures
        match r {
            Ok(report) => named_case(raw@) matches Some(case) && report@
                == crate::doctor::report_on(simulated(case), report.timestamp)
                && is_clock_reading(report.timestamp.nanos()),
            Err(message) => named_case(raw@) is None && message@ == unknown_case_text(
                debug_text(raw@),
            ),
        },
{
    match SimulateCase::parse(raw) {
        Ok(case) => Ok(evaluate(&simulate(case))),
        Err(message) => Err(message),
    }
}

/// The config that `berth node up` runs with: the saved one, with what the
/// command line says. An address that is not loopback is refused.
pub fn node_up_config(config: NodeConfig, intent: Intent, bind_ip: IpAddr, port: u16) -> (r: Result<
    NodeConfig,
    NodeError,
>)
    ensures
        if is_loopback_bits(bind_ip.bits) {
            r == Ok::<NodeConfig, NodeError>(NodeConfig { intent, bind_ip, port, ..config })
        } else {
            r == Err::<NodeConfig, NodeError>(NodeError::BindAllRejected(bind_ip))
        },
{
    match reject_if_bind_all(bind_ip.clone()) {
        Ok(_) => {
            let mut config = config;
            config.intent = intent;
            config.bind_ip = bind_ip;
            config.port = port;
            Ok(config)
        },
        Err(e) => Err(e),
    }
}

/// A node starts only after a green doctor.
pub fn node_up_allowed(report: &DoctorReport) -> (r: Result<(), String>)
    ensures
        if report.eligible {
            r == Ok::<(), String>(())
        } else {
            r matches Err(message) && message@
                == "node refused to start: eligibility doctor failed closed"@
        },
{
    if !report.eligible {
        return Err("node refused to start: eligibility doctor failed closed".to_string());
    }
    Ok(())
}

/// What `berth node up` prints before it listens.
pub fn node_up_lines(code: &str, bind: &SocketAddr) -> (r: Vec<String>)
    ensures
        texts(r@) == seq![
            "pairing code: "@ + code@,
            "listening on http://"@ + socket_text(*bind),
            "eligibility: GET http://"@ + socket_text(*bind) + "/v1/eligibility"@,
            "this repo does not take payments; listings live in https://github.com/hexuria/berth-market"@,
            "next: berth pair --code "@ + code@ + "   then   berth up --os linux"@,
        ],
{
    let addr = bind.print();
    let r: Vec<String> = vec![
        concat("pairing code: ", code),
        concat("listening on http://", addr.as_str()),
        concat3("eligibility: GET http://", addr.as_str(), "/v1/eligibility"),
        "this repo does not take payments; listings live in https://github.com/hexuria/berth-market".to_string(),
        concat3("next: berth pair --code ", code, "   then   berth up --os linux"),
    ];
    assert(texts(r@) =~= seq![
        "pairing code: "@ + code@,
        "listening on http://"@ + socket_text(*bind),
        "eligibility: GET http://"@ + socket_text(*bind) + "/v1/eligibility"@,
        "this repo does not take payments; listings live in https://github.com/hexuria/berth-market"@,
        "next: berth pair --code "@ + code@ + "   then   berth up --os linux"@,
    ]);
    r
}

/// How the quote of a lease is printed.
pub open spec fn quote_line(lease: Lease) -> Seq<char> {
    "quote seconds occupancy-seconds (min "@ + decimal(lease.quote.min_seconds as nat)
        + "s) notional $"@ + lease.quote.notional_usd_per_hour@ + "/hr — not charged"@
}

/// What `berth up` prints of a new lease.
pub open spec fn lease_text(lease: Lease) -> Seq<Seq<char>> {
    let last = seq![quote_line(lease), "settlement: "@ + lease.quote.settlement.note@];
    match lease.viewer_url {
        Some(url) => seq!["lease "@ + lease.id.0@, "viewer "@ + url@] + last,
        None => seq!["lease "@ + lease.id.0@] + last,
    }
}

/// What `berth up` prints of a new lease.
pub fn lease_lines(lease: &Lease) -> (r: Vec<String>)
    ensures
        texts(r@) == lease_text(*lease),
{
    let mut lines: Vec<String> = Vec::new();
    push_line(&mut lines, concat("lease ", lease.id.0.as_str()));
    if let Some(url) = &lease.viewer_url {
        push_line(&mut lines, concat("viewer ", url.as_str()));
    }
    let mut quote = "quote ".to_string();
    quote.append(lease.quote.occupancy_unit_label());
    quote.append(" occupancy-seconds (min ");
    quote.append(print_u64(lease.quote.min_seconds).as_str());
    quote.append("s) notional $");
    quote.append(lease.quote.notional_usd_per_hour.as_str());
    quote.append("/hr — not charged");
    proof {
        reveal_strlit("quote ");
        reveal_strlit("seconds");
        reveal_strlit(" occupancy-seconds (min ");
        reveal_strlit("quote seconds occupancy-seconds (min ");
        assert(quote@ =~= quote_line(*lease));
    }
    push_line(&mut lines, quote);
    push_line(&mut lines, concat("settlement: ", lease.quote.settlement.note.as_str()));
    assert(texts(lines@) =~= lease_text(*lease));
    lines
}

/// What `berth view` prints: the viewer of a lease, with the bearer.
pub fn view_link(lease: &Lease, token: &str) -> (r: Result<String, String>)
    ensures
        match lease.viewer_url {
            Some(url) => r matches Ok(link) && link@ == url@ + "?token="@ + token@,
            None => r matches Err(message) && message@ == "lease has no guest view"@,
        },
{
    match &lease.viewer_url {
        Some(url) => Ok(concat3(url.as_str(), "?token=", token)),
        None => Err("lease has no guest view".to_string()),
    }
}

/// What `berth end` prints: seconds held, never clicks.
pub open spec fn receipt_text(receipt: Receipt) -> Seq<Seq<char>> {
    seq![
        "lease "@ + receipt.lease_id.0@ + " ended"@,
        "occupancy "@ + decimal(receipt.occupancy_seconds as nat) + "s billed "@ + decimal(
            receipt.billed_seconds as nat,
        ) + "s (min "@ + decimal(receipt.min_seconds as nat) + "s) notional $"@
            + receipt.notional_usd@ + " — not charged"@,
        "settlement: "@ + receipt.settlement.note@,
    ]
}

/// What `berth end` prints.
pub fn receipt_lines(receipt: &Receipt) -> (r: Vec<String>)
    ensures
        texts(r@) == receipt_text(*receipt),
{
    let mut held = "occupancy ".to_string();
    held.append(print_u64(receipt.occupancy_seconds).as_str());
    held.append("s billed ");
    held.append(print_u64(receipt.billed_seconds).as_str());
    held.append("s (min ");
    held.append(print_u64(receipt.min_seconds).as_str());
    held.append("s) notional $");
    held.append(receipt.notional_usd.as_str());
    held.append(" — not charged");
    let r: Vec<String> = vec![
        concat3("lease ", receipt.lease_id.0.as_str(), " ended"),
        held,
        concat("settlement: ", receipt.settlement.note.as_str()),
    ];
    assert(texts(r@) =~= receipt_text(*receipt));
    r
}

} // verus!
