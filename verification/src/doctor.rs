//! Fail-closed eligibility gate.
//!
//! A missing probe, a laptop class, a bind-all listener, or an unlabeled
//! guest image is a **failure**, never a skip. Warnings (optional tunnel)
//! cannot make an ineligible node eligible.

use vstd::prelude::*;
use vstd::string::*;

use crate::clock::Timestamp;
use crate::decimal::{decimal, print_u64};
use crate::eligibility::{
    check_views, labels_match, nothing_failed, opt_image, Chassis, CheckId, CheckStatus, CheckView,
    DoctorCheck, DoctorReport, EgressPolicy, Facts, FactsView, GuestImage, GuestOs,
    ImageAttestation, ImageView, Intent, NodeClass, ReportView, ATTESTATION_SOURCE,
    MIN_FREE_MEM_GIB, MIN_FREE_VCPU, REQUIRED_DESKTOP_LABEL, REQUIRED_EGRESS_POLICY,
    REQUIRED_GUEST_IMAGE, REQUIRED_GUEST_VERSION,
};
use crate::readings::is_clock_reading;
use crate::text::concat3;
use crate::PROTOCOL_VERSION;

verus! {

/// A row that passed.
pub open spec fn passed(id: CheckId, detail: Seq<char>) -> CheckView {
    CheckView { id, status: CheckStatus::Pass, detail }
}

/// A row that failed.
pub open spec fn failing(id: CheckId, detail: Seq<char>) -> CheckView {
    CheckView { id, status: CheckStatus::Fail, detail }
}

/// Text of a truth value.
pub open spec fn truth_text(b: bool) -> Seq<char> {
    if b {
        "true"@
    } else {
        "false"@
    }
}

/// Row for the advertised class.
pub open spec fn class_row(class: NodeClass) -> CheckView {
    match class {
        NodeClass::Laptop => failing(
            CheckId::Class,
            "class=laptop is rejected; only a VM guest or a dedicated server guest may be leased"@,
        ),
        NodeClass::VmGuest => passed(
            CheckId::Class,
            "class=vm-guest (isolated guest, not the host desktop)"@,
        ),
        NodeClass::DedicatedServer => passed(
            CheckId::Class,
            "class=dedicated-server (guest on dedicated metal, not the host desktop)"@,
        ),
    }
}

/// Row for the listener.
pub open spec fn bind_row(is_loopback: bool, display: Seq<char>) -> CheckView {
    if is_loopback {
        passed(CheckId::Bind, "loopback bind only ("@ + display + ")"@)
    } else {
        failing(
            CheckId::Bind,
            "bind-all rejected ("@ + display
                + "); node HTTP must listen on 127.0.0.1 / ::1"@,
        )
    }
}

/// Row for the container runtime.
pub open spec fn runtime_row(running: bool) -> CheckView {
    if running {
        passed(CheckId::Runtime, "Docker (or equivalent) is running"@)
    } else {
        failing(
            CheckId::Runtime,
            "Docker (or equivalent) is not running; guests cannot be isolated"@,
        )
    }
}

/// Row for the guest image and its labels.
pub open spec fn guest_image_row(image: Option<ImageView>) -> CheckView {
    match image {
        None => failing(
            CheckId::GuestImage,
            "labeled Linux desktop guest image "@ + REQUIRED_GUEST_IMAGE@
                + " is missing; build images/linux-desktop"@,
        ),
        Some(image) => if labels_match(image) {
            passed(
                CheckId::GuestImage,
                image.name + " labels ok ("@ + REQUIRED_GUEST_VERSION@ + ", "@
                    + REQUIRED_DESKTOP_LABEL@ + ", "@ + REQUIRED_EGRESS_POLICY@ + ")"@,
            )
        } else {
            failing(
                CheckId::GuestImage,
                "image "@ + image.name
                    + " is present but labels do not match v1 (need berthos.guest.version="@
                    + REQUIRED_GUEST_VERSION@ + ", berthos.desktop="@ + REQUIRED_DESKTOP_LABEL@
                    + ", berthos.egress.policy="@ + REQUIRED_EGRESS_POLICY@ + "); rebuild"@,
            )
        },
    }
}

/// Row for the egress policy.
pub open spec fn egress_row(policy: EgressPolicy) -> CheckView {
    match policy {
        EgressPolicy::DefaultDeny => passed(
            CheckId::Egress,
            "default-deny egress (empty allowlist = no outbound, including DNS)"@,
        ),
        EgressPolicy::DefaultAllow => failing(
            CheckId::Egress,
            "default-allow egress is rejected; a desktop with a browser is a fraud appliance"@,
        ),
    }
}

/// Row for the free capacity.
pub open spec fn capacity_row(free_vcpu: u32, free_mem_gib: u32) -> CheckView {
    if free_vcpu == 0 || free_mem_gib == 0 {
        failing(
            CheckId::Capacity,
            "vcpu or memory of 0 is rejected (not unlimited); capacity probe must return real free resources"@,
        )
    } else if free_vcpu < MIN_FREE_VCPU || free_mem_gib < MIN_FREE_MEM_GIB {
        failing(
            CheckId::Capacity,
            "not enough free capacity ("@ + decimal(free_vcpu as nat) + " vCPU, "@ + decimal(
                free_mem_gib as nat,
            ) + " GiB); need at least "@ + decimal(MIN_FREE_VCPU as nat) + " vCPU and "@ + decimal(
                MIN_FREE_MEM_GIB as nat,
            ) + " GiB"@,
        )
    } else {
        passed(
            CheckId::Capacity,
            decimal(free_vcpu as nat) + " vCPU and "@ + decimal(free_mem_gib as nat)
                + " GiB free"@,
        )
    }
}

/// Row for the guest operating system.
pub open spec fn guest_os_row(os: GuestOs, intent: Intent) -> CheckView {
    match (os, intent) {
        (GuestOs::Linux, _) => passed(CheckId::GuestOs, "guest OS is Linux (v1 SKU)"@),
        (GuestOs::Macos, Intent::Public) => failing(
            CheckId::GuestOs,
            "public macOS is out of scope for v1"@,
        ),
        (GuestOs::Macos, Intent::Private) => failing(
            CheckId::GuestOs,
            "v1 is Linux guest only; private macOS is out of scope"@,
        ),
        (_, Intent::Public) => failing(
            CheckId::GuestOs,
            "Windows Home/Pro OEM on the metal is not a public listing"@,
        ),
        (_, Intent::Private) => failing(
            CheckId::GuestOs,
            "v1 is Linux guest only; a private Windows VM for the operator's own agent is later, not now"@,
        ),
    }
}

/// Row for the chassis.
pub open spec fn chassis_row(chassis: Chassis, intent: Intent) -> CheckView {
    match (chassis, intent) {
        (Chassis::Laptop, Intent::Public) => failing(
            CheckId::Chassis,
            "never accept a personal laptop or daily-driver as a public node"@,
        ),
        (Chassis::Unknown, Intent::Public) => failing(
            CheckId::Chassis,
            "public participation requires an attested chassis (server or vm-host); unknown fails closed"@,
        ),
        (Chassis::Laptop, Intent::Private) => passed(
            CheckId::Chassis,
            "laptop chassis allowed only as a private loopback *host*; the leased thing is still an isolated guest"@,
        ),
        (Chassis::Unknown, Intent::Private) => passed(
            CheckId::Chassis,
            "chassis unattested; acceptable for private loopback only"@,
        ),
        _ => passed(
            CheckId::Chassis,
            "chassis is a dedicated host, not a daily-driver desktop"@,
        ),
    }
}

/// Row for wired and always-on.
pub open spec fn availability_row(always_on: bool, wired: bool, intent: Intent) -> CheckView {
    if intent == Intent::Private {
        passed(
            CheckId::Availability,
            "private loopback does not require wired/always-on (still required to go public)"@,
        )
    } else if always_on && wired {
        passed(CheckId::Availability, "advertised wired and always-on"@)
    } else {
        failing(
            CheckId::Availability,
            "public node must advertise wired+always-on (always_on="@ + truth_text(always_on)
                + ", wired="@ + truth_text(wired) + "); lid-close is not an SLA"@,
        )
    }
}

/// Row for the optional tunnel.
pub open spec fn tunnel_row(present: bool) -> CheckView {
    if present {
        passed(CheckId::Tunnel, "tunnel is present (optional)"@)
    } else {
        CheckView {
            id: CheckId::Tunnel,
            status: CheckStatus::Warn,
            detail: "no tunnel configured; loopback-only is fine. remote access is a later optional tunnel, never bind-all"@,
        }
    }
}

/// Every row of a report on `facts`, in order.
pub open spec fn doctor_rows(facts: FactsView) -> Seq<CheckView> {
    seq![
        class_row(facts.class),
        bind_row(facts.bind_is_loopback, facts.bind_display),
        runtime_row(facts.runtime_running),
        guest_image_row(facts.guest_image),
        egress_row(facts.egress),
        capacity_row(facts.free_vcpu, facts.free_mem_gib),
        guest_os_row(facts.guest_os, facts.intent),
        chassis_row(facts.chassis, facts.intent),
        availability_row(facts.always_on, facts.wired, facts.intent),
        tunnel_row(facts.tunnel_present),
    ]
}

/// The report on `facts` evaluated at `timestamp`.
pub open spec fn report_on(facts: FactsView, timestamp: Timestamp) -> ReportView {
    let rows = doctor_rows(facts);
    ReportView {
        protocol: PROTOCOL_VERSION@,
        source: ATTESTATION_SOURCE@,
        ok: nothing_failed(rows),
        eligible: nothing_failed(rows),
        class: facts.class,
        intent: facts.intent,
        checks: rows,
        image: facts.guest_image,
        timestamp,
    }
}

/// What a node must be for every required check to pass.
pub open spec fn may_participate(facts: FactsView) -> bool {
    &&& facts.class != NodeClass::Laptop
    &&& facts.bind_is_loopback
    &&& facts.runtime_running
    &&& facts.guest_image is Some
    &&& labels_match(facts.guest_image->0)
    &&& facts.egress == EgressPolicy::DefaultDeny
    &&& facts.free_vcpu >= MIN_FREE_VCPU
    &&& facts.free_mem_gib >= MIN_FREE_MEM_GIB
    &&& facts.guest_os == GuestOs::Linux
    &&& facts.intent == Intent::Public ==> {
        &&& facts.chassis == Chassis::Server || facts.chassis == Chassis::VmHost
        &&& facts.always_on
        &&& facts.wired
    }
}

/// A node is eligible exactly when it meets every required condition.
pub proof fn law_eligible_iff_every_requirement_holds(facts: FactsView, timestamp: Timestamp)
    ensures
        report_on(facts, timestamp).eligible <==> may_participate(facts),
        report_on(facts, timestamp).ok == report_on(facts, timestamp).eligible,
{
    let rows = doctor_rows(facts);
    assert(rows[0] == class_row(facts.class));
    assert(rows[1] == bind_row(facts.bind_is_loopback, facts.bind_display));
    assert(rows[2] == runtime_row(facts.runtime_running));
    assert(rows[3] == guest_image_row(facts.guest_image));
    assert(rows[4] == egress_row(facts.egress));
    assert(rows[5] == capacity_row(facts.free_vcpu, facts.free_mem_gib));
    assert(rows[6] == guest_os_row(facts.guest_os, facts.intent));
    assert(rows[7] == chassis_row(facts.chassis, facts.intent));
    assert(rows[8] == availability_row(facts.always_on, facts.wired, facts.intent));
    assert(rows[9] == tunnel_row(facts.tunnel_present));
}

/// `class=laptop` is ineligible whatever else holds and whatever the intent.
pub proof fn law_laptop_is_never_eligible(facts: FactsView, timestamp: Timestamp)
    requires
        facts.class == NodeClass::Laptop,
    ensures
        !report_on(facts, timestamp).ok,
        !report_on(facts, timestamp).eligible,
{
    law_eligible_iff_every_requirement_holds(facts, timestamp);
}

/// The tunnel row never decides: with or without a tunnel a node is eligible
/// alike.
pub proof fn law_tunnel_never_changes_eligibility(facts: FactsView, timestamp: Timestamp)
    ensures
        report_on(FactsView { tunnel_present: true, ..facts }, timestamp).eligible == report_on(
            FactsView { tunnel_present: false, ..facts },
            timestamp,
        ).eligible,
{
    law_eligible_iff_every_requirement_holds(
        FactsView { tunnel_present: true, ..facts },
        timestamp,
    );
    law_eligible_iff_every_requirement_holds(
        FactsView { tunnel_present: false, ..facts },
        timestamp,
    );
}

/// A node that may go public may also stay private.
pub proof fn law_public_is_stricter_than_private(facts: FactsView, timestamp: Timestamp)
    requires
        report_on(FactsView { intent: Intent::Public, ..facts }, timestamp).eligible,
    ensures
        report_on(FactsView { intent: Intent::Private, ..facts }, timestamp).eligible,
{
    law_eligible_iff_every_requirement_holds(
        FactsView { intent: Intent::Public, ..facts },
        timestamp,
    );
    law_eligible_iff_every_requirement_holds(
        FactsView { intent: Intent::Private, ..facts },
        timestamp,
    );
}

/// Evaluate attested + observed facts. Fail closed.
pub fn evaluate(facts: &Facts) -> (r: DoctorReport)
    ensures
        r@ == report_on(facts@, r.timestamp),
        is_clock_reading(r.timestamp.nanos()),
{
    evaluate_at(facts, Timestamp::now_utc())
}

/// Evaluate with a fixed timestamp (tests / replay).
pub fn evaluate_at(facts: &Facts, timestamp: Timestamp) -> (r: DoctorReport)
    ensures
        r@ == report_on(facts@, timestamp),
{
    let mut checks: Vec<DoctorCheck> = Vec::new();
    checks.push(class_check(facts.class));
    checks.push(bind_check(facts.bind_is_loopback, facts.bind_display.as_str()));
    checks.push(runtime_check(facts.runtime_running));
    checks.push(guest_image_check(&facts.guest_image));
    checks.push(egress_check(facts.egress));
    checks.push(capacity_check(facts.free_vcpu, facts.free_mem_gib));
    checks.push(guest_os_check(facts.guest_os, facts.intent));
    checks.push(chassis_check(facts.chassis, facts.intent));
    checks.push(availability_check(facts.always_on, facts.wired, facts.intent));
    checks.push(tunnel_check(facts.tunnel_present));
    assert(check_views(checks@) =~= doctor_rows(facts@));

    let eligible = none_failed(&checks);
    DoctorReport {
        protocol: PROTOCOL_VERSION.to_string(),
        source: ATTESTATION_SOURCE.to_string(),
        ok: eligible,
        eligible,
        class: facts.class,
        intent: facts.intent,
        checks,
        image: match &facts.guest_image {
            Some(image) => Some(ImageAttestation::of(image)),
            None => None,
        },
        timestamp,
    }
}

fn none_failed(checks: &Vec<DoctorCheck>) -> (r: bool)
    ensures
        r == nothing_failed(check_views(checks@)),
{
    let ghost rows = check_views(checks@);
    let mut i: usize = 0;
    while i < checks.len()
        invariant
            rows == check_views(checks@),
            i <= checks@.len(),
            forall|k: int| 0 <= k < i ==> (#[trigger] rows[k]).status != CheckStatus::Fail,
        decreases checks@.len() - i,
    {
        if checks[i].status == CheckStatus::Fail {
            assert(rows[i as int].status == CheckStatus::Fail);
            return false;
        }
        i += 1;
    }
    true
}

fn class_check(class: NodeClass) -> (r: DoctorCheck)
    ensures
        r@ == class_row(class),
{
    match class {
        NodeClass::Laptop => fail(
            CheckId::Class,
            "class=laptop is rejected; only a VM guest or a dedicated server guest may be leased".to_string(),
        ),
        NodeClass::VmGuest => pass(
            CheckId::Class,
            "class=vm-guest (isolated guest, not the host desktop)".to_string(),
        ),
        NodeClass::DedicatedServer => pass(
            CheckId::Class,
            "class=dedicated-server (guest on dedicated metal, not the host desktop)".to_string(),
        ),
    }
}

fn bind_check(is_loopback: bool, display: &str) -> (r: DoctorCheck)
    ensures
        r@ == bind_row(is_loopback, display@),
{
    if is_loopback {
        pass(CheckId::Bind, concat3("loopback bind only (", display, ")"))
    } else {
        fail(
            CheckId::Bind,
            concat3(
                "bind-all rejected (",
                display,
                "); node HTTP must listen on 127.0.0.1 / ::1",
            ),
        )
    }
}

fn runtime_check(running: bool) -> (r: DoctorCheck)
    ensures
        r@ == runtime_row(running),
{
    if running {
        pass(CheckId::Runtime, "Docker (or equivalent) is running".to_string())
    } else {
        fail(
            CheckId::Runtime,
            "Docker (or equivalent) is not running; guests cannot be isolated".to_string(),
        )
    }
}

fn guest_image_check(image: &Option<GuestImage>) -> (r: DoctorCheck)
    ensures
        r@ == guest_image_row(opt_image(*image)),
{
    match image {
        None => fail(
            CheckId::GuestImage,
            concat3(
                "labeled Linux desktop guest image ",
                REQUIRED_GUEST_IMAGE,
                " is missing; build images/linux-desktop",
            ),
        ),
        Some(image) => if image.matches_required() {
            let mut detail = image.name.clone();
            detail.append(" labels ok (");
            detail.append(REQUIRED_GUEST_VERSION);
            detail.append(", ");
            detail.append(REQUIRED_DESKTOP_LABEL);
            detail.append(", ");
            detail.append(REQUIRED_EGRESS_POLICY);
            detail.append(")");
            pass(CheckId::GuestImage, detail)
        } else {
            let mut detail = "image ".to_string();
            detail.append(image.name.as_str());
            detail.append(" is present but labels do not match v1 (need berthos.guest.version=");
            detail.append(REQUIRED_GUEST_VERSION);
            detail.append(", berthos.desktop=");
            detail.append(REQUIRED_DESKTOP_LABEL);
            detail.append(", berthos.egress.policy=");
            detail.append(REQUIRED_EGRESS_POLICY);
            detail.append("); rebuild");
            fail(CheckId::GuestImage, detail)
        },
    }
}

fn egress_check(policy: EgressPolicy) -> (r: DoctorCheck)
    ensures
        r@ == egress_row(policy),
{
    match policy {
        EgressPolicy::DefaultDeny => pass(
            CheckId::Egress,
            "default-deny egress (empty allowlist = no outbound, including DNS)".to_string(),
        ),
        EgressPolicy::DefaultAllow => fail(
            CheckId::Egress,
            "default-allow egress is rejected; a desktop with a browser is a fraud appliance".to_string(),
        ),
    }
}

fn capacity_check(free_vcpu: u32, free_mem_gib: u32) -> (r: DoctorCheck)
    ensures
        r@ == capacity_row(free_vcpu, free_mem_gib),
{
    if free_vcpu == 0 || free_mem_gib == 0 {
        return fail(
            CheckId::Capacity,
            "vcpu or memory of 0 is rejected (not unlimited); capacity probe must return real free resources".to_string(),
        );
    }
    if free_vcpu < MIN_FREE_VCPU || free_mem_gib < MIN_FREE_MEM_GIB {
        let mut detail = "not enough free capacity (".to_string();
        detail.append(print_u64(free_vcpu as u64).as_str());
        detail.append(" vCPU, ");
        detail.append(print_u64(free_mem_gib as u64).as_str());
        detail.append(" GiB); need at least ");
        detail.append(print_u64(MIN_FREE_VCPU as u64).as_str());
        detail.append(" vCPU and ");
        detail.append(print_u64(MIN_FREE_MEM_GIB as u64).as_str());
        detail.append(" GiB");
        fail(CheckId::Capacity, detail)
    } else {
        let mut detail = print_u64(free_vcpu as u64);
        detail.append(" vCPU and ");
        detail.append(print_u64(free_mem_gib as u64).as_str());
        detail.append(" GiB free");
        pass(CheckId::Capacity, detail)
    }
}

fn guest_os_check(os: GuestOs, intent: Intent) -> (r: DoctorCheck)
    ensures
        r@ == guest_os_row(os, intent),
{
    match (os, intent) {
        (GuestOs::Linux, _) => pass(CheckId::GuestOs, "guest OS is Linux (v1 SKU)".to_string()),
        (GuestOs::Macos, Intent::Public) => fail(
            CheckId::GuestOs,
            "public macOS is out of scope for v1".to_string(),
        ),
        (GuestOs::Macos, Intent::Private) => fail(
            CheckId::GuestOs,
            "v1 is Linux guest only; private macOS is out of scope".to_string(),
        ),
        (GuestOs::WindowsHomeOem, Intent::Public) | (GuestOs::WindowsProOem, Intent::Public) => fail(
            CheckId::GuestOs,
            "Windows Home/Pro OEM on the metal is not a public listing".to_string(),
        ),
        (GuestOs::WindowsHomeOem, Intent::Private) | (GuestOs::WindowsProOem, Intent::Private) => fail(
            CheckId::GuestOs,
            "v1 is Linux guest only; a private Windows VM for the operator's own agent is later, not now".to_string(),
        ),
    }
}

fn chassis_check(chassis: Chassis, intent: Intent) -> (r: DoctorCheck)
    ensures
        r@ == chassis_row(chassis, intent),
{
    match (chassis, intent) {
        (Chassis::Laptop, Intent::Public) => fail(
            CheckId::Chassis,
            "never accept a personal laptop or daily-driver as a public node".to_string(),
        ),
        (Chassis::Unknown, Intent::Public) => fail(
            CheckId::Chassis,
            "public participation requires an attested chassis (server or vm-host); unknown fails closed".to_string(),
        ),
        (Chassis::Laptop, Intent::Private) => pass(
            CheckId::Chassis,
            "laptop chassis allowed only as a private loopback *host*; the leased thing is still an isolated guest".to_string(),
        ),
        (Chassis::Unknown, Intent::Private) => pass(
            CheckId::Chassis,
            "chassis unattested; acceptable for private loopback only".to_string(),
        ),
        (Chassis::Server, _) | (Chassis::VmHost, _) => pass(
            CheckId::Chassis,
            "chassis is a dedicated host, not a daily-driver desktop".to_string(),
        ),
    }
}

/// Text of a truth value.
pub fn truth(b: bool) -> (r: &'static str)
    ensures
        r@ == truth_text(b),
{
    if b {
        "true"
    } else {
        "false"
    }
}

fn availability_check(always_on: bool, wired: bool, intent: Intent) -> (r: DoctorCheck)
    ensures
        r@ == availability_row(always_on, wired, intent),
{
    if intent == Intent::Private {
        return pass(
            CheckId::Availability,
            "private loopback does not require wired/always-on (still required to go public)".to_string(),
        );
    }
    if always_on && wired {
        pass(CheckId::Availability, "advertised wired and always-on".to_string())
    } else {
        let mut detail = "public node must advertise wired+always-on (always_on=".to_string();
        detail.append(truth(always_on));
        detail.append(", wired=");
        detail.append(truth(wired));
        detail.append("); lid-close is not an SLA");
        fail(CheckId::Availability, detail)
    }
}

fn tunnel_check(present: bool) -> (r: DoctorCheck)
    ensures
        r@ == tunnel_row(present),
{
    if present {
        pass(CheckId::Tunnel, "tunnel is present (optional)".to_string())
    } else {
        DoctorCheck {
            id: CheckId::Tunnel,
            status: CheckStatus::Warn,
            detail: "no tunnel configured; loopback-only is fine. remote access is a later optional tunnel, never bind-all".to_string(),
        }
    }
}

fn pass(id: CheckId, detail: String) -> (r: DoctorCheck)
    ensures
        r@ == passed(id, detail@),
{
    DoctorCheck { id, status: CheckStatus::Pass, detail }
}

fn fail(id: CheckId, detail: String) -> (r: DoctorCheck)
    ensures
        r@ == failing(id, detail@),
{
    DoctorCheck { id, status: CheckStatus::Fail, detail }
}

/// Facts that pass a private-intent doctor.
pub open spec fn eligible_private_view() -> FactsView {
    FactsView {
        class: NodeClass::VmGuest,
        chassis: Chassis::VmHost,
        intent: Intent::Private,
        guest_os: GuestOs::Linux,
        bind_is_loopback: true,
        bind_display: "127.0.0.1:7432"@,
        runtime_running: true,
        guest_image: Some(
            ImageView {
                name: REQUIRED_GUEST_IMAGE@,
                version: REQUIRED_GUEST_VERSION@,
                desktop: REQUIRED_DESKTOP_LABEL@,
                egress: REQUIRED_EGRESS_POLICY@,
            },
        ),
        egress: EgressPolicy::DefaultDeny,
        free_vcpu: MIN_FREE_VCPU,
        free_mem_gib: MIN_FREE_MEM_GIB,
        always_on: true,
        wired: true,
        tunnel_present: false,
    }
}

/// The fixture is eligible, with a warning and no failure.
pub proof fn law_fixture_is_eligible(timestamp: Timestamp)
    ensures
        report_on(eligible_private_view(), timestamp).eligible,
{
    law_eligible_iff_every_requirement_holds(eligible_private_view(), timestamp);
}

/// Fixture that would pass a private-intent doctor. Tests mutate one field.
pub fn eligible_private_facts() -> (r: Facts)
    ensures
        r@ == eligible_private_view(),
{
    Facts {
        class: NodeClass::VmGuest,
        chassis: Chassis::VmHost,
        intent: Intent::Private,
        guest_os: GuestOs::Linux,
        bind_is_loopback: true,
        bind_display: "127.0.0.1:7432".to_string(),
        runtime_running: true,
        guest_image: Some(
            GuestImage {
                name: REQUIRED_GUEST_IMAGE.to_string(),
                version_label: REQUIRED_GUEST_VERSION.to_string(),
                desktop_label: REQUIRED_DESKTOP_LABEL.to_string(),
                egress_label: REQUIRED_EGRESS_POLICY.to_string(),
            },
        ),
        egress: EgressPolicy::DefaultDeny,
        free_vcpu: MIN_FREE_VCPU,
        free_mem_gib: MIN_FREE_MEM_GIB,
        always_on: true,
        wired: true,
        tunnel_present: false,
    }
}

} // verus!
