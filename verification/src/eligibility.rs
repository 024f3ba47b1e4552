//! Eligibility vocabulary. Evaluation lives in [`crate::doctor`].

use vstd::prelude::*;

use crate::clock::Timestamp;
use crate::text::same;

verus! {

/// Image tag the doctor requires. Rebuild after changing labels.
pub const REQUIRED_GUEST_IMAGE: &'static str = "berthos-linux-desktop:v1";

/// Version label stamped on the guest image (`berthos.guest.version`).
pub const REQUIRED_GUEST_VERSION: &'static str = "v1";

/// Desktop stack the guest must declare (`berthos.desktop`).
pub const REQUIRED_DESKTOP_LABEL: &'static str = "xvfb-openbox-chromium";

/// Egress label the guest must declare (`berthos.egress.policy`).
pub const REQUIRED_EGRESS_POLICY: &'static str = "default-deny";

/// Minimum free vCPU a node must advertise.
pub const MIN_FREE_VCPU: u32 = 2;

/// Minimum free memory in GiB a node must advertise.
pub const MIN_FREE_MEM_GIB: u32 = 4;

/// `source` of every attestation.
pub const ATTESTATION_SOURCE: &'static str = "berthos.doctor";

/// What is being offered as a berth. The host desktop is never a class.
#[derive(Debug, Clone, Copy, PartialEq, Eq, Structural)]
pub enum NodeClass {
    /// Isolated Linux (v1) guest VM or container, not the host session.
    VmGuest,
    /// Dedicated server guest. Still a guest, never the metal desktop.
    DedicatedServer,
    /// Personal laptop / daily-driver. Always rejected.
    Laptop,
}

impl Default for NodeClass {
    fn default() -> (r: NodeClass)
        ensures
            r == NodeClass::VmGuest,
    {
        NodeClass::VmGuest
    }
}

/// Physical or virtual chassis the operator attests. Fail-closed when unknown
/// and the node wants to be public.
#[derive(Debug, Clone, Copy, PartialEq, Eq, Structural)]
pub enum Chassis {
    /// Always-on server or mini-PC that is not a daily-driver.
    Server,
    /// Hypervisor / VM host dedicated to guests.
    VmHost,
    /// Laptop or daily-driver. Cannot be a public node.
    Laptop,
    /// Operator did not attest. Public intent fails closed.
    Unknown,
}

impl Default for Chassis {
    fn default() -> (r: Chassis)
        ensures
            r == Chassis::Unknown,
    {
        Chassis::Unknown
    }
}

/// Whether this node is only a private loopback outpost or wants to be listed.
#[derive(Debug, Clone, Copy, PartialEq, Eq, Structural)]
pub enum Intent {
    /// Local loopback / operator's own agents. Still isolated guests only.
    Private,
    /// Participate as inventory. Listings themselves live in berth-market.
    Public,
}

impl Default for Intent {
    fn default() -> (r: Intent)
        ensures
            r == Intent::Private,
    {
        Intent::Private
    }
}

/// Guest operating system. v1 public and default private is Linux only.
#[derive(Debug, Clone, Copy, PartialEq, Eq, Structural)]
pub enum GuestOs {
    /// Isolated Linux desktop guest. The only v1 SKU.
    Linux,
    /// Windows Home OEM. Not a public listing. Not a v1 guest.
    WindowsHomeOem,
    /// Windows Pro OEM. Not a public listing. Not a v1 guest.
    WindowsProOem,
    /// macOS. Public is out of scope for v1. Private Windows/Mac later.
    Macos,
}

impl Default for GuestOs {
    fn default() -> (r: GuestOs)
        ensures
            r == GuestOs::Linux,
    {
        GuestOs::Linux
    }
}

/// How the guest reaches the network. Empty allowlist means no outbound.
#[derive(Debug, Clone, Copy, PartialEq, Eq, Structural)]
pub enum EgressPolicy {
    /// Default deny. Required.
    DefaultDeny,
    /// Default allow. Always a failed check.
    DefaultAllow,
}

impl Default for EgressPolicy {
    fn default() -> (r: EgressPolicy)
        ensures
            r == EgressPolicy::DefaultDeny,
    {
        EgressPolicy::DefaultDeny
    }
}

/// Labels read from the required guest image. Absence is a failed check.
#[derive(Debug, PartialEq, Eq)]
pub struct GuestImage {
    /// Local image reference, e.g. `berthos-linux-desktop:v1`.
    pub name: String,
    /// `berthos.guest.version`.
    pub version_label: String,
    /// `berthos.desktop`.
    pub desktop_label: String,
    /// `berthos.egress.policy`.
    pub egress_label: String,
}

/// The texts of a guest image.
pub struct ImageView {
    /// Local image reference.
    pub name: Seq<char>,
    /// `berthos.guest.version`.
    pub version: Seq<char>,
    /// `berthos.desktop`.
    pub desktop: Seq<char>,
    /// `berthos.egress.policy`.
    pub egress: Seq<char>,
}

impl View for GuestImage {
    type V = ImageView;

    open spec fn view(&self) -> ImageView {
        ImageView {
            name: self.name@,
            version: self.version_label@,
            desktop: self.desktop_label@,
            egress: self.egress_label@,
        }
    }
}

/// Every required label matches the v1 contract.
pub open spec fn labels_match(image: ImageView) -> bool {
    &&& image.version == REQUIRED_GUEST_VERSION@
    &&& image.desktop == REQUIRED_DESKTOP_LABEL@
    &&& image.egress == REQUIRED_EGRESS_POLICY@
}

/// The texts of an image that may be missing.
pub open spec fn opt_image(image: Option<GuestImage>) -> Option<ImageView> {
    match image {
        Some(i) => Some(i@),
        None => None,
    }
}

impl GuestImage {
    /// True when every required label matches the v1 contract.
    pub fn matches_required(&self) -> (r: bool)
        ensures
            r == labels_match(self@),
    {
        same(self.version_label.as_str(), REQUIRED_GUEST_VERSION) && same(
            self.desktop_label.as_str(),
            REQUIRED_DESKTOP_LABEL,
        ) && same(self.egress_label.as_str(), REQUIRED_EGRESS_POLICY)
    }
}

/// Stable identifiers for doctor rows. Warnings do not make a node ineligible.
#[derive(Debug, Clone, Copy, PartialEq, Eq, Structural)]
pub enum CheckId {
    /// `class=laptop` is rejected; only vm-guest or dedicated-server.
    Class,
    /// Listener must be loopback. Bind-all is rejected.
    Bind,
    /// Docker (or equivalent) must be running.
    Runtime,
    /// Labeled Linux desktop guest image must be present.
    GuestImage,
    /// Egress must be default-deny.
    Egress,
    /// Enough free vCPU and RAM.
    Capacity,
    /// Public nodes must advertise wired + always-on.
    Availability,
    /// Public nodes cannot be a laptop / daily-driver chassis.
    Chassis,
    /// v1 guests are Linux. Windows OEM and public macOS fail.
    GuestOs,
    /// Tunnel is optional. Missing is a warning, not a failure.
    Tunnel,
}

/// The name a check is printed under.
pub open spec fn check_name(id: CheckId) -> Seq<char> {
    match id {
        CheckId::Class => "class"@,
        CheckId::Bind => "bind"@,
        CheckId::Runtime => "runtime"@,
        CheckId::GuestImage => "guest_image"@,
        CheckId::Egress => "egress"@,
        CheckId::Capacity => "capacity"@,
        CheckId::Availability => "availability"@,
        CheckId::Chassis => "chassis"@,
        CheckId::GuestOs => "guest_os"@,
        CheckId::Tunnel => "tunnel"@,
    }
}

impl CheckId {
    /// The name this check is printed under.
    pub fn name(&self) -> (r: &'static str)
        ensures
            r@ == check_name(*self),
    {
        match self {
            CheckId::Class => "class",
            CheckId::Bind => "bind",
            CheckId::Runtime => "runtime",
            CheckId::GuestImage => "guest_image",
            CheckId::Egress => "egress",
            CheckId::Capacity => "capacity",
            CheckId::Availability => "availability",
            CheckId::Chassis => "chassis",
            CheckId::GuestOs => "guest_os",
            CheckId::Tunnel => "tunnel",
        }
    }
}

/// Outcome of one doctor row.
#[derive(Debug, Clone, Copy, PartialEq, Eq, Structural)]
pub enum CheckStatus {
    /// Required check passed.
    Pass,
    /// Required check failed. The node is ineligible.
    Fail,
    /// Advisory. Does not change eligibility.
    Warn,
}

/// One row of a doctor report.
#[derive(Debug, PartialEq, Eq)]
pub struct DoctorCheck {
    /// Which gate this row is.
    pub id: CheckId,
    /// Pass / fail / warn.
    pub status: CheckStatus,
    /// Human-readable detail. Safe to print; contains no secrets.
    pub detail: String,
}

/// A doctor row with its detail as text.
pub struct CheckView {
    /// Which gate this row is.
    pub id: CheckId,
    /// Pass / fail / warn.
    pub status: CheckStatus,
    /// Human-readable detail.
    pub detail: Seq<char>,
}

impl View for DoctorCheck {
    type V = CheckView;

    open spec fn view(&self) -> CheckView {
        CheckView { id: self.id, status: self.status, detail: self.detail@ }
    }
}

/// The rows of a report with their details as text.
pub open spec fn check_views(checks: Seq<DoctorCheck>) -> Seq<CheckView> {
    checks.map_values(|c: DoctorCheck| c@)
}

/// This row is a failure of `id`.
pub open spec fn is_failure(check: CheckView, id: CheckId) -> bool {
    check.id == id && check.status == CheckStatus::Fail
}

/// Some row is a failure of `id`.
pub open spec fn has_failure(checks: Seq<CheckView>, id: CheckId) -> bool {
    exists|i: int| 0 <= i < checks.len() && is_failure(#[trigger] checks[i], id)
}

/// The detail of the first row that is a failure of `id`.
pub open spec fn first_failure(checks: Seq<CheckView>, id: CheckId) -> Option<Seq<char>>
    decreases checks.len(),
{
    if checks.len() == 0 {
        None
    } else if is_failure(checks[0], id) {
        Some(checks[0].detail)
    } else {
        first_failure(checks.drop_first(), id)
    }
}

/// No row failed.
pub open spec fn nothing_failed(checks: Seq<CheckView>) -> bool {
    forall|i: int| 0 <= i < checks.len() ==> (#[trigger] checks[i]).status != CheckStatus::Fail
}

/// The three labels of an attested image.
#[derive(Debug, PartialEq, Eq)]
pub struct ImageLabels {
    /// `berthos.guest.version`.
    pub guest_version: String,
    /// `berthos.desktop`.
    pub desktop: String,
    /// `berthos.egress.policy`.
    pub egress_policy: String,
}

/// Guest image as it stands in an attestation.
#[derive(Debug, PartialEq, Eq)]
pub struct ImageAttestation {
    /// Local image reference.
    pub name: String,
    /// Labels found on it.
    pub labels: ImageLabels,
}

impl View for ImageAttestation {
    type V = ImageView;

    open spec fn view(&self) -> ImageView {
        ImageView {
            name: self.name@,
            version: self.labels.guest_version@,
            desktop: self.labels.desktop@,
            egress: self.labels.egress_policy@,
        }
    }
}

/// The texts of an attested image that may be missing.
pub open spec fn opt_attestation(image: Option<ImageAttestation>) -> Option<ImageView> {
    match image {
        Some(i) => Some(i@),
        None => None,
    }
}

impl ImageAttestation {
    /// Attests an inspected image: same name, same labels.
    pub fn of(image: &GuestImage) -> (r: ImageAttestation)
        ensures
            r@ == image@,
    {
        ImageAttestation {
            name: image.name.clone(),
            labels: ImageLabels {
                guest_version: image.version_label.clone(),
                desktop: image.desktop_label.clone(),
                egress_policy: image.egress_label.clone(),
            },
        }
    }
}

/// Fail-closed doctor result. `eligible` is true only when no check failed.
#[derive(Debug, PartialEq, Eq)]
pub struct DoctorReport {
    /// Protocol version the evaluator used.
    pub protocol: String,
    /// Always [`ATTESTATION_SOURCE`].
    pub source: String,
    /// The same value as `eligible`.
    pub ok: bool,
    /// True only if every required check passed.
    pub eligible: bool,
    /// Class that was judged.
    pub class: NodeClass,
    /// Intent the operator asked the doctor to judge.
    pub intent: Intent,
    /// Individual rows, including warnings.
    pub checks: Vec<DoctorCheck>,
    /// Guest image with its labels; none where the image is missing.
    pub image: Option<ImageAttestation>,
    /// When this report was evaluated.
    pub timestamp: Timestamp,
}

impl Clone for DoctorReport {
    fn clone(&self) -> (r: DoctorReport)
        ensures
            r@ == self@,
    {
        let mut checks: Vec<DoctorCheck> = Vec::new();
        let mut i: usize = 0;
        while i < self.checks.len()
            invariant
                i <= self.checks@.len(),
                check_views(checks@) == check_views(self.checks@).take(i as int),
            decreases self.checks@.len() - i,
        {
            let check = &self.checks[i];
            let ghost before = checks@;
            checks.push(
                DoctorCheck { id: check.id, status: check.status, detail: check.detail.clone() },
            );
            assert(check_views(checks@) =~= check_views(before).push(check@));
            assert(check_views(self.checks@).take(i + 1) =~= check_views(self.checks@).take(
                i as int,
            ).push(check@));
            i += 1;
        }
        assert(check_views(self.checks@).take(i as int) =~= check_views(self.checks@));
        DoctorReport {
            protocol: self.protocol.clone(),
            source: self.source.clone(),
            ok: self.ok,
            eligible: self.eligible,
            class: self.class,
            intent: self.intent,
            checks,
            image: match &self.image {
                Some(image) => Some(
                    ImageAttestation {
                        name: image.name.clone(),
                        labels: ImageLabels {
                            guest_version: image.labels.guest_version.clone(),
                            desktop: image.labels.desktop.clone(),
                            egress_policy: image.labels.egress_policy.clone(),
                        },
                    },
                ),
                None => None,
            },
            timestamp: self.timestamp,
        }
    }
}

/// A doctor report with its texts.
pub struct ReportView {
    /// Protocol version.
    pub protocol: Seq<char>,
    /// Who evaluated.
    pub source: Seq<char>,
    /// May participate.
    pub ok: bool,
    /// Doctor wording of `ok`.
    pub eligible: bool,
    /// Class that was judged.
    pub class: NodeClass,
    /// Intent that was judged.
    pub intent: Intent,
    /// Individual rows.
    pub checks: Seq<CheckView>,
    /// Guest image.
    pub image: Option<ImageView>,
    /// When this report was evaluated.
    pub timestamp: Timestamp,
}

impl View for DoctorReport {
    type V = ReportView;

    open spec fn view(&self) -> ReportView {
        ReportView {
            protocol: self.protocol@,
            source: self.source@,
            ok: self.ok,
            eligible: self.eligible,
            class: self.class,
            intent: self.intent,
            checks: check_views(self.checks@),
            image: opt_attestation(self.image),
            timestamp: self.timestamp,
        }
    }
}

impl DoctorReport {
    /// Whether a specific required check failed.
    pub fn failed(&self, id: CheckId) -> (r: bool)
        ensures
            r == has_failure(self@.checks, id),
    {
        let ghost rows = check_views(self.checks@);
        let mut i: usize = 0;
        while i < self.checks.len()
            invariant
                rows == check_views(self.checks@),
                i <= self.checks@.len(),
                forall|k: int| 0 <= k < i ==> !is_failure(#[trigger] rows[k], id),
            decreases self.checks@.len() - i,
        {
            let check = &self.checks[i];
            if check.id == id && check.status == CheckStatus::Fail {
                assert(is_failure(rows[i as int], id));
                return true;
            }
            assert(!is_failure(rows[i as int], id));
            i += 1;
        }
        false
    }

    /// First failure detail for `id`, if any.
    pub fn failure_detail(&self, id: CheckId) -> (r: Option<&str>)
        ensures
            crate::text::opt_text(r) == first_failure(self@.checks, id),
    {
        let ghost rows = check_views(self.checks@);
        let mut i: usize = 0;
        assert(rows.skip(0) =~= rows);
        while i < self.checks.len()
            invariant
                rows == check_views(self.checks@),
                i <= self.checks@.len(),
                first_failure(rows, id) == first_failure(rows.skip(i as int), id),
            decreases self.checks@.len() - i,
        {
            assert(rows.skip(i as int).drop_first() =~= rows.skip(i + 1));
            let check = &self.checks[i];
            if check.id == id && check.status == CheckStatus::Fail {
                return Some(check.detail.as_str());
            }
            i += 1;
        }
        None
    }
}

/// A specific check failed exactly when there is a first failure of it.
pub proof fn law_failed_has_detail(checks: Seq<CheckView>, id: CheckId)
    ensures
        has_failure(checks, id) <==> first_failure(checks, id) is Some,
    decreases checks.len(),
{
    if checks.len() > 0 {
        let rest = checks.drop_first();
        law_failed_has_detail(rest, id);
        if is_failure(checks[0], id) {
            assert(has_failure(checks, id));
        } else if has_failure(checks, id) {
            let i = choose|i: int| 0 <= i < checks.len() && is_failure(#[trigger] checks[i], id);
            assert(is_failure(rest[i - 1], id));
        } else if has_failure(rest, id) {
            let i = choose|i: int| 0 <= i < rest.len() && is_failure(#[trigger] rest[i], id);
            assert(is_failure(checks[i + 1], id));
        }
    }
}

/// Observed or attested facts the evaluator consumes. Probe errors must be
/// represented as missing / false — never skipped.
#[derive(Debug, PartialEq, Eq)]
pub struct Facts {
    /// Advertised berth class.
    pub class: NodeClass,
    /// Attested chassis.
    pub chassis: Chassis,
    /// Private loopback vs public participation.
    pub intent: Intent,
    /// Guest OS that would be leased.
    pub guest_os: GuestOs,
    /// True when the node process will bind a loopback address.
    pub bind_is_loopback: bool,
    /// Bind address as advertised (for the report text).
    pub bind_display: String,
    /// Docker daemon (or equivalent) is up.
    pub runtime_running: bool,
    /// Inspected guest image, if present.
    pub guest_image: Option<GuestImage>,
    /// Effective egress policy the node will apply to guests.
    pub egress: EgressPolicy,
    /// Free vCPU the operator can give a guest.
    pub free_vcpu: u32,
    /// Free memory in GiB.
    pub free_mem_gib: u32,
    /// Operator attests the box does not sleep / lid-close.
    pub always_on: bool,
    /// Operator attests Ethernet / always-on uplink, not a cafe Wi-Fi laptop.
    pub wired: bool,
    /// Optional tunnel binary or config is present.
    pub tunnel_present: bool,
}

/// Facts with their texts.
pub struct FactsView {
    /// Advertised berth class.
    pub class: NodeClass,
    /// Attested chassis.
    pub chassis: Chassis,
    /// Private loopback vs public participation.
    pub intent: Intent,
    /// Guest OS that would be leased.
    pub guest_os: GuestOs,
    /// The node will bind a loopback address.
    pub bind_is_loopback: bool,
    /// Bind address as advertised.
    pub bind_display: Seq<char>,
    /// Docker daemon (or equivalent) is up.
    pub runtime_running: bool,
    /// Inspected guest image, if present.
    pub guest_image: Option<ImageView>,
    /// Effective egress policy.
    pub egress: EgressPolicy,
    /// Free vCPU.
    pub free_vcpu: u32,
    /// Free memory in GiB.
    pub free_mem_gib: u32,
    /// Always-on attestation.
    pub always_on: bool,
    /// Wired attestation.
    pub wired: bool,
    /// Optional tunnel is present.
    pub tunnel_present: bool,
}

impl View for Facts {
    type V = FactsView;

    open spec fn view(&self) -> FactsView {
        FactsView {
            class: self.class,
            chassis: self.chassis,
            intent: self.intent,
            guest_os: self.guest_os,
            bind_is_loopback: self.bind_is_loopback,
            bind_display: self.bind_display@,
            runtime_running: self.runtime_running,
            guest_image: opt_image(self.guest_image),
            egress: self.egress,
            free_vcpu: self.free_vcpu,
            free_mem_gib: self.free_mem_gib,
            always_on: self.always_on,
            wired: self.wired,
            tunnel_present: self.tunnel_present,
        }
    }
}

} // verus!
