//! Host probes. Any error is treated as a failed fact (fail closed).
//!
//! Probes themselves are commands and files; what they came to is handed in.

use vstd::prelude::*;
use vstd::string::*;

use crate::addr::{host_port, is_loopback_bits, IpAddr};
use crate::clock::Timestamp;
use crate::config::{is_default_config, NodeConfig};
use crate::decimal::{parse_u64, parsed_u64};
use crate::doctor::{
    eligible_private_facts, eligible_private_view, law_eligible_iff_every_requirement_holds,
    report_on,
};
use crate::eligibility::{
    labels_match, opt_image, Chassis, EgressPolicy, Facts, FactsView, GuestImage, GuestOs,
    ImageView, Intent, NodeClass, REQUIRED_GUEST_IMAGE,
};
use crate::guest::CommandOutcome;
use crate::json::{json_document, Json, JsonView};
use crate::text::{
    debug_text, first_word, leading_word, quoted, same, split, split_pieces,
    starts_with_text, strip_prefix, texts,
};

verus! {

/// What the probes of one observation came to.
#[derive(Debug, PartialEq, Eq)]
pub struct Probes {
    /// `docker info`.
    pub docker_info: CommandOutcome,
    /// `docker image inspect` of the configured image, printing its labels.
    pub image_inspect: CommandOutcome,
    /// Threads the machine runs at once, if it can tell.
    pub parallelism: Option<usize>,
    /// `/proc/meminfo`, if it could be read.
    pub meminfo: Option<String>,
    /// `cloudflared --version`.
    pub tunnel_version: CommandOutcome,
}

/// The command ran and ended well.
pub open spec fn succeeded(outcome: CommandOutcome) -> bool {
    outcome matches CommandOutcome::Exited { success, .. } && success
}

/// The image that its label document describes. A missing label is empty.
pub open spec fn labeled_image(name: Seq<char>, labels: JsonView) -> ImageView {
    ImageView {
        name,
        version: labels.text_or_empty("berthos.guest.version"@),
        desktop: labels.text_or_empty("berthos.desktop"@),
        egress: labels.text_or_empty("berthos.egress.policy"@),
    }
}

/// The image that an inspection found: none where the command failed or did
/// not print a document.
pub open spec fn inspected_image(name: Seq<char>, outcome: CommandOutcome) -> Option<ImageView> {
    match outcome {
        CommandOutcome::Exited { success, stdout, stderr } => if success {
            match json_document(stdout@) {
                Ok(labels) => Some(labeled_image(name, labels)),
                Err(_) => None,
            }
        } else {
            None
        },
        CommandOutcome::Unavailable(_) => None,
    }
}

/// What follows `prefix` on the first line that begins with it.
pub open spec fn first_line_after(lines: Seq<Seq<char>>, prefix: Seq<char>) -> Option<Seq<char>>
    decreases lines.len(),
{
    if lines.len() == 0 {
        None
    } else if starts_with_text(lines[0], prefix) {
        Some(lines[0].skip(prefix.len() as int))
    } else {
        first_line_after(lines.drop_first(), prefix)
    }
}

/// The number of KiB that a memory line gives; zero where it gives none.
pub open spec fn kib_of(rest: Seq<char>) -> u64 {
    match parsed_u64(first_word(rest)) {
        Some(kib) => kib,
        None => 0,
    }
}

/// Free memory in whole GiB, in the low thirty-two bits.
pub open spec fn available_gib(meminfo: Option<Seq<char>>) -> u32 {
    match meminfo {
        Some(text) => match first_line_after(split_pieces(text, '\n'), "MemAvailable:"@) {
            Some(rest) => ((kib_of(rest) as int / 1048576) % 0x1_0000_0000) as u32,
            None => 0,
        },
        None => 0,
    }
}

/// The number of threads, in the low thirty-two bits.
pub open spec fn available_vcpu(parallelism: Option<usize>) -> u32 {
    match parallelism {
        Some(n) => (n as int % 0x1_0000_0000) as u32,
        None => 0,
    }
}

/// The facts of a node with this config, its probes having come to `probes`.
pub open spec fn observed(config: NodeConfig, probes: Probes) -> FactsView {
    FactsView {
        class: config.class,
        chassis: config.chassis,
        intent: config.intent,
        guest_os: config.guest_os,
        bind_is_loopback: is_loopback_bits(config.bind_ip.bits),
        bind_display: host_port(config.bind_ip, config.port),
        runtime_running: succeeded(probes.docker_info),
        guest_image: if succeeded(probes.docker_info) {
            inspected_image(config.image@, probes.image_inspect)
        } else {
            None
        },
        egress: config.egress,
        free_vcpu: available_vcpu(probes.parallelism),
        free_mem_gib: available_gib(
            match probes.meminfo {
                Some(text) => Some(text@),
                None => None,
            },
        ),
        always_on: config.always_on,
        wired: config.wired,
        tunnel_present: succeeded(probes.tunnel_version),
    }
}

fn ended_well(outcome: &CommandOutcome) -> (r: bool)
    ensures
        r == succeeded(*outcome),
{
    match outcome {
        CommandOutcome::Exited { success, stdout, stderr } => *success,
        CommandOutcome::Unavailable(_) => false,
    }
}

/// True when `docker info` succeeded. Missing binary or a down daemon is false.
pub fn docker_available(info: &CommandOutcome) -> (r: bool)
    ensures
        r == succeeded(*info),
{
    ended_well(info)
}

/// True when the required guest image is present **and** carries v1 labels.
pub fn labeled_guest_image_ready(
    name: &str,
    info: &CommandOutcome,
    image_inspect: &CommandOutcome,
) -> (r: bool)
    ensures
        r == (succeeded(*info) && (inspected_image(name@, *image_inspect) matches Some(image)
            && labels_match(image))),
{
    docker_available(info) && match inspect_guest_image(name, image_inspect) {
        Some(image) => image.matches_required(),
        None => false,
    }
}

/// The image that its label document describes.
pub fn guest_image_from_labels(name: &str, labels: &Json) -> (r: GuestImage)
    ensures
        r@ == labeled_image(name@, labels@),
{
    GuestImage {
        name: name.to_string(),
        version_label: labels.text_or_empty("berthos.guest.version"),
        desktop_label: labels.text_or_empty("berthos.desktop"),
        egress_label: labels.text_or_empty("berthos.egress.policy"),
    }
}

/// The image that `docker image inspect` found.
pub fn inspect_guest_image(name: &str, outcome: &CommandOutcome) -> (r: Option<GuestImage>)
    ensures
        opt_image(r) == inspected_image(name@, *outcome),
{
    match outcome {
        CommandOutcome::Exited { success, stdout, stderr } => {
            if !*success {
                return None;
            }
            match Json::parse(stdout.as_slice()) {
                Ok(labels) => Some(guest_image_from_labels(name, &labels)),
                Err(_) => None,
            }
        },
        CommandOutcome::Unavailable(_) => None,
    }
}

/// Free vCPU. A machine that cannot tell has none.
pub fn free_vcpu(parallelism: Option<usize>) -> (r: u32)
    ensures
        r == available_vcpu(parallelism),
{
    match parallelism {
        Some(n) => (n as u64 % 0x1_0000_0000) as u32,
        None => 0,
    }
}

/// Free memory in whole GiB. A machine that cannot tell has none.
pub fn free_mem_gib(meminfo: Option<&str>) -> (r: u32)
    ensures
        r == available_gib(crate::text::opt_text(meminfo)),
{
    let text = match meminfo {
        Some(text) => text,
        None => {
            return 0;
        },
    };
    let lines = split(text, '\n');
    let ghost all = texts(lines@);
    let mut i: usize = 0;
    assert(all.skip(0) =~= all);
    while i < lines.len()
        invariant
            all == texts(lines@),
            all == split_pieces(text@, '\n'),
            meminfo == Some(text),
            i <= lines@.len(),
            first_line_after(all, "MemAvailable:"@) == first_line_after(
                all.skip(i as int),
                "MemAvailable:"@,
            ),
        decreases lines@.len() - i,
    {
        assert(all.skip(i as int).drop_first() =~= all.skip(i + 1));
        if let Some(rest) = strip_prefix(lines[i].as_str(), "MemAvailable:") {
            let kib: u64 = match parse_u64(leading_word(rest.as_str()).as_str()) {
                Some(kib) => kib,
                None => 0,
            };
            assert(kib == kib_of(rest@));
            assert(kib as int / 1024 / 1024 == kib as int / 1048576);
            return (kib / 1024 / 1024 % 0x1_0000_0000) as u32;
        }
        i += 1;
    }
    0
}

/// Fold probes into [`Facts`]. Probe failures become conservative (false /
/// missing / zero) values — never "skip this check".
pub fn observe(config: &NodeConfig, probes: &Probes) -> (r: Facts)
    ensures
        r@ == observed(*config, *probes),
{
    let runtime_running = docker_available(&probes.docker_info);
    let guest_image = if runtime_running {
        inspect_guest_image(config.image.as_str(), &probes.image_inspect)
    } else {
        None
    };
    Facts {
        class: config.class,
        chassis: config.chassis,
        intent: config.intent,
        guest_os: config.guest_os,
        bind_is_loopback: config.bind_ip.is_loopback(),
        bind_display: config.bind_ip.with_port(config.port),
        runtime_running,
        guest_image,
        egress: config.egress,
        free_vcpu: free_vcpu(probes.parallelism),
        free_mem_gib: free_mem_gib(
            match &probes.meminfo {
                Some(text) => Some(text.as_str()),
                None => None,
            },
        ),
        always_on: config.always_on,
        wired: config.wired,
        tunnel_present: ended_well(&probes.tunnel_version),
    }
}

/// A probe that fails leaves the node ineligible: no runtime, no image, no
/// processors and no memory each fail the doctor.
pub proof fn law_failed_probes_fail_closed(
    config: NodeConfig,
    probes: Probes,
    timestamp: Timestamp,
)
    requires
        ({
            ||| !succeeded(probes.docker_info)
            ||| !succeeded(probes.image_inspect)
            ||| probes.parallelism is None
            ||| probes.meminfo is None
        }),
    ensures
        !report_on(observed(config, probes), timestamp).ok,
        !report_on(observed(config, probes), timestamp).eligible,
{
    law_eligible_iff_every_requirement_holds(observed(config, probes), timestamp);
}

/// Fail-closed doctor simulations. Success cannot be simulated from the CLI.
#[derive(Debug, Clone, Copy, PartialEq, Eq, Structural)]
pub enum SimulateCase {
    /// `class=laptop`.
    Laptop,
    /// No labeled guest image.
    MissingImage,
    /// Listener on all interfaces.
    BindAll,
}

/// The simulation that a CLI value names.
pub open spec fn named_case(name: Seq<char>) -> Option<SimulateCase> {
    if name == "laptop"@ {
        Some(SimulateCase::Laptop)
    } else if name == "missing-image"@ {
        Some(SimulateCase::MissingImage)
    } else if name == "bind-all"@ {
        Some(SimulateCase::BindAll)
    } else {
        None
    }
}

/// Text for a CLI value that names no simulation, as `{:?}` prints the value.
pub open spec fn unknown_case_text(quoted_case: Seq<char>) -> Seq<char> {
    "unknown simulate case "@ + quoted_case + "; expected laptop, missing-image, or bind-all"@
}

/// Text for a CLI value that names no simulation, as `{:?}` prints the value.
pub fn unknown_case_message(quoted_case: &str) -> (r: String)
    ensures
        r@ == unknown_case_text(quoted_case@),
{
    let mut r = "unknown simulate case ".to_string();
    r.append(quoted_case);
    r.append("; expected laptop, missing-image, or bind-all");
    r
}

impl SimulateCase {
    /// Parse a CLI `--simulate` value.
    pub fn parse(raw: &str) -> (r: Result<SimulateCase, String>)
        ensures
            match r {
                Ok(case) => named_case(raw@) == Some(case),
                Err(message) => named_case(raw@) is None && message@ == unknown_case_text(
                    debug_text(raw@),
                ),
            },
    {
        if same(raw, "laptop") {
            Ok(SimulateCase::Laptop)
        } else if same(raw, "missing-image") {
            Ok(SimulateCase::MissingImage)
        } else if same(raw, "bind-all") {
            Ok(SimulateCase::BindAll)
        } else {
            Err(unknown_case_message(quoted(raw).as_str()))
        }
    }
}

/// The facts of a simulation: the fixture with one requirement broken.
pub open spec fn simulated(case: SimulateCase) -> FactsView {
    match case {
        SimulateCase::Laptop => FactsView { class: NodeClass::Laptop, ..eligible_private_view() },
        SimulateCase::MissingImage => FactsView { guest_image: None, ..eligible_private_view() },
        SimulateCase::BindAll => FactsView {
            bind_is_loopback: false,
            bind_display: "0.0.0.0:7432"@,
            ..eligible_private_view()
        },
    }
}

/// Facts for `--simulate` smoke cases. None of them describes an eligible
/// node.
pub fn simulate(case: SimulateCase) -> (r: Facts)
    ensures
        r@ == simulated(case),
{
    let mut facts = eligible_private_facts();
    match case {
        SimulateCase::Laptop => {
            facts.class = NodeClass::Laptop;
        },
        SimulateCase::MissingImage => {
            facts.guest_image = None;
        },
        SimulateCase::BindAll => {
            facts.bind_is_loopback = false;
            facts.bind_display = "0.0.0.0:7432".to_string();
        },
    }
    facts
}

/// No simulation is eligible.
pub proof fn law_simulations_fail_closed(case: SimulateCase, timestamp: Timestamp)
    ensures
        !report_on(simulated(case), timestamp).ok,
        !report_on(simulated(case), timestamp).eligible,
{
    law_eligible_iff_every_requirement_holds(simulated(case), timestamp);
}

/// Defaults used when no node config file exists.
pub fn default_facts_config() -> (r: NodeConfig)
    ensures
        is_default_config(r),
        r.bind_ip.text@ == "127.0.0.1"@,
{
    NodeConfig {
        class: NodeClass::VmGuest,
        chassis: Chassis::Unknown,
        intent: Intent::Private,
        guest_os: GuestOs::Linux,
        bind_ip: IpAddr::localhost(),
        port: 7432,
        egress: EgressPolicy::DefaultDeny,
        always_on: false,
        wired: false,
        image: REQUIRED_GUEST_IMAGE.to_string(),
    }
}

} // verus!
