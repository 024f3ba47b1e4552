//! The doctor judges what the operator advertised and what was probed.

use vstd::prelude::*;

use crate::addr::IpBits;
use crate::clock::Timestamp;
use crate::config::NodeConfig;
use crate::decimal::{
    decimal, law_decimal_read_back, lemma_decimal_digits, parsed_u64,
};
use crate::doctor::{
    availability_row, bind_row, capacity_row, chassis_row, class_row, doctor_rows, egress_row,
    guest_image_row, guest_os_row, report_on, runtime_row, tunnel_row,
};
use crate::eligibility::{
    has_failure, is_failure, Chassis, CheckId, CheckStatus, EgressPolicy, FactsView, GuestOs,
    Intent, NodeClass,
};
use crate::guest::CommandOutcome;
use crate::json::{json_document, JsonView};
use crate::laws::isolation::{ended_well, lemma_text_of_a_member};
use crate::probes::{available_gib, first_line_after, labeled_image, named_case, observed, simulated, Probes};
use crate::text::{contains_text, first_word, occurs_at, split_pieces, starts_with_text};

verus! {

/// An address that only this machine reaches: `127.0.0.0/8` or `::1`.
pub open spec fn is_on_loopback(bits: IpBits) -> bool {
    match bits {
        IpBits::V4(octets) => octets@[0] == 127,
        IpBits::V6(segments) => segments@ == seq![0u16, 0, 0, 0, 0, 0, 0, 1],
    }
}

/// The three labels of a v1 image.
pub open spec fn carries_v1_labels(labels: JsonView) -> bool {
    &&& labels.field("berthos.guest.version"@) == Some(JsonView::Str("v1"@))
    &&& labels.field("berthos.desktop"@) == Some(JsonView::Str("xvfb-openbox-chromium"@))
    &&& labels.field("berthos.egress.policy"@) == Some(JsonView::Str("default-deny"@))
}

/// `docker image inspect` printed the labels of a v1 image.
pub open spec fn shows_v1_image(outcome: CommandOutcome) -> bool {
    &&& outcome matches CommandOutcome::Exited { success, stdout, stderr }
    &&& success
    &&& json_document(stdout@) matches Ok(labels)
    &&& carries_v1_labels(labels)
}

/// The free memory that the probes saw, in GiB.
pub open spec fn seen_gib(probes: Probes) -> u32 {
    match probes.meminfo {
        Some(text) => available_gib(Some(text@)),
        None => 0,
    }
}

/// The processors that the probes saw.
pub open spec fn seen_vcpu(probes: Probes) -> int {
    match probes.parallelism {
        Some(n) => n as int % 0x1_0000_0000,
        None => 0,
    }
}

proof fn lemma_failures(facts: FactsView)
    ensures
        has_failure(doctor_rows(facts), CheckId::Class) == (class_row(facts.class).status
            == CheckStatus::Fail),
        has_failure(doctor_rows(facts), CheckId::Bind) == (bind_row(
            facts.bind_is_loopback,
            facts.bind_display,
        ).status == CheckStatus::Fail),
        has_failure(doctor_rows(facts), CheckId::Runtime) == (runtime_row(
            facts.runtime_running,
        ).status == CheckStatus::Fail),
        has_failure(doctor_rows(facts), CheckId::GuestImage) == (guest_image_row(
            facts.guest_image,
        ).status == CheckStatus::Fail),
        has_failure(doctor_rows(facts), CheckId::Egress) == (egress_row(facts.egress).status
            == CheckStatus::Fail),
        has_failure(doctor_rows(facts), CheckId::Capacity) == (capacity_row(
            facts.free_vcpu,
            facts.free_mem_gib,
        ).status == CheckStatus::Fail),
        has_failure(doctor_rows(facts), CheckId::GuestOs) == (guest_os_row(
            facts.guest_os,
            facts.intent,
        ).status == CheckStatus::Fail),
        has_failure(doctor_rows(facts), CheckId::Chassis) == (chassis_row(
            facts.chassis,
            facts.intent,
        ).status == CheckStatus::Fail),
        has_failure(doctor_rows(facts), CheckId::Availability) == (availability_row(
            facts.always_on,
            facts.wired,
            facts.intent,
        ).status == CheckStatus::Fail),
        !has_failure(doctor_rows(facts), CheckId::Tunnel),
{
    let rows = doctor_rows(facts);
    assert(rows[0] == class_row(facts.class));
    assert(rows[1] == bind_row(facts.bind_is_loopback, facts.bind_display));
    assert(rows[2] == runtime_row(facts.runtime_running));
    assert(rows[3] == guest_image_row(facts.guest_image));
    assert(rows[4] == egress_row(facts.egress));
    assert(rows[5] == capacity_row(facts.free_vcpu, facts.free_mem_gib));
    assert(rows[6] == guest_os_row(facts.guest_os, facts.intent));
    assert(rows[7] == chassis_row(facts.chassis, facts.intent));
    assert(rows[8] == availability_row(facts.always_on, facts.wired, facts.intent));
    assert(rows[9] == tunnel_row(facts.tunnel_present));
    assert(forall|id: CheckId, i: int|
        0 <= i < 10 && #[trigger] is_failure(rows[i], id) ==> rows[i].status
            == CheckStatus::Fail);
}

/// Each check fails for its own reason and no other, going by the config and
/// by what the probes came to.
pub proof fn law_each_check_fails_for_its_own_reason(
    config: NodeConfig,
    probes: Probes,
    timestamp: Timestamp,
)
    ensures
        ({
            let rows = report_on(observed(config, probes), timestamp).checks;
            &&& has_failure(rows, CheckId::Class) <==> config.class == NodeClass::Laptop
            &&& has_failure(rows, CheckId::Bind) <==> !is_on_loopback(config.bind_ip.bits)
            &&& has_failure(rows, CheckId::Runtime) <==> !ended_well(probes.docker_info)
            &&& has_failure(rows, CheckId::GuestImage) <==> !ended_well(probes.docker_info)
                || !shows_v1_image(probes.image_inspect)
            &&& has_failure(rows, CheckId::Egress) <==> config.egress != EgressPolicy::DefaultDeny
            &&& has_failure(rows, CheckId::Capacity) <==> seen_vcpu(probes) < 2 || seen_gib(probes)
                < 4
            &&& has_failure(rows, CheckId::GuestOs) <==> config.guest_os != GuestOs::Linux
            &&& has_failure(rows, CheckId::Chassis) <==> config.intent == Intent::Public
                && config.chassis != Chassis::Server && config.chassis != Chassis::VmHost
            &&& has_failure(rows, CheckId::Availability) <==> config.intent == Intent::Public && !(
            config.always_on && config.wired)
            &&& !has_failure(rows, CheckId::Tunnel)
            &&& rows.len() == 10
        }),
{
    let facts = observed(config, probes);
    lemma_failures(facts);
    lemma_loopback(config.bind_ip.bits);
    lemma_image(config, probes);
}

proof fn lemma_loopback(bits: IpBits)
    ensures
        crate::addr::is_loopback_bits(bits) == is_on_loopback(bits),
{
    match bits {
        IpBits::V4(octets) => {},
        IpBits::V6(segments) => {
            let one = seq![0u16, 0, 0, 0, 0, 0, 0, 1];
            if crate::addr::is_loopback_bits(bits) {
                assert(segments@ =~= one);
            }
            if segments@ == one {
                assert(forall|i: int| 0 <= i < 7 ==> #[trigger] segments@[i] == one[i]);
            }
        },
    }
}

proof fn lemma_labels(name: Seq<char>, labels: JsonView)
    ensures
        crate::eligibility::labels_match(labeled_image(name, labels)) == carries_v1_labels(labels),
{
    reveal_strlit("v1");
    reveal_strlit("xvfb-openbox-chromium");
    reveal_strlit("default-deny");
    lemma_text_of_a_member(labels, "berthos.guest.version"@, "v1"@);
    lemma_text_of_a_member(labels, "berthos.desktop"@, "xvfb-openbox-chromium"@);
    lemma_text_of_a_member(labels, "berthos.egress.policy"@, "default-deny"@);
}

proof fn lemma_image(config: NodeConfig, probes: Probes)
    ensures
        ({
            let image = observed(config, probes).guest_image;
            &&& (image matches Some(image) && crate::eligibility::labels_match(image)) == (
            ended_well(probes.docker_info) && shows_v1_image(probes.image_inspect))
        }),
{
    match probes.image_inspect {
        CommandOutcome::Exited { success, stdout, stderr } => {
            match json_document(stdout@) {
                Ok(labels) => {
                    lemma_labels(config.image@, labels);
                },
                Err(_) => {},
            }
        },
        CommandOutcome::Unavailable(_) => {},
    }
}

/// The doctor judges what the operator advertised: the report carries the
/// config's own class and intent, and it says eligible exactly where the
/// config and the probes give no reason against it. A public node is eligible
/// only on a server or a VM host that is wired and always on.
pub proof fn law_doctor_judges_what_was_advertised(
    config: NodeConfig,
    probes: Probes,
    timestamp: Timestamp,
)
    ensures
        ({
            let report = report_on(observed(config, probes), timestamp);
            &&& report.class == config.class
            &&& report.intent == config.intent
            &&& report.timestamp == timestamp
            &&& report.ok == report.eligible
            &&& report.image matches Some(image) ==> image.name == config.image@
            &&& report.image is Some <==> ended_well(probes.docker_info) && ended_well(
                probes.image_inspect,
            ) && json_document(probes.image_inspect->stdout@) is Ok
            &&& observed(config, probes).bind_display == config.bind_ip.text@ + ":"@ + decimal(
                config.port as nat,
            )
            &&& observed(config, probes).free_vcpu == seen_vcpu(probes)
            &&& observed(config, probes).free_mem_gib == seen_gib(probes)
            &&& observed(config, probes).tunnel_present == ended_well(probes.tunnel_version)
            &&& report.eligible <==> {
                &&& config.class == NodeClass::VmGuest || config.class == NodeClass::DedicatedServer
                &&& is_on_loopback(config.bind_ip.bits)
                &&& ended_well(probes.docker_info)
                &&& shows_v1_image(probes.image_inspect)
                &&& config.egress == EgressPolicy::DefaultDeny
                &&& seen_vcpu(probes) >= 2
                &&& seen_gib(probes) >= 4
                &&& config.guest_os == GuestOs::Linux
                &&& config.intent == Intent::Public ==> {
                    &&& config.chassis == Chassis::Server || config.chassis == Chassis::VmHost
                    &&& config.always_on
                    &&& config.wired
                }
            }
        }),
{
    let facts = observed(config, probes);
    crate::doctor::law_eligible_iff_every_requirement_holds(facts, timestamp);
    lemma_loopback(config.bind_ip.bits);
    lemma_image(config, probes);
}

/// Whatever the facts: a report is eligible exactly where no check of it
/// failed, and it has a row for every check.
pub proof fn law_eligible_means_no_check_failed(facts: FactsView, timestamp: Timestamp)
    ensures
        ({
            let report = report_on(facts, timestamp);
            &&& report.eligible <==> forall|id: CheckId| !#[trigger] has_failure(report.checks, id)
            &&& report.class == facts.class
            &&& report.intent == facts.intent
            &&& report.image == facts.guest_image
            &&& report.timestamp == timestamp
            &&& report.protocol == "v1"@
            &&& report.source == "berthos.doctor"@
            &&& forall|i: int|
                0 <= i < report.checks.len() ==> (#[trigger] report.checks[i]).id == seq![
                    CheckId::Class,
                    CheckId::Bind,
                    CheckId::Runtime,
                    CheckId::GuestImage,
                    CheckId::Egress,
                    CheckId::Capacity,
                    CheckId::GuestOs,
                    CheckId::Chassis,
                    CheckId::Availability,
                    CheckId::Tunnel,
                ][i]
        }),
{
    let report = report_on(facts, timestamp);
    let rows = report.checks;
    if report.eligible {
        assert forall|id: CheckId| !#[trigger] has_failure(rows, id) by {}
    }
    if !report.eligible {
        let i = choose|i: int|
            0 <= i < rows.len() && (#[trigger] rows[i]).status == CheckStatus::Fail;
        assert(is_failure(rows[i], rows[i].id));
        assert(has_failure(rows, rows[i].id));
    }
}

proof fn lemma_first_line(lines: Seq<Seq<char>>, prefix: Seq<char>, i: int)
    requires
        0 <= i < lines.len(),
        starts_with_text(lines[i], prefix),
        forall|j: int| 0 <= j < i ==> !starts_with_text(#[trigger] lines[j], prefix),
    ensures
        first_line_after(lines, prefix) == Some(lines[i].skip(prefix.len() as int)),
    decreases i,
{
    if i > 0 {
        assert(!starts_with_text(lines[0], prefix));
        let rest = lines.drop_first();
        assert forall|j: int| 0 <= j < i - 1 implies !starts_with_text(
            #[trigger] rest[j],
            prefix,
        ) by {
            assert(rest[j] == lines[j + 1]);
        }
        lemma_first_line(rest, prefix, i - 1);
    }
}

/// Free memory is what the first `MemAvailable:` line of `/proc/meminfo` gives
/// in KiB, in whole GiB, rounded down; a text without such a line has none.
pub proof fn law_memory_is_counted_in_whole_gib(text: Seq<char>, i: int, kib: u64)
    requires
        0 <= i < split_pieces(text, '\n').len(),
        starts_with_text(split_pieces(text, '\n')[i], "MemAvailable:"@),
        forall|j: int|
            0 <= j < i ==> !starts_with_text(
                #[trigger] split_pieces(text, '\n')[j],
                "MemAvailable:"@,
            ),
        first_word(split_pieces(text, '\n')[i].skip(13)) == decimal(kib as nat),
        kib < 0x10_0000_0000_0000,
    ensures
        available_gib(Some(text)) * 1048576 <= kib < (available_gib(Some(text)) + 1) * 1048576,
{
    let lines = split_pieces(text, '\n');
    reveal_strlit("MemAvailable:");
    lemma_first_line(lines, "MemAvailable:"@, i);
    let word = decimal(kib as nat);
    lemma_decimal_digits(kib as nat);
    law_decimal_read_back(kib as nat);
    assert(word[0] != '+');
    assert(parsed_u64(word) == Some(kib));
    let gib = kib as int / 1048576;
    assert(gib < 0x1_0000_0000);
    assert(available_gib(Some(text)) == gib);
}

/// A text without a `MemAvailable:` line has no free memory, and neither has a
/// machine that cannot tell.
pub proof fn law_unknown_memory_is_none(text: Seq<char>)
    requires
        forall|j: int|
            0 <= j < split_pieces(text, '\n').len() ==> !starts_with_text(
                #[trigger] split_pieces(text, '\n')[j],
                "MemAvailable:"@,
            ),
    ensures
        available_gib(Some(text)) == 0,
        available_gib(None) == 0,
{
    lemma_no_line(split_pieces(text, '\n'), "MemAvailable:"@);
}

proof fn lemma_no_line(lines: Seq<Seq<char>>, prefix: Seq<char>)
    requires
        forall|j: int| 0 <= j < lines.len() ==> !starts_with_text(#[trigger] lines[j], prefix),
    ensures
        first_line_after(lines, prefix) is None,
    decreases lines.len(),
{
    if lines.len() > 0 {
        assert(!starts_with_text(lines[0], prefix));
        let rest = lines.drop_first();
        assert forall|j: int| 0 <= j < rest.len() implies !starts_with_text(
            #[trigger] rest[j],
            prefix,
        ) by {
            assert(rest[j] == lines[j + 1]);
        }
        lemma_no_line(rest, prefix);
    }
}

/// What the doctor says of the free capacity names both numbers, and what it
/// says of the listener names where it listens.
pub proof fn law_rows_name_what_was_seen(facts: FactsView, timestamp: Timestamp)
    ensures
        ({
            let rows = report_on(facts, timestamp).checks;
            &&& facts.free_vcpu > 0 && facts.free_mem_gib > 0 ==> contains_text(
                rows[5].detail,
                decimal(facts.free_vcpu as nat) + " vCPU"@,
            ) && contains_text(rows[5].detail, decimal(facts.free_mem_gib as nat) + " GiB"@)
            &&& contains_text(rows[1].detail, "("@ + facts.bind_display + ")"@)
            &&& facts.guest_image matches Some(image) ==> contains_text(
                rows[3].detail,
                image.name,
            )
        }),
{
    let rows = report_on(facts, timestamp).checks;
    let bind = rows[1].detail;
    reveal_strlit("(");
    reveal_strlit(")");
    if facts.bind_is_loopback {
        reveal_strlit("loopback bind only (");
        lemma_found(
            bind,
            "loopback bind only ("@.drop_last(),
            "("@ + facts.bind_display + ")"@,
            Seq::empty(),
        );
    } else {
        reveal_strlit("bind-all rejected (");
        reveal_strlit("); node HTTP must listen on 127.0.0.1 / ::1");
        let tail = "); node HTTP must listen on 127.0.0.1 / ::1"@;
        lemma_found(
            bind,
            "bind-all rejected ("@.drop_last(),
            "("@ + facts.bind_display + ")"@,
            tail.skip(1),
        );
    }
    reveal_strlit(" vCPU");
    reveal_strlit(" GiB");
    let vcpu = decimal(facts.free_vcpu as nat);
    let gib = decimal(facts.free_mem_gib as nat);
    let capacity = rows[5].detail;
    if facts.free_vcpu > 0 && facts.free_mem_gib > 0 {
        if rows[5].status == CheckStatus::Fail {
            reveal_strlit(" vCPU, ");
            reveal_strlit(" GiB); need at least ");
            let head = "not enough free capacity ("@;
            let end = capacity.skip((head + vcpu + " vCPU, "@ + gib + " GiB"@).len() as int);
            lemma_found(
                capacity,
                head,
                vcpu + " vCPU"@,
                capacity.skip((head + vcpu + " vCPU"@).len() as int),
            );
            lemma_found(capacity, head + vcpu + " vCPU, "@, gib + " GiB"@, end);
        } else {
            reveal_strlit(" vCPU and ");
            reveal_strlit(" GiB free");
            lemma_found(
                capacity,
                Seq::empty(),
                vcpu + " vCPU"@,
                capacity.skip((vcpu + " vCPU"@).len() as int),
            );
            lemma_found(
                capacity,
                vcpu + " vCPU and "@,
                gib + " GiB"@,
                capacity.skip((vcpu + " vCPU and "@ + gib + " GiB"@).len() as int),
            );
        }
    }
    match facts.guest_image {
        Some(image) => {
            let detail = rows[3].detail;
            if rows[3].status == CheckStatus::Fail {
                lemma_found(
                    detail,
                    "image "@,
                    image.name,
                    detail.skip(("image "@ + image.name).len() as int),
                );
            } else {
                lemma_found(
                    detail,
                    Seq::empty(),
                    image.name,
                    detail.skip(image.name.len() as int),
                );
            }
        },
        None => {},
    }
}

/// A simulation breaks the one requirement that it is named after, and fails
/// that check and no other.
pub proof fn law_simulations_break_one_requirement(
    name: Seq<char>,
    id: CheckId,
    timestamp: Timestamp,
)
    ensures
        named_case(name) is Some <==> name == "laptop"@ || name == "missing-image"@ || name
            == "bind-all"@,
        named_case(name) matches Some(case) ==> {
            let report = report_on(simulated(case), timestamp);
            &&& !report.eligible
            &&& report.intent == Intent::Private
            &&& name == "bind-all"@ ==> contains_text(report.checks[1].detail, "(0.0.0.0:7432)"@)
            &&& has_failure(report.checks, id) <==> {
                ||| name == "laptop"@ && id == CheckId::Class
                ||| name == "missing-image"@ && id == CheckId::GuestImage
                ||| name == "bind-all"@ && id == CheckId::Bind
            }
        },
{
    reveal_strlit("laptop");
    reveal_strlit("missing-image");
    reveal_strlit("bind-all");
    assert("laptop"@.len() != "missing-image"@.len() && "laptop"@.len() != "bind-all"@.len()
        && "missing-image"@.len() != "bind-all"@.len());
    match named_case(name) {
        Some(case) => {
            lemma_failures(simulated(case));
            law_eligible_means_no_check_failed(simulated(case), timestamp);
            law_rows_name_what_was_seen(simulated(case), timestamp);
            reveal_strlit("(");
            reveal_strlit(")");
            reveal_strlit("0.0.0.0:7432");
            reveal_strlit("(0.0.0.0:7432)");
            assert("("@ + "0.0.0.0:7432"@ + ")"@ =~= "(0.0.0.0:7432)"@);
            assert(has_failure(report_on(simulated(case), timestamp).checks, id) ==> id
                != CheckId::Tunnel);
        },
        None => {},
    }
}

/// What stands between two texts is contained in all three together.
pub proof fn lemma_found(all: Seq<char>, before: Seq<char>, needle: Seq<char>, behind: Seq<char>)
    requires
        all =~= before + needle + behind,
    ensures
        contains_text(all, needle),
{
    let at = before.len() as int;
    assert forall|k: int| 0 <= k < needle.len() implies all[at + k] == #[trigger] needle[k] by {}
    assert(occurs_at(all, needle, at));
}

/// A `MemAvailable:` line that gives no number gives no memory.
pub proof fn law_unreadable_memory_is_none(text: Seq<char>, i: int)
    requires
        0 <= i < split_pieces(text, '\n').len(),
        starts_with_text(split_pieces(text, '\n')[i], "MemAvailable:"@),
        forall|j: int|
            0 <= j < i ==> !starts_with_text(
                #[trigger] split_pieces(text, '\n')[j],
                "MemAvailable:"@,
            ),
        parsed_u64(first_word(split_pieces(text, '\n')[i].skip(13))) is None,
    ensures
        available_gib(Some(text)) == 0,
{
    reveal_strlit("MemAvailable:");
    lemma_first_line(split_pieces(text, '\n'), "MemAvailable:"@, i);
}

/// What is said of a public node that is not always on, or not wired, says
/// which of both it is.
pub proof fn law_unavailable_nodes_are_told_why(facts: FactsView, timestamp: Timestamp)
    requires
        facts.intent == Intent::Public,
        !(facts.always_on && facts.wired),
    ensures
        ({
            let detail = report_on(facts, timestamp).checks[8].detail;
            &&& facts.always_on ==> contains_text(detail, "(always_on=true, wired=false)"@)
            &&& facts.wired ==> contains_text(detail, "(always_on=false, wired=true)"@)
            &&& !facts.always_on && !facts.wired ==> contains_text(
                detail,
                "(always_on=false, wired=false)"@,
            )
        }),
{
    let detail = report_on(facts, timestamp).checks[8].detail;
    reveal_strlit("public node must advertise wired+always-on (always_on=");
    reveal_strlit(", wired=");
    reveal_strlit("); lid-close is not an SLA");
    reveal_strlit("true");
    reveal_strlit("false");
    reveal_strlit("(always_on=true, wired=false)");
    reveal_strlit("(always_on=false, wired=true)");
    reveal_strlit("(always_on=false, wired=false)");
    let head = "public node must advertise wired+always-on (always_on="@.take(43);
    let tail = "); lid-close is not an SLA"@.skip(1);
    if facts.always_on {
        lemma_found(detail, head, "(always_on=true, wired=false)"@, tail);
    } else if facts.wired {
        lemma_found(detail, head, "(always_on=false, wired=true)"@, tail);
    } else {
        lemma_found(detail, head, "(always_on=false, wired=false)"@, tail);
    }
}

} // verus!
