//! What is printed and what is stored of a report says what it says.

use vstd::prelude::*;

use crate::addr::{host_port, socket_text, IpAddr, SocketAddr};
use crate::attestation::{attestation_json, check_json, image_json};
use crate::cli::{
    check_line, lease_text, named_os, quote_line, receipt_text, report_lines, url_of,
};
use crate::config::{config_error_text, ConfigError};
use crate::decimal::decimal;
use crate::eligibility::{
    CheckId, CheckStatus, CheckView, GuestOs, ImageView, Intent, NodeClass, ReportView,
};
use crate::guest::{guest_error_text, GuestErrorView};
use crate::http::{pair_refusal, Refusal};
use crate::json::{lemma_lookup, JsonView};
use crate::laws::eligibility::lemma_found;
use crate::laws::metering::says_text;
use crate::pairing::{Capability, PairError};
use crate::probes::labeled_image;
use crate::session::{Lease, Receipt};
use crate::text::{contains_text, debug_text, lowercase, starts_with_text};
use crate::view::{view_error_text, ViewError};
use crate::{node_error_text, NodeError};

verus! {

/// The stored form of a row says its check, how it went, and why.
pub proof fn law_stored_rows_say_what_the_rows_say(check: CheckView)
    ensures
        ({
            let doc = check_json(check);
            &&& says_text(
                doc,
                "id"@,
                match check.id {
                    CheckId::Class => "class"@,
                    CheckId::Bind => "bind"@,
                    CheckId::Runtime => "runtime"@,
                    CheckId::GuestImage => "guest_image"@,
                    CheckId::Egress => "egress"@,
                    CheckId::Capacity => "capacity"@,
                    CheckId::Availability => "availability"@,
                    CheckId::Chassis => "chassis"@,
                    CheckId::GuestOs => "guest_os"@,
                    CheckId::Tunnel => "tunnel"@,
                },
            )
            &&& says_text(
                doc,
                "status"@,
                match check.status {
                    CheckStatus::Pass => "pass"@,
                    CheckStatus::Fail => "fail"@,
                    CheckStatus::Warn => "warn"@,
                },
            )
            &&& says_text(doc, "detail"@, check.detail)
        }),
{
    reveal_strlit("id");
    reveal_strlit("status");
    reveal_strlit("detail");
    assert("id"@.len() == 2 && "status"@.len() == 6 && "detail"@.len() == 6);
    assert("status"@[0] == 's' && "detail"@[0] == 'd');
    let list = check_json(check)->Object_0;
    lemma_lookup(list, 0, "id"@);
    lemma_lookup(list, 1, "status"@);
    lemma_lookup(list, 2, "detail"@);
}

/// The stored form of an image is null where there is none; else its name and
/// the labels out of which the same image is read again.
pub proof fn law_stored_image_reads_back(image: Option<ImageView>)
    ensures
        match image {
            None => image_json(image) == JsonView::Null,
            Some(seen) => {
                &&& says_text(image_json(image), "name"@, seen.name)
                &&& image_json(image).field("labels"@) matches Some(labels)
                &&& says_text(labels, "berthos.guest.version"@, seen.version)
                &&& says_text(labels, "berthos.desktop"@, seen.desktop)
                &&& says_text(labels, "berthos.egress.policy"@, seen.egress)
                &&& labeled_image(seen.name, labels) == seen
            },
        },
{
    match image {
        None => {},
        Some(seen) => {
            reveal_strlit("name");
            reveal_strlit("labels");
            reveal_strlit("berthos.guest.version");
            reveal_strlit("berthos.desktop");
            reveal_strlit("berthos.egress.policy");
            assert("name"@.len() == 4 && "labels"@.len() == 6 && "berthos.guest.version"@.len()
                == 21 && "berthos.desktop"@.len() == 15 && "berthos.egress.policy"@.len() == 21);
            assert("berthos.guest.version"@[8] == 'g' && "berthos.egress.policy"@[8] == 'e');
            let list = image_json(image)->Object_0;
            lemma_lookup(list, 0, "name"@);
            lemma_lookup(list, 1, "labels"@);
            let labels = list[1].1->Object_0;
            lemma_lookup(labels, 0, "berthos.guest.version"@);
            lemma_lookup(labels, 1, "berthos.desktop"@);
            lemma_lookup(labels, 2, "berthos.egress.policy"@);
        },
    }
}

/// The stored form of a report says what the report says, row by row.
pub proof fn law_stored_report_says_what_the_report_says(report: ReportView, timestamp: Seq<char>)
    ensures
        ({
            let doc = attestation_json(report, timestamp);
            &&& says_text(doc, "protocol"@, report.protocol)
            &&& says_text(doc, "source"@, report.source)
            &&& doc.field("ok"@) == Some(JsonView::Bool(report.ok))
            &&& doc.field("eligible"@) == Some(JsonView::Bool(report.eligible))
            &&& says_text(
                doc,
                "class"@,
                match report.class {
                    NodeClass::VmGuest => "vm-guest"@,
                    NodeClass::DedicatedServer => "dedicated-server"@,
                    NodeClass::Laptop => "laptop"@,
                },
            )
            &&& says_text(
                doc,
                "intent"@,
                match report.intent {
                    Intent::Private => "private"@,
                    Intent::Public => "public"@,
                },
            )
            &&& doc.field("checks"@) matches Some(JsonView::Array(rows))
            &&& rows.len() == report.checks.len()
            &&& forall|i: int|
                0 <= i < rows.len() ==> #[trigger] rows[i] == check_json(report.checks[i])
            &&& doc.field("image"@) == Some(image_json(report.image))
            &&& says_text(doc, "timestamp"@, timestamp)
        }),
{
    reveal_strlit("protocol");
    reveal_strlit("source");
    reveal_strlit("ok");
    reveal_strlit("eligible");
    reveal_strlit("class");
    reveal_strlit("intent");
    reveal_strlit("checks");
    reveal_strlit("image");
    reveal_strlit("timestamp");
    assert("protocol"@.len() == 8 && "source"@.len() == 6 && "ok"@.len() == 2 && "eligible"@.len()
        == 8 && "class"@.len() == 5 && "intent"@.len() == 6 && "checks"@.len() == 6
        && "image"@.len() == 5 && "timestamp"@.len() == 9);
    assert("protocol"@[0] == 'p' && "eligible"@[0] == 'e' && "source"@[0] == 's' && "intent"@[0]
        == 'i' && "checks"@[0] == 'c' && "class"@[0] == 'c' && "image"@[0] == 'i');
    let list = attestation_json(report, timestamp)->Object_0;
    lemma_lookup(list, 0, "protocol"@);
    lemma_lookup(list, 1, "source"@);
    lemma_lookup(list, 2, "ok"@);
    lemma_lookup(list, 3, "eligible"@);
    lemma_lookup(list, 4, "class"@);
    lemma_lookup(list, 5, "intent"@);
    lemma_lookup(list, 6, "checks"@);
    lemma_lookup(list, 7, "image"@);
    lemma_lookup(list, 8, "timestamp"@);
}

/// A printed report has a line for every row, between a line that gives the
/// intent and a line that gives the verdict.
pub proof fn law_printed_report_says_what_the_report_says(report: ReportView, i: int)
    requires
        0 <= i < report.checks.len(),
    ensures
        ({
            let lines = report_lines(report);
            let n = report.checks.len();
            &&& lines.len() == n + 5
            &&& contains_text(
                lines[0],
                match report.intent {
                    Intent::Private => "intent=Private"@,
                    Intent::Public => "intent=Public"@,
                },
            )
            &&& lines[i + 2] == check_line(report.checks[i])
            &&& report.eligible <==> lines[n as int + 3] == "eligible: yes"@
            &&& !report.eligible ==> starts_with_text(lines[n as int + 3], "eligible: no"@)
        }),
{
    let lines = report_lines(report);
    let n = report.checks.len() as int;
    let rows = report.checks.map_values(|c: CheckView| check_line(c));
    assert(lines[i + 2] == rows[i]);
    reveal_strlit("Berthos doctor (fail-closed)  intent=");
    reveal_strlit("Private");
    reveal_strlit("Public");
    reveal_strlit("intent=Private");
    reveal_strlit("intent=Public");
    let head = "Berthos doctor (fail-closed)  intent="@;
    match report.intent {
        Intent::Private => {
            lemma_found(lines[0], head.take(30), "intent=Private"@, Seq::empty());
        },
        Intent::Public => {
            lemma_found(lines[0], head.take(30), "intent=Public"@, Seq::empty());
        },
    }
    reveal_strlit("eligible: yes");
    reveal_strlit("eligible: no");
    reveal_strlit("eligible: no — this node cannot participate until every required check passes");
    let no = "eligible: no — this node cannot participate until every required check passes"@;
    let prefix = "eligible: no"@;
    assert(no[10] == 'n' && "eligible: yes"@[10] == 'y');
    assert forall|k: int| 0 <= k < prefix.len() implies no[0 + k] == #[trigger] prefix[k] by {}
    assert(crate::text::occurs_at(no, prefix, 0));
}

/// A printed row shows in brackets how the check went, and why.
pub proof fn law_printed_row_says_what_the_row_says(check: CheckView)
    ensures
        check.status == CheckStatus::Pass ==> starts_with_text(check_line(check), "  [pass] "@),
        check.status == CheckStatus::Fail ==> starts_with_text(check_line(check), "  [FAIL] "@),
        check.status == CheckStatus::Warn ==> starts_with_text(check_line(check), "  [warn] "@),
        contains_text(check_line(check), check.detail),
        contains_text(
            check_line(check),
            match check.id {
                CheckId::Class => "class"@,
                CheckId::Bind => "bind"@,
                CheckId::Runtime => "runtime"@,
                CheckId::GuestImage => "guest_image"@,
                CheckId::Egress => "egress"@,
                CheckId::Capacity => "capacity"@,
                CheckId::Availability => "availability"@,
                CheckId::Chassis => "chassis"@,
                CheckId::GuestOs => "guest_os"@,
                CheckId::Tunnel => "tunnel"@,
            },
        ),
{
    let line = check_line(check);
    reveal_strlit("  [");
    reveal_strlit("] ");
    reveal_strlit("pass");
    reveal_strlit("FAIL");
    reveal_strlit("warn");
    reveal_strlit("  [pass] ");
    reveal_strlit("  [FAIL] ");
    reveal_strlit("  [warn] ");
    let mark = match check.status {
        CheckStatus::Pass => "pass"@,
        CheckStatus::Fail => "FAIL"@,
        CheckStatus::Warn => "warn"@,
    };
    let shown = match check.status {
        CheckStatus::Pass => "  [pass] "@,
        CheckStatus::Fail => "  [FAIL] "@,
        CheckStatus::Warn => "  [warn] "@,
    };
    let name = crate::eligibility::check_name(check.id);
    let head = "  ["@ + mark + "] "@;
    assert(head =~= shown);
    assert forall|k: int| 0 <= k < shown.len() implies line[0 + k] == #[trigger] shown[k] by {
        assert(head[k] == shown[k]);
    }
    assert(crate::text::occurs_at(line, shown, 0));
    lemma_found(line, head, name, " "@ + check.detail);
    lemma_found(line, head + name + " "@, check.detail, Seq::empty());
}

/// What is printed of a receipt names the lease and every number of it.
pub proof fn law_printed_receipt_says_what_the_receipt_says(receipt: Receipt)
    ensures
        ({
            let lines = receipt_text(receipt);
            &&& lines.len() == 3
            &&& contains_text(lines[0], receipt.lease_id.0@)
            &&& starts_with_text(
                lines[1],
                "occupancy "@ + decimal(receipt.occupancy_seconds as nat) + "s billed "@ + decimal(
                    receipt.billed_seconds as nat,
                ) + "s (min "@ + decimal(receipt.min_seconds as nat) + "s)"@,
            )
            &&& contains_text(lines[1], "$"@ + receipt.notional_usd@)
            &&& contains_text(lines[1], "not charged"@)
            &&& contains_text(lines[2], receipt.settlement.note@)
        }),
{
    let lines = receipt_text(receipt);
    reveal_strlit("s) notional $");
    reveal_strlit("s)");
    reveal_strlit("$");
    reveal_strlit(" — not charged");
    reveal_strlit("not charged");
    lemma_found(lines[0], "lease "@, receipt.lease_id.0@, " ended"@);
    lemma_found(lines[2], "settlement: "@, receipt.settlement.note@, Seq::empty());
    let held = "occupancy "@ + decimal(receipt.occupancy_seconds as nat) + "s billed "@ + decimal(
        receipt.billed_seconds as nat,
    ) + "s (min "@ + decimal(receipt.min_seconds as nat);
    let start = held + "s)"@;
    let line = lines[1];
    let price = receipt.notional_usd@;
    assert(line =~= held + "s) notional $"@ + price + " — not charged"@);
    assert forall|k: int| 0 <= k < start.len() implies line[0 + k] == #[trigger] start[k] by {}
    assert(crate::text::occurs_at(line, start, 0));
    lemma_found(line, held + "s) notional $"@.drop_last(), "$"@ + price, " — not charged"@);
    lemma_found(
        line,
        held + "s) notional $"@ + price + " — not charged"@.take(3),
        "not charged"@,
        Seq::empty(),
    );
}

/// What is printed of a lease names it, its viewer where it has one, and what
/// it is quoted at.
pub proof fn law_printed_lease_says_what_the_lease_says(lease: Lease)
    ensures
        ({
            let lines = lease_text(lease);
            let n = lines.len() as int;
            &&& n == if lease.viewer_url is Some {
                4int
            } else {
                3int
            }
            &&& contains_text(lines[0], lease.id.0@)
            &&& lease.viewer_url matches Some(url) ==> contains_text(lines[1], url@)
            &&& contains_text(
                lines[n - 2],
                "(min "@ + decimal(lease.quote.min_seconds as nat) + "s)"@,
            )
            &&& contains_text(lines[n - 2], "$"@ + lease.quote.notional_usd_per_hour@ + "/hr"@)
            &&& contains_text(lines[n - 2], "not charged"@)
            &&& contains_text(lines[n - 1], lease.quote.settlement.note@)
        }),
{
    let lines = lease_text(lease);
    let n = lines.len() as int;
    lemma_found(lines[0], "lease "@, lease.id.0@, Seq::empty());
    match lease.viewer_url {
        Some(url) => {
            lemma_found(lines[1], "viewer "@, url@, Seq::empty());
        },
        None => {},
    }
    let line = lines[n - 2];
    assert(line == quote_line(lease));
    reveal_strlit("quote seconds occupancy-seconds (min ");
    reveal_strlit("(min ");
    reveal_strlit("s)");
    reveal_strlit("s) notional $");
    reveal_strlit("$");
    reveal_strlit("/hr");
    reveal_strlit("/hr — not charged");
    reveal_strlit("not charged");
    let head = "quote seconds occupancy-seconds (min "@;
    let least = decimal(lease.quote.min_seconds as nat);
    let middle = "s) notional $"@;
    let price = lease.quote.notional_usd_per_hour@;
    let tail = "/hr — not charged"@;
    lemma_found(
        line,
        head.take(32),
        "(min "@ + least + "s)"@,
        middle.skip(2) + price + tail,
    );
    lemma_found(
        line,
        head + least + middle.drop_last(),
        "$"@ + price + "/hr"@,
        tail.skip(3),
    );
    lemma_found(line, head + least + middle + price + tail.take(6), "not charged"@, Seq::empty());
    lemma_found(lines[n - 1], "settlement: "@, lease.quote.settlement.note@, Seq::empty());
}

/// The system that a name stands for does not depend on its letter case, and
/// only `linux` stands for Linux.
pub proof fn law_systems_are_named_in_any_case(a: Seq<char>, b: Seq<char>)
    requires
        lowercase(a) == lowercase(b),
    ensures
        named_os(a) == named_os(b),
        named_os(a) == Some(GuestOs::Linux) <==> lowercase(a) == "linux"@,
        named_os(a) == Some(GuestOs::Macos) <==> lowercase(a) == "macos"@ || lowercase(a) == "mac"@,
        named_os(a) == Some(GuestOs::WindowsHomeOem) <==> lowercase(a) == "windows"@ || lowercase(a)
            == "windows-home-oem"@,
        named_os(a) == Some(GuestOs::WindowsProOem) <==> lowercase(a) == "windows-pro-oem"@,
{
    reveal_strlit("linux");
    reveal_strlit("macos");
    reveal_strlit("mac");
    reveal_strlit("windows");
    reveal_strlit("windows-home-oem");
    reveal_strlit("windows-pro-oem");
    assert("linux"@.len() == 5 && "macos"@.len() == 5 && "mac"@.len() == 3 && "windows"@.len() == 7
        && "windows-home-oem"@.len() == 16 && "windows-pro-oem"@.len() == 15);
    assert("linux"@[0] == 'l' && "macos"@[0] == 'm');
}

/// A path on a node is behind the node's address, whether or not that ends in
/// slashes.
pub proof fn law_paths_are_behind_the_address(node: Seq<char>, path: Seq<char>)
    ensures
        url_of(node.push('/'), path) == url_of(node, path),
        node.len() > 0 && node.last() != '/' ==> url_of(node, path) == node + path,
{
    assert(node.push('/').drop_last() =~= node);
}

/// A guest failure says whether the runtime failed or the isolation, and then
/// its reason.
pub proof fn law_guest_failures_say_their_kind(reason: Seq<char>)
    ensures
        guest_error_text(GuestErrorView::Runtime(reason)) == "guest runtime: "@ + reason,
        guest_error_text(GuestErrorView::Isolation(reason)) == "guest isolation: "@ + reason,
{
}

/// What went wrong with a config, a node or a viewer is said with its reason,
/// and where it is about an address, with the address.
pub proof fn law_failures_say_why(reason: String, path: String, ip: IpAddr, addr: SocketAddr)
    ensures
        config_error_text(ConfigError::Io(reason)) == "config io: "@ + reason@,
        config_error_text(ConfigError::Parse { path, message: reason }) == "parse "@ + path@ + ": "@
            + reason@,
        config_error_text(ConfigError::Serialize(reason)) == "serialize: "@ + reason@,
        config_error_text(ConfigError::Bind(path, reason)) == "invalid bind "@ + debug_text(path@)
            + ": "@ + reason@,
        node_error_text(NodeError::BindAllRejected(ip)) == "bind-all rejected ("@ + ip.text@
            + "); node HTTP must listen on loopback"@,
        node_error_text(NodeError::Io(reason)) == "node io: "@ + reason@,
        view_error_text(ViewError::Bind(reason)) == "guest view bind: "@ + reason@,
        view_error_text(ViewError::BindAll(addr)) == "guest view refused bind-all ("@ + socket_text(
            addr,
        ) + ")"@,
{
}

/// A pairing failure says what is wrong with the code or the token, and which
/// capability is missing; a wrong code is forbidden, and a wrong token is not
/// authorized.
pub proof fn law_pairing_failures_say_why()
    ensures
        pair_refusal(PairError::BadCode) == (Refusal {
            status: 403,
            message: "pairing code rejected"@,
        }),
        pair_refusal(PairError::UnknownToken) == (Refusal {
            status: 401,
            message: "unknown pairing token"@,
        }),
        pair_refusal(PairError::MissingCapability(Capability::Operator)) == (Refusal {
            status: 401,
            message: "token missing capability Operator"@,
        }),
        pair_refusal(PairError::MissingCapability(Capability::Lease)) == (Refusal {
            status: 401,
            message: "token missing capability Lease"@,
        }),
{
}

/// An address is printed by its text and its port, an IPv6 address in brackets.
pub proof fn law_addresses_are_printed_with_their_port(addr: SocketAddr)
    ensures
        addr.ip.bits is V4 ==> socket_text(addr) == addr.ip.text@ + ":"@ + decimal(
            addr.port as nat,
        ),
        addr.ip.bits is V6 ==> socket_text(addr) == "["@ + addr.ip.text@ + "]:"@ + decimal(
            addr.port as nat,
        ),
        host_port(addr.ip, addr.port) == addr.ip.text@ + ":"@ + decimal(addr.port as nat),
{
}

} // verus!
