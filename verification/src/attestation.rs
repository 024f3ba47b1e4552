//! The doctor report as the document that is stored of it.
//!
//! `GET /v1/eligibility` serves it and `berth doctor --json` prints it.

use vstd::prelude::*;

use crate::clock::{rfc3339, Timestamp};
use crate::doctor::{law_eligible_iff_every_requirement_holds, report_on};
use crate::eligibility::{
    check_name, check_views, opt_attestation, CheckStatus, CheckView, DoctorCheck, DoctorReport,
    FactsView, ImageAttestation, ImageView, Intent, NodeClass, ReportView,
};
use crate::json::{
    add_member, json_views, lemma_array_view, lemma_lookup, lemma_object_view, member_views,
    object2, object3, Json, JsonView,
};

verus! {

/// The name of a class.
pub open spec fn class_name(class: NodeClass) -> Seq<char> {
    match class {
        NodeClass::VmGuest => "vm-guest"@,
        NodeClass::DedicatedServer => "dedicated-server"@,
        NodeClass::Laptop => "laptop"@,
    }
}

/// The name of an intent.
pub open spec fn intent_name(intent: Intent) -> Seq<char> {
    match intent {
        Intent::Private => "private"@,
        Intent::Public => "public"@,
    }
}

/// The name of a status.
pub open spec fn status_name(status: CheckStatus) -> Seq<char> {
    match status {
        CheckStatus::Pass => "pass"@,
        CheckStatus::Fail => "fail"@,
        CheckStatus::Warn => "warn"@,
    }
}

/// A row as it is stored.
pub open spec fn check_json(check: CheckView) -> JsonView {
    JsonView::Object(
        seq![
            ("id"@, JsonView::Str(check_name(check.id))),
            ("status"@, JsonView::Str(status_name(check.status))),
            ("detail"@, JsonView::Str(check.detail)),
        ],
    )
}

/// An image as it is stored: null where it is missing, else its name and its
/// Docker labels.
pub open spec fn image_json(image: Option<ImageView>) -> JsonView {
    match image {
        None => JsonView::Null,
        Some(image) => JsonView::Object(
            seq![
                ("name"@, JsonView::Str(image.name)),
                (
                    "labels"@,
                    JsonView::Object(
                        seq![
                            ("berthos.guest.version"@, JsonView::Str(image.version)),
                            ("berthos.desktop"@, JsonView::Str(image.desktop)),
                            ("berthos.egress.policy"@, JsonView::Str(image.egress)),
                        ],
                    ),
                ),
            ],
        ),
    }
}

/// The members of a stored report, evaluated when `timestamp` says.
pub open spec fn attestation_members(report: ReportView, timestamp: Seq<char>) -> Seq<
    (Seq<char>, JsonView),
> {
    seq![
        ("protocol"@, JsonView::Str(report.protocol)),
        ("source"@, JsonView::Str(report.source)),
        ("ok"@, JsonView::Bool(report.ok)),
        ("eligible"@, JsonView::Bool(report.eligible)),
        ("class"@, JsonView::Str(class_name(report.class))),
        ("intent"@, JsonView::Str(intent_name(report.intent))),
        ("checks"@, JsonView::Array(report.checks.map_values(|c: CheckView| check_json(c)))),
        ("image"@, image_json(report.image)),
        ("timestamp"@, JsonView::Str(timestamp)),
    ]
}

/// A report as it is stored.
pub open spec fn attestation_json(report: ReportView, timestamp: Seq<char>) -> JsonView {
    JsonView::Object(attestation_members(report, timestamp))
}

fn named_class(class: NodeClass) -> (r: &'static str)
    ensures
        r@ == class_name(class),
{
    match class {
        NodeClass::VmGuest => "vm-guest",
        NodeClass::DedicatedServer => "dedicated-server",
        NodeClass::Laptop => "laptop",
    }
}

fn named_intent(intent: Intent) -> (r: &'static str)
    ensures
        r@ == intent_name(intent),
{
    match intent {
        Intent::Private => "private",
        Intent::Public => "public",
    }
}

fn named_status(status: CheckStatus) -> (r: &'static str)
    ensures
        r@ == status_name(status),
{
    match status {
        CheckStatus::Pass => "pass",
        CheckStatus::Fail => "fail",
        CheckStatus::Warn => "warn",
    }
}

fn check_to_json(check: &DoctorCheck) -> (r: Json)
    ensures
        r@ == check_json(check@),
{
    object3(
        "id",
        Json::string(check.id.name()),
        "status",
        Json::string(named_status(check.status)),
        "detail",
        Json::string(check.detail.as_str()),
    )
}

fn checks_to_json(checks: &Vec<DoctorCheck>) -> (r: Json)
    ensures
        r@ == JsonView::Array(
            check_views(checks@).map_values(|c: CheckView| check_json(c)),
        ),
{
    let mut items: Vec<Json> = Vec::new();
    let mut i: usize = 0;
    while i < checks.len()
        invariant
            i <= checks@.len(),
            items@.len() == i,
            forall|k: int| 0 <= k < i ==> (#[trigger] items@[k])@ == check_json(checks@[k]@),
        decreases checks@.len() - i,
    {
        items.push(check_to_json(&checks[i]));
        i += 1;
    }
    proof {
        lemma_array_view(items);
        assert(json_views(items@) =~= check_views(checks@).map_values(
            |c: CheckView| check_json(c),
        ));
    }
    Json::Array(items)
}

fn image_to_json(image: &Option<ImageAttestation>) -> (r: Json)
    ensures
        r@ == image_json(opt_attestation(*image)),
{
    match image {
        None => Json::Null,
        Some(image) => object2(
            "name",
            Json::string(image.name.as_str()),
            "labels",
            object3(
                "berthos.guest.version",
                Json::string(image.labels.guest_version.as_str()),
                "berthos.desktop",
                Json::string(image.labels.desktop.as_str()),
                "berthos.egress.policy",
                Json::string(image.labels.egress_policy.as_str()),
            ),
        ),
    }
}

impl DoctorReport {
    /// This report as it is stored. A point in time that RFC 3339 cannot
    /// write is an error.
    pub fn attest(&self) -> (r: Result<Json, String>)
        ensures
            match rfc3339(self.timestamp.nanos()) {
                Ok(text) => r matches Ok(json) && json@ == attestation_json(self@, text),
                Err(reason) => r matches Err(message) && message@ == reason,
            },
    {
        match self.timestamp.print_rfc3339() {
            Ok(text) => Ok(self.attestation(text.as_str())),
            Err(reason) => Err(reason),
        }
    }

    /// This report as it is stored, evaluated when `timestamp` says.
    pub fn attestation(&self, timestamp: &str) -> (r: Json)
        ensures
            r@ == attestation_json(self@, timestamp@),
    {
        let mut list: Vec<(String, Json)> = Vec::new();
        add_member(&mut list, "protocol", Json::string(self.protocol.as_str()));
        add_member(&mut list, "source", Json::string(self.source.as_str()));
        add_member(&mut list, "ok", Json::Bool(self.ok));
        add_member(&mut list, "eligible", Json::Bool(self.eligible));
        add_member(&mut list, "class", Json::string(named_class(self.class)));
        add_member(&mut list, "intent", Json::string(named_intent(self.intent)));
        add_member(&mut list, "checks", checks_to_json(&self.checks));
        add_member(&mut list, "image", image_to_json(&self.image));
        add_member(&mut list, "timestamp", Json::string(timestamp));
        proof {
            lemma_object_view(list);
            assert(member_views(list@) =~= attestation_members(self@, timestamp@));
        }
        Json::Object(list)
    }
}

proof fn lemma_stored_members(report: ReportView, timestamp: Seq<char>)
    ensures
        attestation_json(report, timestamp).field("ok"@) == Some(JsonView::Bool(report.ok)),
        attestation_json(report, timestamp).field("eligible"@) == Some(
            JsonView::Bool(report.eligible),
        ),
        attestation_json(report, timestamp).field("class"@) == Some(
            JsonView::Str(class_name(report.class)),
        ),
        attestation_json(report, timestamp).field("image"@) == Some(image_json(report.image)),
        attestation_json(report, timestamp).field("timestamp"@) == Some(
            JsonView::Str(timestamp),
        ),
{
    reveal_strlit("protocol");
    reveal_strlit("source");
    reveal_strlit("ok");
    reveal_strlit("eligible");
    reveal_strlit("class");
    reveal_strlit("intent");
    reveal_strlit("checks");
    reveal_strlit("image");
    reveal_strlit("timestamp");
    let list = attestation_members(report, timestamp);
    assert("protocol"@[0] == 'p' && "source"@[0] == 's' && "ok"@[0] == 'o' && "eligible"@[0] == 'e'
        && "class"@[1] == 'l' && "intent"@[1] == 'n' && "checks"@[1] == 'h' && "image"@[1] == 'm'
        && "timestamp"@[0] == 't');
    assert("class"@[0] == 'c' && "intent"@[0] == 'i' && "checks"@[0] == 'c' && "image"@[0] == 'i');
    lemma_lookup(list, 2, "ok"@);
    lemma_lookup(list, 3, "eligible"@);
    lemma_lookup(list, 4, "class"@);
    lemma_lookup(list, 7, "image"@);
    lemma_lookup(list, 8, "timestamp"@);
}

/// A document that says `ok` is never about a laptop, and says `eligible` too.
pub proof fn law_laptop_is_never_attested_ok(
    facts: FactsView,
    evaluated: Timestamp,
    timestamp: Seq<char>,
)
    ensures
        ({
            let document = attestation_json(report_on(facts, evaluated), timestamp);
            &&& document.field("ok"@) == document.field("eligible"@)
            &&& document.field("ok"@) == Some(JsonView::Bool(true)) ==> document.field("class"@)
                != Some(JsonView::Str("laptop"@))
        }),
{
    let report = report_on(facts, evaluated);
    lemma_stored_members(report, timestamp);
    law_eligible_iff_every_requirement_holds(facts, evaluated);
    reveal_strlit("laptop");
    reveal_strlit("vm-guest");
    reveal_strlit("dedicated-server");
    assert("laptop"@.len() != "vm-guest"@.len());
    assert("laptop"@.len() != "dedicated-server"@.len());
}

/// The image of a document is null exactly where the guest image is missing,
/// and such a document never says `ok`.
pub proof fn law_missing_image_is_attested_as_null(
    facts: FactsView,
    evaluated: Timestamp,
    timestamp: Seq<char>,
)
    ensures
        ({
            let document = attestation_json(report_on(facts, evaluated), timestamp);
            &&& document.field("image"@) == Some(JsonView::Null) <==> facts.guest_image is None
            &&& facts.guest_image is None ==> document.field("ok"@) == Some(JsonView::Bool(false))
        }),
{
    lemma_stored_members(report_on(facts, evaluated), timestamp);
    law_eligible_iff_every_requirement_holds(facts, evaluated);
}

} // verus!
