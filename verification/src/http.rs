//! The node behind the loopback HTTP API.
//!
//! Remote access, if any, is a later optional tunnel in front of the
//! listener. Bind-all is rejected at serve time. `X-Forwarded-*` plays no
//! part in deciding loopback: only the peer address is handed in.

use vstd::prelude::*;

use crate::action::{
    action_argv, argv_targets_host, is_png, law_screenshot_and_click_stay_in_the_guest,
    named_button, op_argv, parse_button, starts_with_png_magic, targets_host, GuestOp, OpView,
};
use crate::addr::{
    dotted, host_port, is_loopback_bits, lemma_localhost_text, names_itself, IpAddr, IpBits,
    SocketAddr,
};
use crate::clock::Timestamp;
use crate::config::NodeConfig;
use crate::decimal::decimal;
use crate::doctor::{evaluate, evaluate_at, report_on};
use crate::eligibility::{DoctorReport, Facts, GuestOs, NodeClass, REQUIRED_GUEST_IMAGE};
use crate::guest::{
    guest_error_text, is_plain_image, law_guest_lives_until_it_is_destroyed,
    law_node_guests_are_started_isolated, run_args, violates_isolation, GuestError, GuestHandle,
    GuestRuntime, GuestSpec, MemoryGuest,
};
use crate::json::{object1, object2, object3, Json, JsonView};
use crate::pairing::{
    booth_after_pair, codes_match, denial, grants_everything, is_code, is_drawn_after, is_drawn_code,
    is_drawn_token, is_token,
    law_paired_token_is_authorized, pair_error_text, Capability, IssuedView, PairError,
    PairingBooth,
};
use crate::readings::{are_drawn_digits, is_clock_reading};
use crate::session::{
    is_allocated_id, is_linux_isolated, is_receipt_of, or_default, quote_error_text, quote_refusal,
    CreateLeaseRequest, EndReason, Lease, LeaseId, LeaseState, Quote, Receipt, DEFAULT_DISK_GIB,
    DEFAULT_MEM_GIB, DEFAULT_VCPU,
};
use crate::text::{
    concat3, copied, occurs_at, opt_string, opt_text, same, starts_with_text, strip_prefix, texts,
};
use crate::view::{
    view_error_text, view_refusal, view_token, view_url, LoopbackView, ViewError,
};
use crate::{NodeError, PROTOCOL_VERSION};

verus! {

/// HTTP API error. Shared with the lease-scoped guest view.
#[derive(Debug, PartialEq, Eq)]
pub struct ApiError {
    /// HTTP status.
    pub status: u16,
    /// Text of the error body.
    pub message: String,
}

/// An HTTP API error with its text.
pub struct Refusal {
    /// HTTP status.
    pub status: u16,
    /// Text of the error body.
    pub message: Seq<char>,
}

impl View for ApiError {
    type V = Refusal;

    open spec fn view(&self) -> Refusal {
        Refusal { status: self.status, message: self.message@ }
    }
}

/// A refusal with this status and text.
pub open spec fn refused(status: u16, message: Seq<char>) -> Option<Refusal> {
    Some(Refusal { status, message })
}

/// How a pairing failure is answered.
pub open spec fn pair_refusal(e: PairError) -> Refusal {
    Refusal {
        status: if e == PairError::BadCode {
            403
        } else {
            401
        },
        message: pair_error_text(e),
    }
}

impl ApiError {
    /// An error with this status and text.
    pub fn new(status: u16, message: &str) -> (r: ApiError)
        ensures
            r@ == (Refusal { status, message: message@ }),
    {
        ApiError { status, message: message.to_string() }
    }

    /// How a pairing failure is answered.
    pub fn from_pair_error(e: PairError) -> (r: ApiError)
        ensures
            r@ == pair_refusal(e),
    {
        match e {
            PairError::BadCode => ApiError { status: 403, message: e.message() },
            PairError::UnknownToken => ApiError { status: 401, message: e.message() },
            PairError::MissingCapability(_) => ApiError { status: 401, message: e.message() },
        }
    }

    /// JSON error body.
    pub fn body(&self) -> (r: Json)
        ensures
            r@ == JsonView::Object(seq![("error"@, JsonView::Str(self.message@))]),
    {
        object1("error", Json::string(self.message.as_str()))
    }
}

/// A live lease plus its guest handle.
#[derive(Debug, PartialEq, Eq)]
pub struct LiveLease {
    /// Protocol lease record.
    pub lease: Lease,
    /// Runtime handle for destroy-on-end.
    pub handle: GuestHandle,
    /// Loopback-only guest view. Stopped when the lease ends.
    pub view: Option<LoopbackView>,
}

/// Shared node process state. The guest runtime is handed to the operations
/// that drive it.
#[derive(Debug)]
pub struct NodeInner {
    /// Advertisement + bind.
    pub config: NodeConfig,
    /// Last doctor report. Re-evaluated at start; served as-is unless live.
    pub report: DoctorReport,
    /// Parked nodes accept new leases.
    pub parked: bool,
    /// Pairing booth.
    pub pairing: PairingBooth,
    /// At most one live lease in v1.
    pub live: Option<LiveLease>,
    /// When true, `GET /v1/eligibility` re-runs live probes (production).
    /// Tests that inject a report leave this false so the fixture is stable.
    pub live_eligibility: bool,
}

/// What every operation keeps: a node that holds a lease is parked, the lease
/// it holds is live, and the viewer of the lease is on loopback, where the
/// lease says it is.
pub open spec fn node_ok(node: NodeInner) -> bool {
    node.live matches Some(live) ==> {
        &&& node.parked
        &&& live.lease.state == LeaseState::Live
        &&& live.lease.ended_at is None
        &&& match live.view {
            Some(view) => is_loopback_bits(view.addr.ip.bits) && names_itself(view.addr.ip)
                && opt_string(live.lease.viewer_url) == Some(view_url(view.addr)),
            None => live.lease.viewer_url is None,
        }
    }
}

/// The bearer token of an `Authorization` header.
pub open spec fn bearer(header: Option<Seq<char>>) -> Option<Seq<char>> {
    match header {
        Some(raw) => if starts_with_text(raw, "Bearer "@) {
            Some(raw.skip("Bearer "@.len() as int))
        } else {
            None
        },
        None => None,
    }
}

/// Why a request may not go on, going by its `Authorization` header.
pub open spec fn token_refusal(
    node: NodeInner,
    header: Option<Seq<char>>,
    need: Capability,
) -> Option<Refusal> {
    match bearer(header) {
        None => refused(401, "missing bearer token"@),
        Some(token) => match denial(node.pairing@, token, need) {
            Some(e) => Some(pair_refusal(e)),
            None => None,
        },
    }
}

/// Why `POST /v1/park` is refused.
pub open spec fn park_refusal(node: NodeInner, header: Option<Seq<char>>) -> Option<Refusal> {
    match token_refusal(node, header, Capability::Operator) {
        Some(refusal) => Some(refusal),
        None => if !node.report.eligible {
            refused(403, "node is ineligible; run berth doctor"@)
        } else {
            None
        },
    }
}

/// Why `POST /v1/unpark` is refused.
pub open spec fn unpark_refusal(node: NodeInner, header: Option<Seq<char>>) -> Option<Refusal> {
    match token_refusal(node, header, Capability::Operator) {
        Some(refusal) => Some(refusal),
        None => if node.live is Some {
            refused(409, "cannot unpark while a lease is live"@)
        } else {
            None
        },
    }
}

/// Why `POST /v1/leases` is refused before a guest is started.
pub open spec fn create_refusal(
    node: NodeInner,
    header: Option<Seq<char>>,
    body: CreateLeaseRequest,
) -> Option<Refusal> {
    match token_refusal(node, header, Capability::Lease) {
        Some(refusal) => Some(refusal),
        None => if !node.report.eligible {
            refused(403, "node is ineligible; run berth doctor"@)
        } else if !node.parked {
            refused(409, "node is unparked"@)
        } else if node.live is Some {
            refused(409, "a lease is already live"@)
        } else if body.os != GuestOs::Linux {
            refused(400, "v1 leases only os=linux; windows and macos are out of scope"@)
        } else {
            match quote_refusal(asked_vcpu(body), asked_mem_gib(body), asked_disk_gib(body)) {
                Some(e) => refused(400, quote_error_text(e)),
                None => None,
            }
        },
    }
}

/// The vCPU of a requested guest.
pub open spec fn asked_vcpu(body: CreateLeaseRequest) -> u32 {
    or_default(body.vcpu, DEFAULT_VCPU)
}

/// The memory of a requested guest.
pub open spec fn asked_mem_gib(body: CreateLeaseRequest) -> u32 {
    or_default(body.mem_gib, DEFAULT_MEM_GIB)
}

/// The disk of a requested guest.
pub open spec fn asked_disk_gib(body: CreateLeaseRequest) -> u32 {
    or_default(body.disk_gib, DEFAULT_DISK_GIB)
}

/// The node's live lease has this id.
pub open spec fn holds(node: NodeInner, id: Seq<char>) -> bool {
    node.live matches Some(live) && live.lease.id.0@ == id
}

/// Why a request about the lease `id` is refused.
pub open spec fn lease_refusal(
    node: NodeInner,
    header: Option<Seq<char>>,
    id: Seq<char>,
) -> Option<Refusal> {
    match token_refusal(node, header, Capability::Lease) {
        Some(refusal) => Some(refusal),
        None => if holds(node, id) {
            None
        } else {
            refused(404, "lease not found"@)
        },
    }
}

/// Why an op has no argv that may be run in the guest.
pub open spec fn op_refusal(op: OpView) -> Option<Refusal> {
    match op_argv(op) {
        Err(message) => refused(400, message),
        Ok(argv) => if targets_host(argv) {
            refused(403, "refusing to target the host display"@)
        } else {
            None
        },
    }
}

/// Why an op on the lease `id` is refused.
pub open spec fn live_op_refusal(
    node: NodeInner,
    header: Option<Seq<char>>,
    id: Seq<char>,
    op: OpView,
) -> Option<Refusal> {
    match op_refusal(op) {
        Some(refusal) => Some(refusal),
        None => match token_refusal(node, header, Capability::Lease) {
            Some(refusal) => Some(refusal),
            None => if node.live is None {
                refused(404, "no live lease"@)
            } else if !holds(node, id) {
                refused(404, "lease not found"@)
            } else {
                None
            },
        },
    }
}

/// What is asked of the guest runtime for a new lease.
#[derive(Debug, PartialEq, Eq)]
pub struct LeasePlan {
    /// Id of the lease to be.
    pub id: LeaseId,
    /// Guest to start.
    pub spec: GuestSpec,
    /// Quote of the lease to be.
    pub quote: Quote,
}

/// `plan` is what a request for a lease asks of the guest runtime.
pub open spec fn is_plan_for(plan: LeasePlan, node: NodeInner, body: CreateLeaseRequest) -> bool {
    &&& is_allocated_id(plan.id.0@)
    &&& plan.spec.image@ == node.config.image@
    &&& plan.spec.vcpu == asked_vcpu(body)
    &&& plan.spec.mem_gib == asked_mem_gib(body)
    &&& is_linux_isolated(
        plan.quote,
        asked_vcpu(body),
        asked_mem_gib(body),
        asked_disk_gib(body),
    )
}

/// The lease that a plan becomes once its guest runs.
pub open spec fn planned_lease(plan: LeasePlan, handle: GuestHandle, now: Timestamp) -> LiveLease {
    LiveLease {
        lease: Lease {
            id: plan.id,
            state: LeaseState::Live,
            quote: plan.quote,
            started_at: now,
            ended_at: None,
            viewer_url: None,
        },
        handle,
        view: None,
    }
}

/// Recording the lease of a plan whose guest was asked for: `started` is what
/// the runtime answered.
pub open spec fn is_installed(
    before: NodeInner,
    plan: LeasePlan,
    started: Result<GuestHandle, GuestError>,
    now: Timestamp,
    after: NodeInner,
    r: Result<LeaseId, ApiError>,
) -> bool {
    match started {
        Ok(handle) => {
            &&& r == Ok::<LeaseId, ApiError>(plan.id)
            &&& after == (NodeInner { live: Some(planned_lease(plan, handle, now)), ..before })
        },
        Err(error) => {
            &&& r matches Err(e)
            &&& e@ == (Refusal { status: 503, message: guest_error_text(error@) })
            &&& after == before
        },
    }
}

/// What `POST /v1/leases` comes to, up to the viewer. A refused request leaves
/// the node and the runtime alone. For an accepted one the runtime is asked
/// for the planned guest, and the lease is recorded as of a reading of the
/// clock, if the guest came up.
pub open spec fn is_created<G: GuestRuntime>(
    before: NodeInner,
    guests_before: G,
    header: Option<Seq<char>>,
    body: CreateLeaseRequest,
    after: NodeInner,
    guests_after: G,
    r: Result<LeaseId, ApiError>,
) -> bool {
    match create_refusal(before, header, body) {
        Some(refusal) => {
            &&& r matches Err(e)
            &&& e@ == refusal
            &&& after == before
            &&& guests_after == guests_before
        },
        None => exists|
            plan: LeasePlan,
            started: Result<GuestHandle, GuestError>,
            now: Timestamp,
        |
            {
                &&& is_plan_for(plan, before, body)
                &&& are_drawn_digits(plan.id.0@.skip(2))
                &&& G::starts(guests_before, plan.id, plan.spec, guests_after, started)
                &&& is_clock_reading(now.nanos())
                &&& #[trigger] is_installed(before, plan, started, now, after, r)
            },
    }
}

/// What came of starting the viewer of a new lease.
#[derive(Debug, PartialEq, Eq)]
pub enum Viewed {
    /// Answer with this status and the lease.
    Created(u16, Lease),
    /// Answer with the error. The viewer has to be stopped, where it is given.
    Failed {
        /// The answer.
        error: ApiError,
        /// Viewer to stop.
        stop: Option<LoopbackView>,
    },
}

/// A lease that was taken off the node, its viewer stopped and its guest
/// destroyed.
#[derive(Debug, PartialEq, Eq)]
pub struct EndedLease {
    /// Protocol lease record.
    pub lease: Lease,
    /// Viewer, which serves no more.
    pub view: Option<LoopbackView>,
    /// What destroying the guest came to. The lease has ended either way.
    pub destroyed: Result<(), GuestError>,
}

/// A viewer that was told to stop.
pub open spec fn stopped(view: Option<LoopbackView>) -> Option<LoopbackView> {
    match view {
        Some(view) => Some(LoopbackView { serving: false, ..view }),
        None => None,
    }
}

impl EndedLease {
    /// The receipt of a lease that was ended on request, once its guest is
    /// destroyed at `ended_at`. `notional_usd` is the notional price of the
    /// billed seconds, which is only printed.
    pub fn receipt(&self, ended_at: Timestamp, notional_usd: String) -> (r: Receipt)
        ensures
            is_receipt_of(r, self.lease, ended_at, EndReason::Graceful),
            r.notional_usd == notional_usd,
    {
        Receipt::from_lease(&self.lease, ended_at, EndReason::Graceful, notional_usd)
    }
}

/// What `POST /v1/leases` comes to from the viewer on. Without a viewer the
/// lease is given up and its guest destroyed; with one the lease names it. A
/// lease that is gone leaves nothing to do but to stop the viewer.
pub open spec fn is_viewed<G: GuestRuntime>(
    before: NodeInner,
    guests_before: G,
    id: Seq<char>,
    view: Result<LoopbackView, ViewError>,
    after: NodeInner,
    guests_after: G,
    r: Viewed,
) -> bool {
    match view {
        Err(error) => {
            &&& r matches Viewed::Failed { error: e, stop }
            &&& e@ == (Refusal { status: 503, message: view_error_text(error) })
            &&& stop is None
            &&& if holds(before, id) {
                &&& exists|outcome: Result<(), GuestError>| #[trigger]
                    G::destroys(
                        guests_before,
                        before.live->Some_0.handle,
                        guests_after,
                        outcome,
                    )
                &&& after == (NodeInner { live: None, ..before })
            } else {
                &&& guests_after == guests_before
                &&& after == before
            }
        },
        Ok(view) => guests_after == guests_before && if holds(before, id) {
            let was = before.live->Some_0;
            &&& r matches Viewed::Created(status, lease)
            &&& status == 201
            &&& lease.viewer_url matches Some(url)
            &&& url@ == view_url(view.addr)
            &&& lease == (Lease { viewer_url: lease.viewer_url, ..was.lease })
            &&& after == (NodeInner {
                live: Some(LiveLease { lease, handle: was.handle, view: Some(view) }),
                ..before
            })
        } else {
            &&& r matches Viewed::Failed { error: e, stop }
            &&& e@ == (if before.live is None {
                Refusal { status: 404, message: "lease not found"@ }
            } else {
                Refusal { status: 409, message: "a lease is already live"@ }
            })
            &&& stop == Some(view)
            &&& after == before
        },
    }
}

/// What `DELETE /v1/leases/{id}` comes to, up to the receipt. The lease is taken
/// off the node, its viewer stopped and its guest destroyed; a refused request
/// leaves all of them alone.
pub open spec fn is_ended<G: GuestRuntime>(
    before: NodeInner,
    guests_before: G,
    header: Option<Seq<char>>,
    id: Seq<char>,
    after: NodeInner,
    guests_after: G,
    r: Result<EndedLease, ApiError>,
) -> bool {
    match r {
        Ok(ended) => {
            &&& lease_refusal(before, header, id) is None
            &&& ended.lease == before.live->Some_0.lease
            &&& ended.view == stopped(before.live->Some_0.view)
            &&& after == (NodeInner { live: None, ..before })
            &&& G::destroys(
                guests_before,
                before.live->Some_0.handle,
                guests_after,
                ended.destroyed,
            )
        },
        Err(e) => {
            &&& lease_refusal(before, header, id) == Some(e@)
            &&& after == before
            &&& guests_after == guests_before
        },
    }
}

/// What an op on the lease `id` comes to. A refused op leaves the runtime alone.
/// For an accepted one the runtime runs the op's argv in the lease's guest, and
/// what it answers is handed on.
pub open spec fn is_run<G: GuestRuntime>(
    node: NodeInner,
    guests_before: G,
    header: Option<Seq<char>>,
    id: Seq<char>,
    op: OpView,
    guests_after: G,
    r: Result<Vec<u8>, ApiError>,
) -> bool {
    match live_op_refusal(node, header, id, op) {
        Some(refusal) => {
            &&& r matches Err(e)
            &&& e@ == refusal
            &&& guests_after == guests_before
        },
        None => exists|ran: Result<Vec<u8>, GuestError>|
            {
                &&& #[trigger] G::execs(
                    guests_before,
                    node.live->Some_0.handle,
                    op_argv(op)->Ok_0,
                    guests_after,
                    ran,
                )
                &&& match ran {
                    Ok(bytes) => r == Ok::<Vec<u8>, ApiError>(bytes),
                    Err(error) => r matches Err(e) && e@ == (Refusal {
                        status: 502,
                        message: guest_error_text(error@),
                    }),
                }
            },
    }
}

/// `POST /v1/pair` response.
#[derive(Debug, PartialEq, Eq)]
pub struct PairResponse {
    /// Bearer token.
    pub token: String,
    /// What the token may be used for.
    pub capabilities: Vec<String>,
}

/// `GET /v1/pairing` response (loopback only).
#[derive(Debug, PartialEq, Eq)]
pub struct PairingReveal {
    /// Current pairing code.
    pub code: String,
}

/// `GET /v1/node` response.
#[derive(Debug, PartialEq, Eq)]
pub struct NodeStatus {
    /// Wire protocol version.
    pub protocol: String,
    /// Whether new leases are accepted.
    pub parked: bool,
    /// Whether the last doctor report was eligible.
    pub eligible: bool,
    /// Advertised bind.
    pub bind: String,
    /// Advertised class.
    pub class: NodeClass,
    /// The live lease, if there is one.
    pub live_lease: Option<LeaseId>,
    /// Reminder that this node does not settle.
    pub settlement: String,
}

/// `GET /v1/leases/{id}/view` — pairing token + loopback URL for this lease.
#[derive(Debug, PartialEq, Eq)]
pub struct ViewInfo {
    /// Loopback URL.
    pub viewer_url: String,
    /// Always `guest`.
    pub target: String,
    /// How to present the token.
    pub token: String,
}

/// JSON body for `POST /v1/leases/{id}/actions`.
#[derive(Debug, PartialEq, Eq)]
pub struct ActionBody {
    /// `click`, `type`, `key` or `screenshot`.
    pub op: String,
    /// Horizontal pixel of a click.
    pub x: Option<i32>,
    /// Vertical pixel of a click.
    pub y: Option<i32>,
    /// Button of a click.
    pub button: Option<String>,
    /// Text to type.
    pub text: Option<String>,
    /// Keys to press.
    pub keys: Option<Vec<String>>,
}

/// The op that an action body asks for, or what is wrong with it.
pub open spec fn asked_op(body: ActionBody) -> Result<OpView, Seq<char>> {
    if body.op@ == "click"@ {
        match (body.x, body.y) {
            (None, _) => Err("x is required"@),
            (_, None) => Err("y is required"@),
            (Some(x), Some(y)) => match named_button(opt_string(body.button)) {
                Ok(button) => Ok(OpView::Click { x, y, button }),
                Err(message) => Err(message),
            },
        }
    } else if body.op@ == "type"@ {
        match body.text {
            Some(text) => Ok(OpView::Type { text: text@ }),
            None => Err("text is required"@),
        }
    } else if body.op@ == "key"@ {
        match body.keys {
            Some(keys) => Ok(OpView::Key { keys: texts(keys@) }),
            None => Err("keys is required"@),
        }
    } else if body.op@ == "screenshot"@ {
        Ok(OpView::Screenshot)
    } else {
        Err("unknown op `"@ + body.op@ + "`"@)
    }
}

/// The op that an action body asks for. A body that asks for none is a bad
/// request.
pub fn parse_action_body(body: &ActionBody) -> (r: Result<GuestOp, ApiError>)
    ensures
        match asked_op(*body) {
            Ok(op) => r matches Ok(parsed) && parsed@ == op,
            Err(message) => r matches Err(e) && e@ == (Refusal { status: 400, message }),
        },
{
    let op = body.op.as_str();
    if same(op, "click") {
        let x: i32 = match body.x {
            Some(x) => x,
            None => {
                return Err(ApiError::new(400, "x is required"));
            },
        };
        let y: i32 = match body.y {
            Some(y) => y,
            None => {
                return Err(ApiError::new(400, "y is required"));
            },
        };
        let name = match &body.button {
            Some(name) => Some(name.as_str()),
            None => None,
        };
        match parse_button(name) {
            Ok(button) => Ok(GuestOp::Click { x, y, button }),
            Err(e) => Err(ApiError { status: 400, message: e.message() }),
        }
    } else if same(op, "type") {
        match &body.text {
            Some(text) => Ok(GuestOp::Type { text: text.clone() }),
            None => Err(ApiError::new(400, "text is required")),
        }
    } else if same(op, "key") {
        match &body.keys {
            Some(keys) => Ok(GuestOp::Key { keys: copied(keys.as_slice()) }),
            None => Err(ApiError::new(400, "keys is required")),
        }
    } else if same(op, "screenshot") {
        Ok(GuestOp::Screenshot)
    } else {
        Err(ApiError { status: 400, message: concat3("unknown op `", op, "`") })
    }
}

/// The argv of an op that stays in the guest.
pub fn guest_argv(op: &GuestOp) -> (r: Result<Vec<String>, ApiError>)
    ensures
        match r {
            Ok(argv) => op_refusal(op@) is None && op_argv(op@) == Ok::<
                Seq<Seq<char>>,
                Seq<char>,
            >(texts(argv@)) && !targets_host(texts(argv@)),
            Err(e) => op_refusal(op@) == Some(e@),
        },
{
    match action_argv(op) {
        Ok(argv) => {
            if argv_targets_host(argv.as_slice()) {
                return Err(ApiError::new(403, "refusing to target the host display"));
            }
            Ok(argv)
        },
        Err(e) => Err(ApiError { status: 400, message: e.message() }),
    }
}

/// How running a command in the guest is answered. `ran` is an error where
/// the runtime could not be asked at all.
pub fn exec_reply(ran: Result<Result<Vec<u8>, GuestError>, String>) -> (r: Result<
    Vec<u8>,
    ApiError,
>)
    ensures
        match ran {
            Err(reason) => r matches Err(e) && e@ == (Refusal { status: 500, message: reason@ }),
            Ok(Err(error)) => r matches Err(e) && e@ == (Refusal {
                status: 502,
                message: guest_error_text(error@),
            }),
            Ok(Ok(bytes)) => r == Ok::<Vec<u8>, ApiError>(bytes),
        },
{
    match ran {
        Err(reason) => Err(ApiError { status: 500, message: reason }),
        Ok(answer) => match answer {
            Err(error) => Err(ApiError { status: 502, message: error.message() }),
            Ok(bytes) => Ok(bytes),
        },
    }
}

/// What the guest sent is served only if it is a PNG.
pub fn png_reply(bytes: Vec<u8>) -> (r: Result<Vec<u8>, ApiError>)
    ensures
        if is_png(bytes@) {
            r == Ok::<Vec<u8>, ApiError>(bytes)
        } else {
            r matches Err(e) && e@ == (Refusal {
                status: 502,
                message: "guest screenshot was not a PNG"@,
            })
        },
{
    if starts_with_png_magic(bytes.as_slice()) {
        Ok(bytes)
    } else {
        Err(ApiError::new(502, "guest screenshot was not a PNG"))
    }
}

/// Answer to an action that was run.
pub fn action_reply() -> (r: Json)
    ensures
        r@ == JsonView::Object(
            seq![("ok"@, JsonView::Bool(true)), ("target"@, JsonView::Str("guest"@))],
        ),
{
    object2("ok", Json::Bool(true), "target", Json::string("guest"))
}

/// `GET /health`.
pub fn health() -> (r: Json)
    ensures
        r@ == JsonView::Object(
            seq![
                ("ok"@, JsonView::Bool(true)),
                ("protocol"@, JsonView::Str(PROTOCOL_VERSION@)),
                ("settlement"@, JsonView::Str("not this repo"@)),
            ],
        ),
{
    object3(
        "ok",
        Json::Bool(true),
        "protocol",
        Json::string(PROTOCOL_VERSION),
        "settlement",
        Json::string("not this repo"),
    )
}

/// Reject a bind IP the same way serving does (unit-testable).
pub fn reject_if_bind_all(ip: IpAddr) -> (r: Result<(), NodeError>)
    ensures
        if is_loopback_bits(ip.bits) {
            r == Ok::<(), NodeError>(())
        } else {
            r == Err::<(), NodeError>(NodeError::BindAllRejected(ip))
        },
{
    if ip.is_loopback() {
        Ok(())
    } else {
        Err(NodeError::BindAllRejected(ip))
    }
}

/// A node that was just started: parked, paired with nobody, holding no
/// lease.
pub open spec fn is_fresh(node: NodeInner) -> bool {
    &&& node.parked
    &&& node.live is None
    &&& is_code(node.pairing@.code)
    &&& node.pairing@.tokens == Seq::<IssuedView>::empty()
}

/// A node as the CLI starts it: its report is on what was just observed, and
/// is renewed on request. If the probes fail the node stays ineligible.
pub fn new_state(config: NodeConfig, facts: &Facts) -> (r: NodeInner)
    ensures
        is_fresh(r),
        is_drawn_code(r.pairing@.code),
        r.config == config,
        r.report@ == report_on(facts@, r.report.timestamp),
        is_clock_reading(r.report.timestamp.nanos()),
        r.live_eligibility,
{
    NodeInner {
        config,
        report: evaluate(facts),
        parked: true,
        pairing: PairingBooth::new(),
        live: None,
        live_eligibility: true,
    }
}

/// Test/helper constructor that injects a doctor report instead of probing.
pub fn new_state_with_report(config: NodeConfig, report: DoctorReport) -> (r: NodeInner)
    ensures
        is_fresh(r),
        is_drawn_code(r.pairing@.code),
        r.config == config,
        r.report == report,
        !r.live_eligibility,
{
    NodeInner {
        config,
        report,
        parked: true,
        pairing: PairingBooth::new(),
        live: None,
        live_eligibility: false,
    }
}

impl NodeInner {
    /// Checks the `Authorization` header of a request.
    pub fn require_token(&self, header: Option<&str>, need: Capability) -> (r: Result<
        (),
        ApiError,
    >)
        ensures
            match r {
                Ok(_) => token_refusal(*self, opt_text(header), need) is None,
                Err(e) => token_refusal(*self, opt_text(header), need) == Some(e@),
            },
    {
        let token = match header {
            Some(raw) => match strip_prefix(raw, "Bearer ") {
                Some(token) => token,
                None => {
                    return Err(ApiError::new(401, "missing bearer token"));
                },
            },
            None => {
                return Err(ApiError::new(401, "missing bearer token"));
            },
        };
        match self.pairing.authorize(token.as_str(), need) {
            Ok(_) => Ok(()),
            Err(e) => Err(ApiError::from_pair_error(e)),
        }
    }

    /// `GET /v1/eligibility`, the probes having come to `facts`.
    pub fn eligibility(&mut self, facts: &Facts) -> (r: DoctorReport)
        ensures
            r@ == final(self).report@,
            if old(self).live_eligibility {
                r@ == report_on(facts@, r.timestamp) && is_clock_reading(r.timestamp.nanos())
            } else {
                final(self).report == old(self).report
            },
            *final(self) == (NodeInner { report: final(self).report, ..*old(self) }),
            node_ok(*old(self)) ==> node_ok(*final(self)),
    {
        let now = Timestamp::now_utc();
        self.eligibility_at(facts, now)
    }

    /// `GET /v1/eligibility` at a fixed time.
    pub fn eligibility_at(&mut self, facts: &Facts, now: Timestamp) -> (r: DoctorReport)
        ensures
            r@ == final(self).report@,
            if old(self).live_eligibility {
                r@ == report_on(facts@, now)
            } else {
                final(self).report == old(self).report
            },
            *final(self) == (NodeInner { report: final(self).report, ..*old(self) }),
            node_ok(*old(self)) ==> node_ok(*final(self)),
    {
        if self.live_eligibility {
            self.report = evaluate_at(facts, now);
        }
        self.report.clone()
    }

    /// `GET /v1/node`.
    pub fn node_status(&self) -> (r: NodeStatus)
        ensures
            r.protocol@ == PROTOCOL_VERSION@,
            r.parked == self.parked,
            r.eligible == self.report.eligible,
            r.bind@ == host_port(self.config.bind_ip, self.config.port),
            r.class == self.config.class,
            r.live_lease == match self.live {
                Some(live) => Some(live.lease.id),
                None => None,
            },
            r.settlement@
                == "quoted, not charged — https://github.com/hexuria/berth-market"@,
    {
        NodeStatus {
            protocol: PROTOCOL_VERSION.to_string(),
            parked: self.parked,
            eligible: self.report.eligible,
            bind: self.config.bind_ip.with_port(self.config.port),
            class: self.config.class,
            live_lease: match &self.live {
                Some(live) => Some(live.lease.id.clone()),
                None => None,
            },
            settlement: "quoted, not charged — https://github.com/hexuria/berth-market".to_string(),
        }
    }

    /// `POST /v1/park`.
    pub fn park(&mut self, header: Option<&str>) -> (r: Result<u16, ApiError>)
        ensures
            match r {
                Ok(status) => {
                    &&& park_refusal(*old(self), opt_text(header)) is None
                    &&& status == 204
                    &&& *final(self) == (NodeInner { parked: true, ..*old(self) })
                },
                Err(e) => {
                    &&& park_refusal(*old(self), opt_text(header)) == Some(e@)
                    &&& *final(self) == *old(self)
                },
            },
            node_ok(*old(self)) ==> node_ok(*final(self)),
    {
        match self.require_token(header, Capability::Operator) {
            Ok(_) => {},
            Err(e) => {
                return Err(e);
            },
        }
        if !self.report.eligible {
            return Err(ApiError::new(403, "node is ineligible; run berth doctor"));
        }
        self.parked = true;
        Ok(204)
    }

    /// `POST /v1/unpark`.
    pub fn unpark(&mut self, header: Option<&str>) -> (r: Result<u16, ApiError>)
        ensures
            match r {
                Ok(status) => {
                    &&& unpark_refusal(*old(self), opt_text(header)) is None
                    &&& status == 204
                    &&& *final(self) == (NodeInner { parked: false, ..*old(self) })
                },
                Err(e) => {
                    &&& unpark_refusal(*old(self), opt_text(header)) == Some(e@)
                    &&& *final(self) == *old(self)
                },
            },
            node_ok(*old(self)) ==> node_ok(*final(self)),
    {
        match self.require_token(header, Capability::Operator) {
            Ok(_) => {},
            Err(e) => {
                return Err(e);
            },
        }
        if self.live.is_some() {
            return Err(ApiError::new(409, "cannot unpark while a lease is live"));
        }
        self.parked = false;
        Ok(204)
    }

    /// `GET /v1/pairing`: the code, for a peer on loopback only. Anyone else
    /// is told that there is no such thing.
    pub fn reveal_pairing(&self, peer: &SocketAddr) -> (r: Result<PairingReveal, ApiError>)
        ensures
            if is_loopback_bits(peer.ip.bits) {
                r matches Ok(reveal) && reveal.code@ == self.pairing@.code
            } else {
                r matches Err(e) && e@ == (Refusal { status: 404, message: "not found"@ })
            },
    {
        if !peer.ip.is_loopback() {
            return Err(ApiError::new(404, "not found"));
        }
        Ok(PairingReveal { code: self.pairing.code.clone() })
    }

    /// `POST /v1/pair`.
    pub fn pair(&mut self, code: &str) -> (r: Result<PairResponse, ApiError>)
        ensures
            match r {
                Ok(response) => {
                    &&& codes_match(old(self).pairing@.code, code@)
                    &&& is_token(response.token@)
                    &&& is_drawn_token(response.token@)
                    &&& texts(response.capabilities@) == seq!["operator"@, "lease"@]
                    &&& is_code(final(self).pairing@.code)
                    &&& is_drawn_after(old(self).pairing@.code, final(self).pairing@.code)
                    &&& !codes_match(old(self).pairing@.code, final(self).pairing@.code)
                    &&& final(self).pairing@ == booth_after_pair(
                        old(self).pairing@,
                        response.token@,
                        final(self).pairing@.code,
                    )
                    &&& *final(self) == (NodeInner {
                        pairing: final(self).pairing,
                        ..*old(self)
                    })
                },
                Err(e) => {
                    &&& !codes_match(old(self).pairing@.code, code@)
                    &&& e@ == pair_refusal(PairError::BadCode)
                    &&& *final(self) == *old(self)
                },
            },
            node_ok(*old(self)) ==> node_ok(*final(self)),
    {
        match self.pairing.pair(code) {
            Ok(token) => {
                let capabilities: Vec<String> = vec!["operator".to_string(), "lease".to_string()];
                assert(texts(capabilities@) =~= seq!["operator"@, "lease"@]);
                Ok(PairResponse { token, capabilities })
            },
            Err(e) => Err(ApiError::from_pair_error(e)),
        }
    }

    /// What `POST /v1/leases` asks of the guest runtime.
    pub fn plan_lease(&self, header: Option<&str>, body: &CreateLeaseRequest) -> (r: Result<
        LeasePlan,
        ApiError,
    >)
        ensures
            match r {
                Ok(plan) => create_refusal(*self, opt_text(header), *body) is None
                    && is_plan_for(plan, *self, *body) && are_drawn_digits(plan.id.0@.skip(2)),
                Err(e) => create_refusal(*self, opt_text(header), *body) == Some(e@),
            },
    {
        match self.require_token(header, Capability::Lease) {
            Ok(_) => {},
            Err(e) => {
                return Err(e);
            },
        }
        if !self.report.eligible {
            return Err(ApiError::new(403, "node is ineligible; run berth doctor"));
        }
        if !self.parked {
            return Err(ApiError::new(409, "node is unparked"));
        }
        if self.live.is_some() {
            return Err(ApiError::new(409, "a lease is already live"));
        }
        if body.os != GuestOs::Linux {
            return Err(
                ApiError::new(400, "v1 leases only os=linux; windows and macos are out of scope"),
            );
        }
        let vcpu: u32 = match body.vcpu {
            Some(n) => n,
            None => DEFAULT_VCPU,
        };
        let mem_gib: u32 = match body.mem_gib {
            Some(n) => n,
            None => DEFAULT_MEM_GIB,
        };
        let disk_gib: u32 = match body.disk_gib {
            Some(n) => n,
            None => DEFAULT_DISK_GIB,
        };
        match Quote::linux_isolated(vcpu, mem_gib, disk_gib) {
            Ok(quote) => {
                let spec = GuestSpec {
                    image: self.config.image.clone(),
                    vcpu: quote.vcpu,
                    mem_gib: quote.mem_gib,
                };
                Ok(LeasePlan { id: LeaseId::generate(), spec, quote })
            },
            Err(e) => Err(ApiError { status: 400, message: e.message() }),
        }
    }

    /// Records the lease whose guest was started, or says why it was not.
    pub fn install_lease(
        &mut self,
        plan: LeasePlan,
        started: Result<GuestHandle, GuestError>,
        now: Timestamp,
    ) -> (r: Result<LeaseId, ApiError>)
        requires
            old(self).live is None,
        ensures
            is_installed(*old(self), plan, started, now, *final(self), r),
            node_ok(*old(self)) && old(self).parked ==> node_ok(*final(self)),
    {
        match started {
            Ok(handle) => {
                let id = plan.id.clone();
                let lease = Lease {
                    id: plan.id,
                    state: LeaseState::Live,
                    quote: plan.quote,
                    started_at: now,
                    ended_at: None,
                    viewer_url: None,
                };
                self.live = Some(LiveLease { lease, handle, view: None });
                Ok(id)
            },
            Err(error) => Err(ApiError { status: 503, message: error.message() }),
        }
    }

    /// `POST /v1/leases`, up to the point where the viewer has to be started:
    /// the guest of an accepted request is started and its lease recorded.
    pub fn create_lease<G: GuestRuntime>(
        &mut self,
        guests: &mut G,
        header: Option<&str>,
        body: &CreateLeaseRequest,
    ) -> (r: Result<LeaseId, ApiError>)
        ensures
            is_created(
                *old(self),
                *old(guests),
                opt_text(header),
                *body,
                *final(self),
                *final(guests),
                r,
            ),
            r is Ok ==> is_clock_reading(final(self).live->Some_0.lease.started_at.nanos()),
            node_ok(*old(self)) ==> node_ok(*final(self)),
    {
        let plan = match self.plan_lease(header, body) {
            Ok(plan) => plan,
            Err(e) => {
                return Err(e);
            },
        };
        let started = guests.start(&plan.id, &plan.spec);
        let now = Timestamp::now_utc();
        let ghost asked = (plan, started);
        let r = self.install_lease(plan, started, now);
        assert(is_installed(*old(self), asked.0, asked.1, now, *self, r));
        r
    }

    /// The rest of `POST /v1/leases`: `view` is what starting the viewer of
    /// the lease `id` came to. Without a viewer the lease is given up and its
    /// guest destroyed. The node was not held meanwhile, so the lease may be
    /// gone.
    pub fn view_started<G: GuestRuntime>(
        &mut self,
        guests: &mut G,
        id: &LeaseId,
        view: Result<LoopbackView, ViewError>,
    ) -> (r: Viewed)
        ensures
            is_viewed(*old(self), *old(guests), id.0@, view, *final(self), *final(guests), r),
            node_ok(*old(self)) && (view matches Ok(v) ==> is_loopback_bits(v.addr.ip.bits)
                && names_itself(v.addr.ip)) ==> node_ok(*final(self)),
    {
        match view {
            Err(error) => {
                let error = ApiError { status: 503, message: error.message() };
                match self.live.take() {
                    Some(live) => {
                        if same(live.lease.id.0.as_str(), id.0.as_str()) {
                            let _ = guests.destroy(&live.handle);
                            return Viewed::Failed { error, stop: None };
                        }
                        self.live = Some(live);
                    },
                    None => {},
                }
                Viewed::Failed { error, stop: None }
            },
            Ok(view) => match self.live.take() {
                None => Viewed::Failed {
                    error: ApiError::new(404, "lease not found"),
                    stop: Some(view),
                },
                Some(live) => {
                    if !same(live.lease.id.0.as_str(), id.0.as_str()) {
                        self.live = Some(live);
                        return Viewed::Failed {
                            error: ApiError::new(409, "a lease is already live"),
                            stop: Some(view),
                        };
                    }
                    let mut lease = live.lease;
                    lease.viewer_url = Some(view.url());
                    let answer = lease.clone();
                    self.live = Some(LiveLease { lease, handle: live.handle, view: Some(view) });
                    Viewed::Created(201, answer)
                },
            },
        }
    }

    /// `GET /v1/leases`.
    pub fn list_leases(&self, header: Option<&str>) -> (r: Result<Vec<Lease>, ApiError>)
        ensures
            match r {
                Ok(list) => {
                    &&& token_refusal(*self, opt_text(header), Capability::Lease) is None
                    &&& list@ == match self.live {
                        Some(live) => seq![live.lease],
                        None => Seq::<Lease>::empty(),
                    }
                },
                Err(e) => token_refusal(*self, opt_text(header), Capability::Lease) == Some(e@),
            },
    {
        match self.require_token(header, Capability::Lease) {
            Ok(_) => {},
            Err(e) => {
                return Err(e);
            },
        }
        let mut list: Vec<Lease> = Vec::new();
        if let Some(live) = &self.live {
            list.push(live.lease.clone());
            assert(list@ =~= seq![live.lease]);
        }
        Ok(list)
    }

    /// `GET /v1/leases/{id}`.
    pub fn get_lease(&self, header: Option<&str>, id: &str) -> (r: Result<Lease, ApiError>)
        ensures
            match r {
                Ok(lease) => lease_refusal(*self, opt_text(header), id@) is None && lease
                    == self.live->Some_0.lease,
                Err(e) => lease_refusal(*self, opt_text(header), id@) == Some(e@),
            },
    {
        match self.require_token(header, Capability::Lease) {
            Ok(_) => {},
            Err(e) => {
                return Err(e);
            },
        }
        if let Some(live) = &self.live {
            if same(live.lease.id.0.as_str(), id) {
                return Ok(live.lease.clone());
            }
        }
        Err(ApiError::new(404, "lease not found"))
    }

    /// `DELETE /v1/leases/{id}`, up to the receipt: the lease is taken off the
    /// node, its viewer stopped, and then its guest destroyed.
    pub fn end_lease<G: GuestRuntime>(
        &mut self,
        guests: &mut G,
        header: Option<&str>,
        id: &str,
    ) -> (r: Result<EndedLease, ApiError>)
        ensures
            is_ended(
                *old(self),
                *old(guests),
                opt_text(header),
                id@,
                *final(self),
                *final(guests),
                r,
            ),
            node_ok(*old(self)) ==> node_ok(*final(self)),
    {
        match self.require_token(header, Capability::Lease) {
            Ok(_) => {},
            Err(e) => {
                return Err(e);
            },
        }
        match self.live.take() {
            Some(live) => {
                if !same(live.lease.id.0.as_str(), id) {
                    self.live = Some(live);
                    return Err(ApiError::new(404, "lease not found"));
                }
                let view = match live.view {
                    Some(mut view) => {
                        view.stop();
                        Some(view)
                    },
                    None => None,
                };
                let destroyed = guests.destroy(&live.handle);
                Ok(EndedLease { lease: live.lease, view, destroyed })
            },
            None => Err(ApiError::new(404, "lease not found")),
        }
    }

    /// `GET /v1/leases/{id}/view`.
    pub fn lease_view_info(&self, header: Option<&str>, id: &str) -> (r: Result<ViewInfo, ApiError>)
        ensures
            match lease_refusal(*self, opt_text(header), id@) {
                Some(refusal) => r matches Err(e) && e@ == refusal,
                None => match self.live->Some_0.lease.viewer_url {
                    Some(url) => {
                        &&& r matches Ok(info)
                        &&& info.viewer_url@ == url@
                        &&& info.target@ == "guest"@
                        &&& info.token@
                            == "Authorization: Bearer <lease token from POST /v1/pair>"@
                    },
                    None => r matches Err(e) && e@ == (Refusal {
                        status: 404,
                        message: "lease has no guest view"@,
                    }),
                },
            },
    {
        match self.require_token(header, Capability::Lease) {
            Ok(_) => {},
            Err(e) => {
                return Err(e);
            },
        }
        if let Some(live) = &self.live {
            if same(live.lease.id.0.as_str(), id) {
                return match &live.lease.viewer_url {
                    Some(url) => Ok(
                        ViewInfo {
                            viewer_url: url.clone(),
                            target: "guest".to_string(),
                            token: "Authorization: Bearer <lease token from POST /v1/pair>".to_string(),
                        },
                    ),
                    None => Err(ApiError::new(404, "lease has no guest view")),
                };
            }
        }
        Err(ApiError::new(404, "lease not found"))
    }

    /// The guest and the argv of an op on the lease `id`.
    pub fn plan_live_op(&self, header: Option<&str>, id: &str, op: &GuestOp) -> (r: Result<
        (GuestHandle, Vec<String>),
        ApiError,
    >)
        ensures
            match r {
                Ok(plan) => {
                    &&& live_op_refusal(*self, opt_text(header), id@, op@) is None
                    &&& plan.0 == self.live->Some_0.handle
                    &&& op_argv(op@) == Ok::<Seq<Seq<char>>, Seq<char>>(texts(plan.1@))
                    &&& !targets_host(texts(plan.1@))
                },
                Err(e) => live_op_refusal(*self, opt_text(header), id@, op@) == Some(e@),
            },
    {
        let argv = match guest_argv(op) {
            Ok(argv) => argv,
            Err(e) => {
                return Err(e);
            },
        };
        match self.require_token(header, Capability::Lease) {
            Ok(_) => {},
            Err(e) => {
                return Err(e);
            },
        }
        match &self.live {
            Some(live) => {
                if !same(live.lease.id.0.as_str(), id) {
                    return Err(ApiError::new(404, "lease not found"));
                }
                Ok((live.handle.clone(), argv))
            },
            None => Err(ApiError::new(404, "no live lease")),
        }
    }

    /// Runs an op in the guest of the lease `id`.
    pub fn run_live_op<G: GuestRuntime>(
        &self,
        guests: &mut G,
        header: Option<&str>,
        id: &str,
        op: &GuestOp,
    ) -> (r: Result<Vec<u8>, ApiError>)
        ensures
            is_run(*self, *old(guests), opt_text(header), id@, op@, *final(guests), r),
    {
        match self.plan_live_op(header, id, op) {
            Ok((handle, argv)) => {
                let ran = guests.exec(&handle, &argv);
                exec_reply(Ok(ran))
            },
            Err(e) => Err(e),
        }
    }
}

/// A node starts well.
pub proof fn law_fresh_node_is_ok(node: NodeInner)
    requires
        is_fresh(node),
    ensures
        node_ok(node),
        grants_everything(node.pairing@),
{
}

/// Without a bearer token nothing is served: whatever is asked for, the
/// answer is 401. Only an op that could never be run is answered as such.
pub proof fn law_nothing_is_served_without_a_token(
    node: NodeInner,
    header: Option<Seq<char>>,
    id: Seq<char>,
    body: CreateLeaseRequest,
    op: OpView,
)
    requires
        bearer(header) is None,
    ensures
        park_refusal(node, header) == refused(401, "missing bearer token"@),
        unpark_refusal(node, header) == refused(401, "missing bearer token"@),
        create_refusal(node, header, body) == refused(401, "missing bearer token"@),
        lease_refusal(node, header, id) == refused(401, "missing bearer token"@),
        live_op_refusal(node, header, id, OpView::Screenshot) == refused(
            401,
            "missing bearer token"@,
        ),
        live_op_refusal(node, header, id, op) == if op_refusal(op) is None {
            refused(401, "missing bearer token"@)
        } else {
            op_refusal(op)
        },
{
    law_screenshot_and_click_stay_in_the_guest(OpView::Screenshot);
}

/// A lease is granted to whoever may lease, by a node that is eligible, parked
/// and free, for a Linux guest with processors, memory and disk; and in no
/// other case.
pub proof fn law_lease_is_granted_iff_everything_holds(
    node: NodeInner,
    header: Option<Seq<char>>,
    body: CreateLeaseRequest,
)
    ensures
        create_refusal(node, header, body) is None <==> {
            &&& token_refusal(node, header, Capability::Lease) is None
            &&& node.report.eligible
            &&& node.parked
            &&& node.live is None
            &&& body.os == GuestOs::Linux
            &&& asked_vcpu(body) > 0
            &&& asked_mem_gib(body) > 0
            &&& asked_disk_gib(body) > 0
        },
{
}

/// An ineligible node neither parks nor leases: it answers 403 to whoever may
/// ask.
pub proof fn law_ineligible_node_neither_parks_nor_leases(
    node: NodeInner,
    header: Option<Seq<char>>,
    body: CreateLeaseRequest,
)
    requires
        !node.report.eligible,
    ensures
        park_refusal(node, header) is Some,
        create_refusal(node, header, body) is Some,
        token_refusal(node, header, Capability::Operator) is None ==> park_refusal(node, header)
            == refused(403, "node is ineligible; run berth doctor"@),
        token_refusal(node, header, Capability::Lease) is None ==> create_refusal(
            node,
            header,
            body,
        ) == refused(403, "node is ineligible; run berth doctor"@),
{
}

/// A node leases one guest at a time, and is not unparked meanwhile: it
/// answers 409 to whoever may ask.
pub proof fn law_one_lease_at_a_time(
    node: NodeInner,
    header: Option<Seq<char>>,
    body: CreateLeaseRequest,
)
    requires
        node.live is Some,
    ensures
        create_refusal(node, header, body) is Some,
        unpark_refusal(node, header) is Some,
        token_refusal(node, header, Capability::Operator) is None ==> unpark_refusal(node, header)
            == refused(409, "cannot unpark while a lease is live"@),
        token_refusal(node, header, Capability::Lease) is None && node.report.eligible
            && node.parked ==> create_refusal(node, header, body) == refused(
            409,
            "a lease is already live"@,
        ),
{
}

/// A viewer on `127.0.0.1` is offered at that address and its port.
pub proof fn law_localhost_viewer_url(addr: SocketAddr)
    requires
        names_itself(addr.ip),
        addr.ip.bits == IpBits::V4([127u8, 0, 0, 1]),
    ensures
        view_url(addr) == "http://127.0.0.1:"@ + decimal(addr.port as nat) + "/"@,
{
    lemma_localhost_text();
    reveal_strlit("http://127.0.0.1:");
    reveal_strlit("http://");
    reveal_strlit("127.0.0.1");
    reveal_strlit(":");
    assert([127u8, 0, 0, 1]@ =~= seq![127u8, 0, 0, 1]);
    assert(view_url(addr) =~= "http://127.0.0.1:"@ + decimal(addr.port as nat) + "/"@);
}

/// The viewer of a lease is on loopback, and the URL that the lease gives names
/// it: an IPv4 address beginning with 127 by its four numbers, else `::1`.
pub proof fn law_viewer_url_names_loopback(node: NodeInner)
    requires
        node_ok(node),
        node.live matches Some(live) && live.view is Some,
    ensures
        ({
            let live = node.live->Some_0;
            let addr = live.view->Some_0.addr;
            let port = decimal(addr.port as nat);
            &&& is_loopback_bits(addr.ip.bits)
            &&& opt_string(live.lease.viewer_url) == Some(
                match addr.ip.bits {
                    IpBits::V4(octets) => "http://"@ + (dotted(octets@) + ":"@ + port) + "/"@,
                    IpBits::V6(_) => "http://"@ + ("["@ + "::1"@ + "]:"@ + port) + "/"@,
                },
            )
        }),
{
}

/// Ending a lease leads back to a parked node.
pub proof fn law_ended_node_is_parked(node: NodeInner)
    requires
        node_ok(node),
        node.live is Some,
    ensures
        (NodeInner { live: None, ..node }).parked,
        node_ok(NodeInner { live: None, ..node }),
{
}

/// The guest of an accepted lease is started isolated, whatever its size, on a
/// node that runs a plain image, such as the required one.
pub proof fn law_accepted_lease_starts_isolated(
    plan: LeasePlan,
    node: NodeInner,
    body: CreateLeaseRequest,
)
    requires
        is_plan_for(plan, node, body),
        is_plain_image(node.config.image@) || node.config.image@ == REQUIRED_GUEST_IMAGE@,
    ensures
        !violates_isolation(
            run_args(plan.id.0@, plan.spec.image@, plan.spec.vcpu, plan.spec.mem_gib),
        ),
{
    law_node_guests_are_started_isolated(
        plan.id.0@,
        plan.spec.image@,
        plan.spec.vcpu,
        plan.spec.mem_gib,
    );
}

/// Nothing but Linux is leased, and nothing without processors, memory or
/// disk: zero is never unlimited.
pub proof fn law_only_real_linux_guests_are_leased(
    node: NodeInner,
    header: Option<Seq<char>>,
    body: CreateLeaseRequest,
)
    requires
        body.os != GuestOs::Linux || body.vcpu == Some(0u32) || body.mem_gib == Some(0u32)
            || body.disk_gib == Some(0u32),
    ensures
        create_refusal(node, header, body) is Some,
{
}

/// The bearer of a header made from a token is that token.
pub proof fn lemma_bearer_of_header(token: Seq<char>)
    ensures
        bearer(Some("Bearer "@ + token)) == Some(token),
{
    let prefix = "Bearer "@;
    let header = prefix + token;
    assert(occurs_at(header, prefix, 0)) by {
        assert forall|k: int| 0 <= k < prefix.len() implies header[0 + k] == #[trigger] prefix[k] by {}
    }
    assert(header.skip(prefix.len() as int) =~= token);
}

/// A client that has paired is let through, whatever it needs.
pub proof fn law_paired_client_is_let_through(
    node: NodeInner,
    token: Seq<char>,
    next_code: Seq<char>,
    after: NodeInner,
    need: Capability,
)
    requires
        grants_everything(node.pairing@),
        after.pairing@ == booth_after_pair(node.pairing@, token, next_code),
    ensures
        token_refusal(after, Some("Bearer "@ + token), need) is None,
        grants_everything(after.pairing@),
{
    lemma_bearer_of_header(token);
    law_paired_token_is_authorized(node.pairing@, token, next_code, need);
}

/// A lease and its guest in memory begin and end together: the guest of a
/// recorded lease is running, and destroying the guest that was recorded leaves
/// the runtime as it was before the lease.
pub proof fn law_lease_and_guest_end_together(
    node: NodeInner,
    plan: LeasePlan,
    started: Result<GuestHandle, GuestError>,
    now: Timestamp,
    leased: NodeInner,
    r: Result<LeaseId, ApiError>,
    before: MemoryGuest,
    between: MemoryGuest,
    after: MemoryGuest,
    destroyed: Result<(), GuestError>,
)
    requires
        MemoryGuest::starts(before, plan.id, plan.spec, between, started),
        is_installed(node, plan, started, now, leased, r),
        MemoryGuest::destroys(between, leased.live->Some_0.handle, after, destroyed),
        !texts(before.live@).contains("memory-"@ + plan.id.0@),
    ensures
        r == Ok::<LeaseId, ApiError>(plan.id),
        holds(leased, plan.id.0@),
        texts(between.live@).contains(leased.live->Some_0.handle.container@),
        texts(after.live@) == texts(before.live@),
        destroyed is Ok,
{
    law_guest_lives_until_it_is_destroyed(
        before,
        plan.id,
        plan.spec,
        between,
        started->Ok_0,
        after,
        destroyed,
    );
}

/// A lease that was recorded can be asked for by its id, by whoever may lease.
pub proof fn law_recorded_lease_is_found(
    node: NodeInner,
    header: Option<Seq<char>>,
    plan: LeasePlan,
    handle: GuestHandle,
    now: Timestamp,
)
    requires
        token_refusal(node, header, Capability::Lease) is None,
    ensures
        lease_refusal(
            NodeInner { live: Some(planned_lease(plan, handle, now)), ..node },
            header,
            plan.id.0@,
        ) is None,
{
}

/// A lease that has ended is gone: nobody who may lease finds it, drives its
/// guest or looks at it any more.
pub proof fn law_ended_lease_is_gone(node: NodeInner, header: Option<Seq<char>>, id: Seq<char>)
    requires
        token_refusal(node, header, Capability::Lease) is None,
    ensures
        ({
            let after = NodeInner { live: None, ..node };
            &&& lease_refusal(after, header, id) == refused(404, "lease not found"@)
            &&& live_op_refusal(after, header, id, OpView::Screenshot) == refused(
                404,
                "no live lease"@,
            )
            &&& view_refusal(after, id, header, None) == refused(
                404,
                "no live lease for this view"@,
            )
        }),
{
    law_screenshot_and_click_stay_in_the_guest(OpView::Screenshot);
}

/// A node that could lease before can lease again once the lease has ended.
pub proof fn law_node_leases_again_after_the_end(
    node: NodeInner,
    header: Option<Seq<char>>,
    body: CreateLeaseRequest,
    live: LiveLease,
)
    requires
        create_refusal(node, header, body) is None,
    ensures
        create_refusal(
            NodeInner { live: None, ..(NodeInner { live: Some(live), ..node }) },
            header,
            body,
        ) is None,
{
}

/// An unparked node leases nothing until it is parked again.
pub proof fn law_unparked_node_leases_nothing(
    node: NodeInner,
    header: Option<Seq<char>>,
    body: CreateLeaseRequest,
)
    ensures
        create_refusal(NodeInner { parked: false, ..node }, header, body) is Some,
        token_refusal(node, header, Capability::Lease) is None && node.report.eligible
            ==> create_refusal(NodeInner { parked: false, ..node }, header, body) == refused(
            409,
            "node is unparked"@,
        ),
        create_refusal(node, header, body) is None ==> create_refusal(
            NodeInner { parked: true, ..(NodeInner { parked: false, ..node }) },
            header,
            body,
        ) is None,
{
}

/// Whoever is let through to a viewer may lease, and the lease is the one the
/// viewer was started for.
pub proof fn law_viewer_serves_its_own_lease_only(
    node: NodeInner,
    id: Seq<char>,
    header: Option<Seq<char>>,
    query: Option<Seq<char>>,
)
    requires
        view_refusal(node, id, header, query) is None,
    ensures
        holds(node, id),
        view_token(header, query) matches Some(token) && denial(
            node.pairing@,
            token,
            Capability::Lease,
        ) is None,
{
}

} // verus!
