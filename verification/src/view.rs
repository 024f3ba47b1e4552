//! Lease-scoped loopback guest view.
//!
//! Binds `127.0.0.1:0` only. Serves a noVNC-equivalent page of the *guest*
//! Xvfb (screenshot stream + click/type, plus a websockify pipe to guest
//! x11vnc). Host DISPLAY / host cursor are never read. The listener is
//! stopped when the lease ends.

use vstd::prelude::*;
use vstd::string::*;

use crate::action::{op_argv, targets_host, GuestOp, OpView};
use crate::addr::{is_loopback_bits, socket_text, SocketAddr};
use crate::guest::GuestHandle;
use crate::http::{
    asked_op, bearer, guest_argv, holds, op_refusal, pair_refusal, parse_action_body, refused,
    ActionBody, ApiError, NodeInner, Refusal,
};
use crate::pairing::{denial, Capability};
use crate::session::LeaseId;
use crate::text::{
    concat, concat3, contains, contains_text, lowercase, opt_text, same, strip_prefix, texts,
    to_lower, trim, trimmed,
};

verus! {

/// A live loopback viewer for one lease.
#[derive(Debug, PartialEq, Eq)]
pub struct LoopbackView {
    /// Bound address (always loopback).
    pub addr: SocketAddr,
    /// The listener has not been told to stop.
    pub serving: bool,
}

/// View start failures.
#[derive(Debug, PartialEq, Eq)]
pub enum ViewError {
    /// Could not bind loopback.
    Bind(String),
    /// Listener came up on a non-loopback address.
    BindAll(SocketAddr),
}

/// Text of a view start failure.
pub open spec fn view_error_text(e: ViewError) -> Seq<char> {
    match e {
        ViewError::Bind(reason) => "guest view bind: "@ + reason@,
        ViewError::BindAll(addr) => "guest view refused bind-all ("@ + socket_text(addr) + ")"@,
    }
}

impl ViewError {
    /// Human-readable reason.
    pub fn message(&self) -> (r: String)
        ensures
            r@ == view_error_text(*self),
    {
        match self {
            ViewError::Bind(reason) => concat("guest view bind: ", reason.as_str()),
            ViewError::BindAll(addr) => concat3(
                "guest view refused bind-all (",
                addr.print().as_str(),
                ")",
            ),
        }
    }
}

/// Loopback URL of a viewer at `addr`.
pub open spec fn view_url(addr: SocketAddr) -> Seq<char> {
    "http://"@ + socket_text(addr) + "/"@
}

impl LoopbackView {
    /// A viewer on the listener that came up at `bound`, or failed to. A
    /// listener that is not on loopback is refused.
    pub fn start(bound: Result<SocketAddr, String>) -> (r: Result<LoopbackView, ViewError>)
        ensures
            match bound {
                Err(reason) => r == Err::<LoopbackView, ViewError>(ViewError::Bind(reason)),
                Ok(addr) => if is_loopback_bits(addr.ip.bits) {
                    r == Ok::<LoopbackView, ViewError>(LoopbackView { addr, serving: true })
                } else {
                    r == Err::<LoopbackView, ViewError>(ViewError::BindAll(addr))
                },
            },
            r matches Ok(view) ==> is_loopback_bits(view.addr.ip.bits),
    {
        match bound {
            Err(reason) => Err(ViewError::Bind(reason)),
            Ok(addr) => {
                if !addr.ip.is_loopback() {
                    return Err(ViewError::BindAll(addr));
                }
                Ok(LoopbackView { addr, serving: true })
            },
        }
    }

    /// Loopback URL for this lease's guest desktop.
    pub fn url(&self) -> (r: String)
        ensures
            r@ == view_url(self.addr),
    {
        concat3("http://", self.addr.print().as_str(), "/")
    }

    /// Stop the listener. Further connects fail. Says whether there was still
    /// a listener to stop.
    pub fn stop(&mut self) -> (r: bool)
        ensures
            r == old(self).serving,
            *final(self) == (LoopbackView { serving: false, ..*old(self) }),
    {
        let serving = self.serving;
        self.serving = false;
        serving
    }
}

/// True when `addr` is a loopback viewer bind.
pub fn view_bind_is_loopback(addr: &SocketAddr) -> (r: bool)
    ensures
        r == is_loopback_bits(addr.ip.bits),
{
    addr.ip.is_loopback()
}

/// The token of a request to a viewer: the bearer of its `Authorization`
/// header, else its `token` query parameter, unless that is blank.
pub open spec fn view_token(header: Option<Seq<char>>, query: Option<Seq<char>>) -> Option<
    Seq<char>,
> {
    match bearer(header) {
        Some(token) => Some(token),
        None => match query {
            Some(raw) => if trimmed(raw).len() == 0 {
                None
            } else {
                Some(trimmed(raw))
            },
            None => None,
        },
    }
}

/// The token of a request to a viewer.
pub fn bearer_or_query(header: Option<&str>, query: Option<&str>) -> (r: Option<String>)
    ensures
        match r {
            Some(token) => view_token(opt_text(header), opt_text(query)) == Some(token@),
            None => view_token(opt_text(header), opt_text(query)) is None,
        },
{
    if let Some(raw) = header {
        if let Some(token) = strip_prefix(raw, "Bearer ") {
            return Some(token);
        }
    }
    match query {
        Some(raw) => {
            let token = trim(raw);
            if token.as_str().is_empty() {
                None
            } else {
                Some(token)
            }
        },
        None => None,
    }
}

/// Why a request to the viewer of the lease `id` is refused.
pub open spec fn view_refusal(
    node: NodeInner,
    id: Seq<char>,
    header: Option<Seq<char>>,
    query: Option<Seq<char>>,
) -> Option<Refusal> {
    match view_token(header, query) {
        None => refused(401, "missing lease bearer (Authorization: Bearer or ?token=)"@),
        Some(token) => match denial(node.pairing@, token, Capability::Lease) {
            Some(e) => Some(pair_refusal(e)),
            None => if holds(node, id) {
                None
            } else {
                refused(404, "no live lease for this view"@)
            },
        },
    }
}

/// Checks that a request to the viewer of the lease `id` may go on.
pub fn require_lease(
    node: &NodeInner,
    id: &LeaseId,
    header: Option<&str>,
    query: Option<&str>,
) -> (r: Result<(), ApiError>)
    ensures
        match r {
            Ok(_) => view_refusal(*node, id.0@, opt_text(header), opt_text(query)) is None,
            Err(e) => view_refusal(*node, id.0@, opt_text(header), opt_text(query)) == Some(e@),
        },
{
    let token = match bearer_or_query(header, query) {
        Some(token) => token,
        None => {
            return Err(
                ApiError::new(401, "missing lease bearer (Authorization: Bearer or ?token=)"),
            );
        },
    };
    match node.pairing.authorize(token.as_str(), Capability::Lease) {
        Ok(_) => {},
        Err(e) => {
            return Err(ApiError::from_pair_error(e));
        },
    }
    match view_guest(node, id) {
        Ok(_) => Ok(()),
        Err(e) => Err(e),
    }
}

/// The guest behind the viewer of the lease `id`.
pub fn view_guest(node: &NodeInner, id: &LeaseId) -> (r: Result<GuestHandle, ApiError>)
    ensures
        if holds(*node, id.0@) {
            r == Ok::<GuestHandle, ApiError>(node.live->Some_0.handle)
        } else {
            r matches Err(e) && e@ == (Refusal {
                status: 404,
                message: "no live lease for this view"@,
            })
        },
{
    if let Some(live) = &node.live {
        if same(live.lease.id.0.as_str(), id.0.as_str()) {
            return Ok(live.handle.clone());
        }
    }
    Err(ApiError::new(404, "no live lease for this view"))
}

/// Why an op through the viewer of the lease `id` is refused.
pub open spec fn view_op_refusal(node: NodeInner, id: Seq<char>, op: OpView) -> Option<Refusal> {
    match op_refusal(op) {
        Some(refusal) => Some(refusal),
        None => if holds(node, id) {
            None
        } else {
            refused(404, "no live lease for this view"@)
        },
    }
}

/// The guest and the argv of an op through the viewer of the lease `id`.
pub fn run_op(node: &NodeInner, id: &LeaseId, op: &GuestOp) -> (r: Result<
    (GuestHandle, Vec<String>),
    ApiError,
>)
    ensures
        match r {
            Ok(plan) => {
                &&& view_op_refusal(*node, id.0@, op@) is None
                &&& plan.0 == node.live->Some_0.handle
                &&& op_argv(op@) == Ok::<Seq<Seq<char>>, Seq<char>>(texts(plan.1@))
                &&& !targets_host(texts(plan.1@))
            },
            Err(e) => view_op_refusal(*node, id.0@, op@) == Some(e@),
        },
{
    let argv = match guest_argv(op) {
        Ok(argv) => argv,
        Err(e) => {
            return Err(e);
        },
    };
    match view_guest(node, id) {
        Ok(handle) => Ok((handle, argv)),
        Err(e) => Err(e),
    }
}

/// A path that might lead to a display of the host.
pub open spec fn is_refused_file(path: Seq<char>) -> bool {
    contains_text(lowercase(path), "x11"@) || contains_text(path, "wayland"@)
}

/// The guest and the argv that print a file of it. The argv is not the
/// driver's; it only serves the guest's noVNC assets.
pub fn guest_file(node: &NodeInner, path: &str) -> (r: Result<
    (GuestHandle, Vec<String>),
    ApiError,
>)
    ensures
        match node.live {
            None => r matches Err(e) && e@ == (Refusal { status: 404, message: "no live lease"@ }),
            Some(live) => if is_refused_file(path@) {
                r matches Err(e) && e@ == (Refusal { status: 403, message: "refused"@ })
            } else {
                &&& r matches Ok(plan)
                &&& plan.0 == live.handle
                &&& texts(plan.1@) == seq!["cat"@, path@]
            },
        },
{
    match &node.live {
        None => Err(ApiError::new(404, "no live lease")),
        Some(live) => {
            if contains(to_lower(path).as_str(), "x11") || contains(path, "wayland") {
                return Err(ApiError::new(403, "refused"));
            }
            let argv: Vec<String> = vec!["cat".to_string(), path.to_string()];
            assert(texts(argv@) =~= seq!["cat"@, path@]);
            Ok((live.handle.clone(), argv))
        },
    }
}

/// The page to serve for noVNC.
#[derive(Debug, PartialEq, Eq)]
pub enum NovncPage {
    /// The guest's own page.
    Guest(Vec<u8>),
    /// The built-in page.
    BuiltIn,
}

/// The guest's own noVNC page, unless it has none.
pub fn novnc_page(file: Result<Vec<u8>, ApiError>) -> (r: NovncPage)
    ensures
        match file {
            Ok(bytes) => if bytes@.len() > 0 {
                r == NovncPage::Guest(bytes)
            } else {
                r == NovncPage::BuiltIn
            },
            Err(_) => r == NovncPage::BuiltIn,
        },
{
    match file {
        Ok(bytes) => if bytes.len() > 0 {
            NovncPage::Guest(bytes)
        } else {
            NovncPage::BuiltIn
        },
        Err(_) => NovncPage::BuiltIn,
    }
}

/// `docker` argv of the pipe to a guest's own VNC server. The guest has no
/// network; this is the only path to its port.
pub fn vnc_proxy_args(container: &str) -> (r: Vec<String>)
    ensures
        texts(r@) == seq![
            "exec"@,
            "-i"@,
            container@,
            "socat"@,
            "STDIO"@,
            "TCP:127.0.0.1:5900"@,
        ],
{
    let r: Vec<String> = vec![
        "exec".to_string(),
        "-i".to_string(),
        container.to_string(),
        "socat".to_string(),
        "STDIO".to_string(),
        "TCP:127.0.0.1:5900".to_string(),
    ];
    assert(texts(r@) =~= seq![
        "exec"@,
        "-i"@,
        container@,
        "socat"@,
        "STDIO"@,
        "TCP:127.0.0.1:5900"@,
    ]);
    r
}

/// The op that an action body posted to a viewer asks for.
pub fn parse_op(body: &ActionBody) -> (r: Result<GuestOp, ApiError>)
    ensures
        match asked_op(*body) {
            Ok(op) => r matches Ok(parsed) && parsed@ == op,
            Err(message) => r matches Err(e) && e@ == (Refusal { status: 400, message }),
        },
{
    parse_action_body(body)
}

} // verus!
