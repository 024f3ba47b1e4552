//! A node leases one guest at a time, to whoever may lease, for as long as it
//! is held.

use vstd::prelude::*;

use crate::action::{is_png, op_argv, Button, OpView};
use crate::addr::socket_text;
use crate::clock::Timestamp;
use crate::eligibility::GuestOs;
use crate::guest::{GuestError, GuestHandle, GuestRuntime, GuestSpec, MemoryGuest};
use crate::http::{
    asked_op, create_refusal, is_created, is_ended, is_installed, is_plan_for, is_run, is_viewed,
    lease_refusal, live_op_refusal, op_refusal, park_refusal, token_refusal, unpark_refusal,
    ActionBody, ApiError, EndedLease, LeasePlan, NodeInner, Refusal, Viewed,
};
use crate::laws::tools::law_driver_is_told_the_op;
use crate::laws::viewing::law_pictures_are_told_by_their_first_bytes;
use crate::pairing::{first_issued, stored_hash, BoothView, Capability, IssuedView};
use crate::readings::{are_drawn_digits, is_clock_reading};
use crate::session::{
    is_receipt_of, CreateLeaseRequest, EndReason, Lease, LeaseId, LeaseState, Receipt,
};
use crate::text::{opt_string, starts_with_text, texts};
use crate::view::{LoopbackView, ViewError};

verus! {

/// What was asked for, or what is given where nothing was asked for.
pub open spec fn asked_or(asked: Option<u32>, given: u32) -> u32 {
    match asked {
        Some(n) => n,
        None => given,
    }
}

/// A granted lease is the one that was asked for. It bears a fresh id, is live
/// from a reading of the clock on, is quoted for the shape that was asked for,
/// and the runtime was asked for a guest of that shape under that id, whose
/// handle is kept. Nothing else of the node changes; and where no lease is
/// granted, nothing changes at all.
pub proof fn law_granted_lease_is_as_asked<G: GuestRuntime>(
    before: NodeInner,
    guests_before: G,
    header: Option<Seq<char>>,
    body: CreateLeaseRequest,
    after: NodeInner,
    guests_after: G,
    r: Result<LeaseId, ApiError>,
)
    requires
        is_created(before, guests_before, header, body, after, guests_after, r),
    ensures
        r matches Ok(id) ==> {
            &&& after.live matches Some(live)
            &&& live.lease.id == id
            &&& live.lease.state == LeaseState::Live
            &&& live.lease.ended_at is None
            &&& live.lease.viewer_url is None
            &&& live.view is None
            &&& is_clock_reading(live.lease.started_at.nanos())
            &&& id.0@.len() == 34
            &&& starts_with_text(id.0@, "l_"@)
            &&& are_drawn_digits(id.0@.skip(2))
            &&& live.lease.quote.vcpu == asked_or(body.vcpu, 2)
            &&& live.lease.quote.mem_gib == asked_or(body.mem_gib, 4)
            &&& live.lease.quote.disk_gib == asked_or(body.disk_gib, 40)
            &&& live.lease.quote.os == GuestOs::Linux
            &&& live.lease.quote.min_seconds == 60
            &&& !live.lease.quote.settlement.charged_here
            &&& exists|spec: GuestSpec|
                {
                    &&& #[trigger] G::starts(
                        guests_before,
                        id,
                        spec,
                        guests_after,
                        Ok(live.handle),
                    )
                    &&& spec.image@ == before.config.image@
                    &&& spec.vcpu == live.lease.quote.vcpu
                    &&& spec.mem_gib == live.lease.quote.mem_gib
                }
            &&& after == (NodeInner { live: after.live, ..before })
            &&& before.live is None
            &&& before.parked
            &&& before.report.eligible
            &&& body.os == GuestOs::Linux
        },
        r matches Err(e) ==> after == before,
{
    if create_refusal(before, header, body) is None {
        let (plan, started, now) = choose|
            plan: LeasePlan,
            started: Result<GuestHandle, GuestError>,
            now: Timestamp,
        |
            {
                &&& is_plan_for(plan, before, body)
                &&& are_drawn_digits(plan.id.0@.skip(2))
                &&& G::starts(guests_before, plan.id, plan.spec, guests_after, started)
                &&& is_clock_reading(now.nanos())
                &&& #[trigger] is_installed(before, plan, started, now, after, r)
            };
        match r {
            Ok(id) => {
                let handle = started->Ok_0;
                assert(G::starts(guests_before, id, plan.spec, guests_after, Ok(handle)));
                reveal_strlit("l_");
                let digits = choose|digits: Seq<char>| #[trigger]
                    crate::session::all_hex(digits) && digits.len() == 32 && id.0@ == "l_"@
                        + digits;
                let prefix = "l_"@;
                assert forall|k: int| 0 <= k < prefix.len() implies id.0@[0 + k]
                    == #[trigger] prefix[k] by {}
                assert(crate::text::occurs_at(id.0@, prefix, 0));
                let live = after.live->Some_0;
                assert(live.handle == handle);
                assert(after == (NodeInner { live: after.live, ..before }));
            },
            Err(_) => {},
        }
    }
}

/// A request for a lease is refused for the first reason that holds: who asks,
/// the node's eligibility, whether it is parked, whether it is free, the
/// guest's system, and its size. Each reason has its status.
pub proof fn law_refusals_come_in_order(
    node: NodeInner,
    header: Option<Seq<char>>,
    body: CreateLeaseRequest,
)
    ensures
        ({
            let refusal = create_refusal(node, header, body);
            let barred = token_refusal(node, header, Capability::Lease);
            let zero = asked_or(body.vcpu, 2) == 0 || asked_or(body.mem_gib, 4) == 0 || asked_or(
                body.disk_gib,
                40,
            ) == 0;
            if barred is Some {
                refusal == barred
            } else if !node.report.eligible {
                refusal matches Some(r) && r.status == 403
            } else if !node.parked {
                refusal matches Some(r) && r.status == 409 && r.message == "node is unparked"@
            } else if node.live is Some {
                refusal matches Some(r) && r.status == 409 && r.message
                    == "a lease is already live"@
            } else if body.os != GuestOs::Linux {
                refusal matches Some(r) && r.status == 400
            } else if zero {
                refusal matches Some(r) && r.status == 400 && r.message == if asked_or(
                    body.vcpu,
                    2,
                ) == 0 {
                    "vcpu must be > 0 (0 is not unlimited)"@
                } else if asked_or(body.mem_gib, 4) == 0 {
                    "mem_gib must be > 0 (0 is not unlimited)"@
                } else {
                    "disk_gib must be > 0"@
                }
            } else {
                refusal is None
            }
        }),
{
}

/// A stored pairing of this hash is there and carries the capability, and no
/// other pairing of the hash comes before it.
pub open spec fn is_granted(
    booth: BoothView,
    hash: Seq<char>,
    need: Capability,
    i: int,
) -> bool {
    &&& 0 <= i < booth.tokens.len()
    &&& booth.tokens[i].token_hash == hash
    &&& booth.tokens[i].capabilities.contains(need)
    &&& forall|k: int| 0 <= k < i ==> (#[trigger] booth.tokens[k]).token_hash != hash
}

proof fn lemma_first_issued(tokens: Seq<IssuedView>, hash: Seq<char>)
    ensures
        match first_issued(tokens, hash) {
            Some(issued) => exists|i: int|
                0 <= i < tokens.len() && #[trigger] tokens[i] == issued && issued.token_hash == hash
                    && forall|k: int| 0 <= k < i ==> (#[trigger] tokens[k]).token_hash != hash,
            None => forall|k: int|
                0 <= k < tokens.len() ==> (#[trigger] tokens[k]).token_hash != hash,
        },
    decreases tokens.len(),
{
    if tokens.len() > 0 {
        let front = tokens.drop_last();
        lemma_first_issued(front, hash);
        match first_issued(front, hash) {
            Some(issued) => {
                let i = choose|i: int|
                    0 <= i < front.len() && #[trigger] front[i] == issued && issued.token_hash
                        == hash && forall|k: int|
                        0 <= k < i ==> (#[trigger] front[k]).token_hash != hash;
                assert(tokens[i] == issued);
                assert forall|k: int| 0 <= k < i implies (#[trigger] tokens[k]).token_hash
                    != hash by {
                    assert(front[k] == tokens[k]);
                }
            },
            None => {
                assert forall|k: int| 0 <= k < front.len() implies (
                #[trigger] tokens[k]).token_hash != hash by {
                    assert(front[k] == tokens[k]);
                }
                assert(tokens[tokens.len() - 1] == tokens.last());
            },
        }
    }
}

/// Whoever is let through shows `Bearer ` and a token whose digest the node
/// has stored with the capability; anyone else is told 401.
pub proof fn law_only_paired_clients_are_let_through(
    node: NodeInner,
    header: Option<Seq<char>>,
    need: Capability,
)
    ensures
        token_refusal(node, header, need) is None <==> {
            &&& header matches Some(raw)
            &&& starts_with_text(raw, "Bearer "@)
            &&& exists|i: int| #[trigger]
                is_granted(node.pairing@, stored_hash(raw.skip(7)), need, i)
        },
        token_refusal(node, header, need) matches Some(refusal) ==> refusal.status == 401,
        header is None ==> token_refusal(node, header, need) == Some(
            Refusal { status: 401, message: "missing bearer token"@ },
        ),
{
    reveal_strlit("Bearer ");
    match header {
        Some(raw) => {
            let hash = stored_hash(raw.skip(7));
            let tokens = node.pairing@.tokens;
            lemma_first_issued(tokens, hash);
            if starts_with_text(raw, "Bearer "@) {
                match first_issued(tokens, hash) {
                    Some(issued) => {
                        let i = choose|i: int|
                            0 <= i < tokens.len() && #[trigger] tokens[i] == issued
                                && issued.token_hash == hash && forall|k: int|
                                0 <= k < i ==> (#[trigger] tokens[k]).token_hash != hash;
                        if issued.capabilities.contains(need) {
                            assert(is_granted(node.pairing@, hash, need, i));
                        } else {
                            assert forall|j: int| !#[trigger] is_granted(
                                node.pairing@,
                                hash,
                                need,
                                j,
                            ) by {
                                if is_granted(node.pairing@, hash, need, j) {
                                    if j < i {
                                        assert(tokens[j].token_hash != hash);
                                    } else if i < j {
                                        assert(tokens[i].token_hash != hash);
                                    }
                                }
                            }
                        }
                    },
                    None => {
                        assert forall|j: int| !#[trigger] is_granted(
                            node.pairing@,
                            hash,
                            need,
                            j,
                        ) by {
                            if is_granted(node.pairing@, hash, need, j) {
                                assert(tokens[j].token_hash != hash);
                            }
                        }
                    },
                }
            }
        },
        None => {},
    }
}

/// Each request needs its capability: an operator parks and unparks, and
/// whoever may lease asks for leases and drives their guests. Without it the
/// refusal is that of the token.
pub proof fn law_each_request_needs_its_capability(
    node: NodeInner,
    header: Option<Seq<char>>,
    id: Seq<char>,
    op: OpView,
)
    ensures
        token_refusal(node, header, Capability::Operator) is Some ==> park_refusal(node, header)
            == token_refusal(node, header, Capability::Operator) && unpark_refusal(node, header)
            == token_refusal(node, header, Capability::Operator),
        token_refusal(node, header, Capability::Lease) is Some ==> lease_refusal(node, header, id)
            == token_refusal(node, header, Capability::Lease),
        token_refusal(node, header, Capability::Lease) is Some && op_refusal(op) is None
            ==> live_op_refusal(node, header, id, op) == token_refusal(
            node,
            header,
            Capability::Lease,
        ),
        park_refusal(node, header) is None <==> token_refusal(node, header, Capability::Operator)
            is None && node.report.eligible,
        unpark_refusal(node, header) is None <==> token_refusal(node, header, Capability::Operator)
            is None && node.live is None,
{
}

/// A lease is found by its own id and no other, by whoever may lease; anyone
/// else who may lease is told 404. An op reaches the guest on the same terms.
pub proof fn law_a_lease_is_found_by_its_id_alone(
    node: NodeInner,
    header: Option<Seq<char>>,
    id: Seq<char>,
    op: OpView,
)
    requires
        token_refusal(node, header, Capability::Lease) is None,
    ensures
        lease_refusal(node, header, id) is None <==> (node.live matches Some(live)
            && live.lease.id.0@ == id),
        lease_refusal(node, header, id) matches Some(refusal) ==> refusal == (Refusal {
            status: 404,
            message: "lease not found"@,
        }),
        op_refusal(op) is None ==> {
            &&& live_op_refusal(node, header, id, op) is None <==> lease_refusal(
                node,
                header,
                id,
            ) is None
            &&& live_op_refusal(node, header, id, op) matches Some(refusal) ==> refusal.status
                == 404
        },
{
}

/// An op that has no argv is a bad request, and one whose argv would reach a
/// display of the host is forbidden, whoever asks.
pub proof fn law_ops_that_leave_the_guest_are_refused(op: OpView)
    ensures
        op_refusal(op) matches Some(refusal) ==> refusal.status == 400 || refusal.status == 403,
        op matches OpView::Type { text } ==> {
            &&& text.len() == 0 ==> (op_refusal(op) matches Some(refusal) && refusal.status == 400)
            &&& crate::laws::isolation::names_a_display(text) ==> (op_refusal(op) matches Some(
                refusal,
            ) && refusal.status == 403)
        },
        op matches OpView::Key { keys } ==> forall|i: int|
            0 <= i < keys.len() && crate::laws::isolation::names_a_display(#[trigger] keys[i])
                ==> op_refusal(op) is Some,
{
    law_driver_is_told_the_op(op);
    match op {
        OpView::Type { text } => {
            if crate::laws::isolation::names_a_display(text) {
                reveal_strlit(".x11-unix");
                reveal_strlit("/tmp/.x11");
                reveal_strlit("wayland");
                let argv = crate::action::op_argv(op)->Ok_0;
                assert(argv[2] == text);
                assert(crate::action::reaches_host(argv[2]));
            }
        },
        OpView::Key { keys } => {
            assert forall|i: int|
                0 <= i < keys.len() && crate::laws::isolation::names_a_display(
                    #[trigger] keys[i],
                ) implies op_refusal(op) is Some by {
                match crate::action::op_argv(op) {
                    Ok(argv) => {
                        assert(argv[i + 2] == keys[i]);
                        assert(crate::action::reaches_host(argv[i + 2]));
                    },
                    Err(_) => {},
                }
            }
        },
        _ => {},
    }
}

/// A receipt counts the seconds from the reading of the clock at which its
/// lease was recorded to its end.
pub proof fn law_receipt_counts_from_the_recorded_start(
    node: NodeInner,
    plan: LeasePlan,
    started: Result<GuestHandle, GuestError>,
    now: Timestamp,
    leased: NodeInner,
    r: Result<LeaseId, ApiError>,
    ended_at: Timestamp,
    receipt: Receipt,
)
    requires
        is_installed(node, plan, started, now, leased, r),
        r is Ok,
        is_receipt_of(receipt, leased.live->Some_0.lease, ended_at, EndReason::Graceful),
        now.nanos() <= ended_at.nanos(),
    ensures
        receipt.occupancy_seconds * 1_000_000_000 <= ended_at.nanos() - now.nanos() < (
        receipt.occupancy_seconds + 1) * 1_000_000_000,
        receipt.lease_id == plan.id,
        receipt.billed_seconds >= receipt.occupancy_seconds,
        receipt.billed_seconds >= plan.quote.min_seconds,
        receipt.billed_seconds == receipt.occupancy_seconds || receipt.billed_seconds
            == plan.quote.min_seconds,
{
}

/// The node reads an action body by its op: a click at its pixel, with its
/// button, typing of its text, pressing of its keys, or a picture. What the
/// op needs and the body lacks is named.
pub proof fn law_action_bodies_are_read_by_their_op(body: ActionBody)
    ensures
        body.op@ == "click"@ && body.x is Some && body.y is Some ==> match opt_string(
            body.button,
        ) {
            None => asked_op(body) == Ok::<OpView, Seq<char>>(
                OpView::Click { x: body.x->0, y: body.y->0, button: Button::Left },
            ),
            Some(name) => {
                &&& name == "left"@ ==> asked_op(body) == Ok::<OpView, Seq<char>>(
                    OpView::Click { x: body.x->0, y: body.y->0, button: Button::Left },
                )
                &&& name == "right"@ ==> asked_op(body) == Ok::<OpView, Seq<char>>(
                    OpView::Click { x: body.x->0, y: body.y->0, button: Button::Right },
                )
                &&& name == "middle"@ ==> asked_op(body) == Ok::<OpView, Seq<char>>(
                    OpView::Click { x: body.x->0, y: body.y->0, button: Button::Middle },
                )
                &&& name != "left"@ && name != "right"@ && name != "middle"@ ==> asked_op(
                    body,
                ) is Err
            },
        },
        body.op@ == "click"@ && body.x is None ==> asked_op(body) == Err::<OpView, Seq<char>>(
            "x is required"@,
        ),
        body.op@ == "click"@ && body.x is Some && body.y is None ==> asked_op(body) == Err::<
            OpView,
            Seq<char>,
        >("y is required"@),
        body.op@ == "type"@ ==> asked_op(body) == match opt_string(body.text) {
            Some(text) => Ok::<OpView, Seq<char>>(OpView::Type { text }),
            None => Err::<OpView, Seq<char>>("text is required"@),
        },
        body.op@ == "key"@ ==> asked_op(body) == match body.keys {
            Some(keys) => Ok::<OpView, Seq<char>>(OpView::Key { keys: texts(keys@) }),
            None => Err::<OpView, Seq<char>>("keys is required"@),
        },
        body.op@ == "screenshot"@ ==> asked_op(body) == Ok::<OpView, Seq<char>>(
            OpView::Screenshot,
        ),
        asked_op(body) is Ok ==> body.op@ == "click"@ || body.op@ == "type"@ || body.op@ == "key"@
            || body.op@ == "screenshot"@,
{
    reveal_strlit("click");
    reveal_strlit("type");
    reveal_strlit("key");
    reveal_strlit("screenshot");
    reveal_strlit("left");
    reveal_strlit("right");
    reveal_strlit("middle");
    assert("click"@.len() == 5 && "type"@.len() == 4 && "key"@.len() == 3 && "screenshot"@.len()
        == 10);
    assert("left"@.len() == 4 && "right"@.len() == 5 && "middle"@.len() == 6);
}

/// Ending a lease takes that lease off the node and nothing else, stops its
/// viewer, and asks the runtime to destroy the guest that was kept for it. It
/// succeeds exactly for whoever may lease and names the live lease; anyone else
/// changes nothing.
pub proof fn law_ended_lease_leaves_nothing_behind<G: GuestRuntime>(
    before: NodeInner,
    guests_before: G,
    header: Option<Seq<char>>,
    id: Seq<char>,
    after: NodeInner,
    guests_after: G,
    r: Result<EndedLease, ApiError>,
)
    requires
        is_ended(before, guests_before, header, id, after, guests_after, r),
    ensures
        r is Ok <==> token_refusal(before, header, Capability::Lease) is None && (
        before.live matches Some(live) && live.lease.id.0@ == id),
        r matches Ok(ended) ==> {
            &&& before.live matches Some(live)
            &&& ended.lease == live.lease
            &&& ended.view matches Some(view) ==> !view.serving
            &&& ended.view is Some <==> live.view is Some
            &&& G::destroys(guests_before, live.handle, guests_after, ended.destroyed)
            &&& after.live is None
            &&& after == (NodeInner { live: None, ..before })
        },
        r matches Err(e) ==> {
            &&& after == before
            &&& guests_after == guests_before
            &&& e.status == 401 || e.status == 404
        },
{
    law_only_paired_clients_are_let_through(before, header, Capability::Lease);
}

/// A lease whose viewer came up names it and stays as it was otherwise. A lease
/// whose viewer did not is given up: it is off the node, and the runtime was
/// asked to destroy its guest. Another lease is left alone.
pub proof fn law_lease_without_a_viewer_is_given_up<G: GuestRuntime>(
    before: NodeInner,
    guests_before: G,
    id: Seq<char>,
    view: Result<LoopbackView, ViewError>,
    after: NodeInner,
    guests_after: G,
    r: Viewed,
)
    requires
        is_viewed(before, guests_before, id, view, after, guests_after, r),
    ensures
        r matches Viewed::Created(status, lease) ==> {
            &&& status == 201
            &&& view matches Ok(up)
            &&& before.live matches Some(was)
            &&& was.lease.id.0@ == id
            &&& lease == (Lease { viewer_url: lease.viewer_url, ..was.lease })
            &&& opt_string(lease.viewer_url) == Some("http://"@ + socket_text(up.addr) + "/"@)
            &&& after.live matches Some(now)
            &&& now.lease == lease
            &&& now.handle == was.handle
            &&& now.view == Some(up)
            &&& guests_after == guests_before
        },
        (before.live matches Some(was) && was.lease.id.0@ == id) ==> {
            &&& view is Ok <==> r is Created
            &&& view is Err ==> after.live is None && exists|outcome: Result<(), GuestError>|
                #[trigger]
                G::destroys(
                    guests_before,
                    before.live->Some_0.handle,
                    guests_after,
                    outcome,
                )
        },
        !(before.live matches Some(was) && was.lease.id.0@ == id) ==> after == before
            && guests_after == guests_before && r is Failed,
        r matches Viewed::Failed { error, stop } ==> {
            &&& view is Err ==> error.status == 503 && stop is None
            &&& view matches Ok(up) ==> stop == Some(up) && (error.status == 404 || error.status
                == 409)
        },
{
}

/// What an op gives back is what the guest of the lease answered to the op's
/// argv: the bytes as they came, or 502. A refused op never reaches a guest.
pub proof fn law_ops_give_what_the_guest_answered<G: GuestRuntime>(
    node: NodeInner,
    guests_before: G,
    header: Option<Seq<char>>,
    id: Seq<char>,
    op: OpView,
    guests_after: G,
    r: Result<Vec<u8>, ApiError>,
)
    requires
        is_run(node, guests_before, header, id, op, guests_after, r),
    ensures
        r matches Ok(bytes) ==> {
            &&& token_refusal(node, header, Capability::Lease) is None
            &&& node.live matches Some(live)
            &&& live.lease.id.0@ == id
            &&& op_argv(op) matches Ok(argv)
            &&& argv[0] == "/usr/local/bin/driver"@
            &&& G::execs(guests_before, live.handle, argv, guests_after, Ok(bytes))
        },
        r matches Err(e) ==> match live_op_refusal(node, header, id, op) {
            Some(refusal) => e@ == refusal && guests_after == guests_before,
            None => e.status == 502,
        },
{
    law_driver_is_told_the_op(op);
}

/// A guest in memory answers every op with a picture, and no op changes which
/// guests there are.
pub proof fn law_memory_guests_answer_with_a_picture(
    before: MemoryGuest,
    handle: GuestHandle,
    argv: Seq<Seq<char>>,
    after: MemoryGuest,
    r: Result<Vec<u8>, GuestError>,
)
    requires
        MemoryGuest::execs(before, handle, argv, after, r),
    ensures
        r matches Ok(bytes) && is_png(bytes@),
        after == before,
{
    let bytes = r->Ok_0@;
    law_pictures_are_told_by_their_first_bytes(bytes);
    assert(bytes == crate::action::MINIMAL_PNG@);
}

} // verus!
