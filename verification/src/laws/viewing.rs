//! The viewer of a lease is for its tenant, on this machine.

use vstd::prelude::*;

use crate::action::{ihdr_dimensions, is_png, OpView};
use crate::http::{op_refusal, NodeInner, Refusal};
use crate::pairing::{denial, Capability};
use crate::text::{contains_text, lowercase, starts_with_text, trimmed};
use crate::view::{is_refused_file, view_op_refusal, view_refusal, view_token};

verus! {

/// A viewer takes the token from the header, where that is a bearer, else from
/// the query, without the white space around it.
pub proof fn law_viewer_takes_its_token(header: Option<Seq<char>>, query: Option<Seq<char>>)
    ensures
        match header {
            Some(raw) => starts_with_text(raw, "Bearer "@) ==> view_token(header, query) == Some(
                raw.skip(7),
            ),
            None => true,
        },
        !(header matches Some(raw) && starts_with_text(raw, "Bearer "@)) ==> match query {
            Some(raw) => if trimmed(raw).len() > 0 {
                view_token(header, query) == Some(trimmed(raw))
            } else {
                view_token(header, query) is None
            },
            None => view_token(header, query) is None,
        },
{
    reveal_strlit("Bearer ");
}

/// A viewer serves its own lease, while that is live, to whoever may lease,
/// and nobody else: without a token the answer is 401, with one that may not
/// lease 401 as well, and once the lease is gone 404.
pub proof fn law_viewer_is_for_its_tenant(
    node: NodeInner,
    id: Seq<char>,
    header: Option<Seq<char>>,
    query: Option<Seq<char>>,
)
    ensures
        match view_token(header, query) {
            None => view_refusal(node, id, header, query) matches Some(refusal) && refusal.status
                == 401,
            Some(token) => if denial(node.pairing@, token, Capability::Lease) is Some {
                view_refusal(node, id, header, query) matches Some(refusal) && refusal.status
                    == 401
            } else if node.live matches Some(live) && live.lease.id.0@ == id {
                view_refusal(node, id, header, query) is None
            } else {
                view_refusal(node, id, header, query) == Some(
                    Refusal { status: 404, message: "no live lease for this view"@ },
                )
            },
        },
{
}

/// No file that might be a display of the host is read through a viewer.
pub proof fn law_viewer_reads_no_display(path: Seq<char>)
    ensures
        contains_text(lowercase(path), "x11"@) ==> is_refused_file(path),
        contains_text(path, "wayland"@) ==> is_refused_file(path),
        is_refused_file(path) ==> contains_text(lowercase(path), "x11"@) || contains_text(
            path,
            "wayland"@,
        ),
{
}

/// A picture is what begins with the eight bytes of a PNG; its width and height
/// stand in the two numbers behind `IHDR`, the highest byte first.
pub proof fn law_pictures_are_told_by_their_first_bytes(data: Seq<u8>)
    ensures
        is_png(data) <==> data.len() >= 8 && data[0] == 137 && data[1] == 80 && data[2] == 78
            && data[3] == 71 && data[4] == 13 && data[5] == 10 && data[6] == 26 && data[7] == 10,
        ihdr_dimensions(data) is Some <==> is_png(data) && data.len() >= 24 && data[12] == 73
            && data[13] == 72 && data[14] == 68 && data[15] == 82,
        ihdr_dimensions(data) matches Some(size) ==> {
            &&& size.0 == ((data[16] * 256 + data[17]) * 256 + data[18]) * 256 + data[19]
            &&& size.1 == ((data[20] * 256 + data[21]) * 256 + data[22]) * 256 + data[23]
        },
{
    let magic = crate::action::PNG_MAGIC@;
    assert(magic[0] == 137 && magic[1] == 80 && magic[2] == 78 && magic[3] == 71 && magic[4] == 13
        && magic[5] == 10 && magic[6] == 26 && magic[7] == 10);
    if data.len() >= 8 {
        let head = data.take(8);
        assert(head[0] == data[0] && head[1] == data[1] && head[2] == data[2] && head[3] == data[3]
            && head[4] == data[4] && head[5] == data[5] && head[6] == data[6] && head[7]
            == data[7]);
        if data[0] == 137 && data[1] == 80 && data[2] == 78 && data[3] == 71 && data[4] == 13
            && data[5] == 10 && data[6] == 26 && data[7] == 10 {
            assert(head =~= magic);
        }
    }
    if data.len() >= 24 {
        let chunk = data.subrange(12, 16);
        let name = seq![0x49u8, 0x48u8, 0x44u8, 0x52u8];
        assert(chunk[0] == data[12] && chunk[1] == data[13] && chunk[2] == data[14] && chunk[3]
            == data[15]);
        assert(name[0] == 73 && name[1] == 72 && name[2] == 68 && name[3] == 82);
        if data[12] == 73 && data[13] == 72 && data[14] == 68 && data[15] == 82 {
            assert(chunk =~= name);
        }
    }
}

/// An op through a viewer is refused as it would be anywhere, and otherwise
/// reaches the guest of the viewer's own lease, while that is live.
pub proof fn law_ops_through_a_viewer_reach_its_lease(node: NodeInner, id: Seq<char>, op: OpView)
    ensures
        op_refusal(op) is Some ==> view_op_refusal(node, id, op) == op_refusal(op),
        op_refusal(op) is None ==> view_op_refusal(node, id, op) == if node.live matches Some(live)
            && live.lease.id.0@ == id {
            None::<Refusal>
        } else {
            Some(Refusal { status: 404, message: "no live lease for this view"@ })
        },
{
}

} // verus!
