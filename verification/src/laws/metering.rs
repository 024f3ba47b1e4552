//! What is quoted, metered and written down are seconds of occupancy.

use vstd::prelude::*;

use crate::clock::{held_seconds, whole_seconds, Timestamp};
use crate::decimal::{all_digits, digits_value, law_decimal_read_back, lemma_decimal_digits};
use crate::documents::{count_json, hint_json, lease_json, quote_json, receipt_json};
use crate::eligibility::GuestOs;
use crate::json::{lemma_lookup, lookup, JsonView};
use crate::session::{
    is_hex_digit, is_linux_isolated, is_random_uuid, is_receipt_of, quote_refusal, EndReason, Lease, LeaseState, Quote,
    QuoteError, Receipt, SettlementHint,
};

verus! {

/// The member `key` of a document is the number `n`: its digits read as `n`,
/// and so does its integer, where that is large enough.
pub open spec fn says_number(doc: JsonView, key: Seq<char>, n: nat) -> bool {
    &&& doc.field(key) matches Some(JsonView::Number(whole, text))
    &&& text.len() > 0
    &&& all_digits(text)
    &&& digits_value(text) == n
    &&& n <= i64::MAX ==> whole == Some(n as i64)
    &&& n > i64::MAX ==> whole is None
}

/// The member `key` of a document is the text `text`.
pub open spec fn says_text(doc: JsonView, key: Seq<char>, text: Seq<char>) -> bool {
    doc.field(key) == Some(JsonView::Str(text))
}

/// The member `settlement` of a document is the hint.
pub open spec fn says_hint(doc: JsonView, hint: SettlementHint) -> bool {
    &&& doc.field("settlement"@) matches Some(settlement)
    &&& settlement.field("charged_here"@) == Some(JsonView::Bool(hint.charged_here))
    &&& settlement.field("note"@) == Some(JsonView::Str(hint.note@))
}

proof fn lemma_count(n: u64)
    ensures
        count_json(n) matches JsonView::Number(whole, text) && text.len() > 0 && all_digits(text)
            && digits_value(text) == n && (n <= i64::MAX ==> whole == Some(n as i64)) && (n
            > i64::MAX ==> whole is None),
{
    lemma_decimal_digits(n as nat);
    law_decimal_read_back(n as nat);
}

proof fn lemma_hint(hint: SettlementHint)
    ensures
        hint_json(hint).field("charged_here"@) == Some(JsonView::Bool(hint.charged_here)),
        hint_json(hint).field("note"@) == Some(JsonView::Str(hint.note@)),
{
    reveal_strlit("charged_here");
    reveal_strlit("note");
    assert("charged_here"@.len() == 12 && "note"@.len() == 4);
    let list = hint_json(hint)->Object_0;
    lemma_lookup(list, 0, "charged_here"@);
    lemma_lookup(list, 1, "note"@);
}

/// The document of a receipt says what the receipt says: looking up a number
/// gives the number of that name.
pub proof fn law_receipt_document_says_what_the_receipt_says(receipt: Receipt)
    ensures
        ({
            let doc = receipt_json(receipt);
            &&& says_text(doc, "lease_id"@, receipt.lease_id.0@)
            &&& says_number(doc, "occupancy_seconds"@, receipt.occupancy_seconds as nat)
            &&& says_number(doc, "min_seconds"@, receipt.min_seconds as nat)
            &&& says_number(doc, "billed_seconds"@, receipt.billed_seconds as nat)
            &&& says_text(doc, "occupancy_unit"@, "seconds"@)
            &&& says_text(doc, "notional_usd"@, receipt.notional_usd@)
            &&& says_text(doc, "reason"@, "graceful"@)
            &&& says_hint(doc, receipt.settlement)
        }),
{
    reveal_strlit("lease_id");
    reveal_strlit("occupancy_seconds");
    reveal_strlit("min_seconds");
    reveal_strlit("billed_seconds");
    reveal_strlit("occupancy_unit");
    reveal_strlit("notional_usd");
    reveal_strlit("reason");
    reveal_strlit("settlement");
    assert("billed_seconds"@[0] == 'b' && "occupancy_unit"@[0] == 'o');
    assert("lease_id"@.len() == 8 && "occupancy_seconds"@.len() == 17 && "min_seconds"@.len() ==
        11 && "billed_seconds"@.len() == 14 && "occupancy_unit"@.len() == 14 &&
        "notional_usd"@.len() == 12 && "reason"@.len() == 6 && "settlement"@.len() == 10);
    let list = receipt_json(receipt)->Object_0;
    lemma_lookup(list, 0, "lease_id"@);
    lemma_lookup(list, 1, "occupancy_seconds"@);
    lemma_lookup(list, 2, "min_seconds"@);
    lemma_lookup(list, 3, "billed_seconds"@);
    lemma_lookup(list, 4, "occupancy_unit"@);
    lemma_lookup(list, 5, "notional_usd"@);
    lemma_lookup(list, 6, "reason"@);
    lemma_lookup(list, 7, "settlement"@);
    lemma_count(receipt.occupancy_seconds);
    lemma_count(receipt.min_seconds);
    lemma_count(receipt.billed_seconds);
    lemma_hint(receipt.settlement);
}

/// The document of a lease's receipt bills the larger of the seconds that were
/// held and the minimum of its quote. The seconds that were held are the whole
/// ones between the start of the lease and its end, and nothing is charged.
pub proof fn law_receipt_document_bills_what_was_held(
    receipt: Receipt,
    lease: Lease,
    ended_at: Timestamp,
    reason: EndReason,
)
    requires
        is_receipt_of(receipt, lease, ended_at, reason),
    ensures
        ({
            let doc = receipt_json(receipt);
            let span = ended_at.nanos() - lease.started_at.nanos();
            &&& exists|held: nat, least: nat, billed: nat|
                {
                    &&& #[trigger] says_number(doc, "occupancy_seconds"@, held)
                    &&& #[trigger] says_number(doc, "min_seconds"@, least)
                    &&& #[trigger] says_number(doc, "billed_seconds"@, billed)
                    &&& least == lease.quote.min_seconds
                    &&& billed >= held && billed >= least && (billed == held || billed == least)
                    &&& span < 0 ==> held == 0
                    &&& span >= 0 ==> held * 1_000_000_000 <= span < (held + 1) * 1_000_000_000
                }
            &&& says_text(doc, "lease_id"@, lease.id.0@)
            &&& doc.field("settlement"@) matches Some(hint) && hint.field("charged_here"@) == Some(
                JsonView::Bool(false),
            )
        }),
{
    law_receipt_document_says_what_the_receipt_says(receipt);
    let doc = receipt_json(receipt);
    let held = receipt.occupancy_seconds as nat;
    let least = receipt.min_seconds as nat;
    let billed = receipt.billed_seconds as nat;
    let span = ended_at.nanos() - lease.started_at.nanos();
    assert(held == held_seconds(lease.started_at, ended_at));
    assert(says_number(doc, "occupancy_seconds"@, held));
    assert(says_number(doc, "min_seconds"@, least));
    assert(says_number(doc, "billed_seconds"@, billed));
    assert(span < 0 ==> whole_seconds(span) <= 0);
}

/// The document of a quote says what the quote says.
pub proof fn law_quote_document_says_what_the_quote_says(quote: Quote)
    ensures
        ({
            let doc = quote_json(quote);
            &&& says_number(doc, "vcpu"@, quote.vcpu as nat)
            &&& says_number(doc, "mem_gib"@, quote.mem_gib as nat)
            &&& says_number(doc, "disk_gib"@, quote.disk_gib as nat)
            &&& says_text(
                doc,
                "os"@,
                match quote.os {
                    GuestOs::Linux => "linux"@,
                    GuestOs::WindowsHomeOem => "windows-home-oem"@,
                    GuestOs::WindowsProOem => "windows-pro-oem"@,
                    GuestOs::Macos => "macos"@,
                },
            )
            &&& says_text(doc, "density"@, "isolated"@)
            &&& says_number(doc, "min_seconds"@, quote.min_seconds as nat)
            &&& says_text(doc, "occupancy_unit"@, "seconds"@)
            &&& says_text(doc, "notional_usd_per_hour"@, quote.notional_usd_per_hour@)
            &&& says_hint(doc, quote.settlement)
        }),
{
    reveal_strlit("vcpu");
    reveal_strlit("mem_gib");
    reveal_strlit("disk_gib");
    reveal_strlit("os");
    reveal_strlit("density");
    reveal_strlit("min_seconds");
    reveal_strlit("occupancy_unit");
    reveal_strlit("notional_usd_per_hour");
    reveal_strlit("settlement");
    assert("mem_gib"@[0] == 'm' && "density"@[0] == 'd');
    assert("vcpu"@.len() == 4 && "mem_gib"@.len() == 7 && "disk_gib"@.len() == 8 && "os"@.len()
        == 2 && "density"@.len() == 7 && "min_seconds"@.len() == 11 && "occupancy_unit"@.len() ==
        14 && "notional_usd_per_hour"@.len() == 21 && "settlement"@.len() == 10);
    let list = quote_json(quote)->Object_0;
    lemma_lookup(list, 0, "vcpu"@);
    lemma_lookup(list, 1, "mem_gib"@);
    lemma_lookup(list, 2, "disk_gib"@);
    lemma_lookup(list, 3, "os"@);
    lemma_lookup(list, 4, "density"@);
    lemma_lookup(list, 5, "min_seconds"@);
    lemma_lookup(list, 6, "occupancy_unit"@);
    lemma_lookup(list, 7, "notional_usd_per_hour"@);
    lemma_lookup(list, 8, "settlement"@);
    lemma_count(quote.vcpu as u64);
    lemma_count(quote.mem_gib as u64);
    lemma_count(quote.disk_gib as u64);
    lemma_count(quote.min_seconds);
    lemma_hint(quote.settlement);
}

/// The document of a lease says what the lease says: which it is, how it
/// stands, its quote, its times, and its viewer where it has one.
pub proof fn law_lease_document_says_what_the_lease_says(
    lease: Lease,
    started: Seq<char>,
    ended: Option<Seq<char>>,
)
    ensures
        ({
            let doc = lease_json(lease, started, ended);
            &&& says_text(doc, "id"@, lease.id.0@)
            &&& says_text(
                doc,
                "state"@,
                match lease.state {
                    LeaseState::Live => "live"@,
                    LeaseState::Ended => "ended"@,
                },
            )
            &&& doc.field("quote"@) == Some(quote_json(lease.quote))
            &&& says_text(doc, "started_at"@, started)
            &&& match ended {
                Some(time) => says_text(doc, "ended_at"@, time),
                None => doc.field("ended_at"@) == Some(JsonView::Null),
            }
            &&& match lease.viewer_url {
                Some(url) => says_text(doc, "viewer_url"@, url@),
                None => doc.field("viewer_url"@) is None,
            }
        }),
{
    reveal_strlit("id");
    reveal_strlit("state");
    reveal_strlit("quote");
    reveal_strlit("started_at");
    reveal_strlit("ended_at");
    reveal_strlit("viewer_url");
    assert("state"@[0] == 's' && "quote"@[0] == 'q' && "started_at"@[0] == 's' && "viewer_url"@[0]
        == 'v');
    assert("id"@.len() == 2 && "state"@.len() == 5 && "quote"@.len() == 5 && "started_at"@.len()
        == 10 && "ended_at"@.len() == 8 && "viewer_url"@.len() == 10);
    let list = lease_json(lease, started, ended)->Object_0;
    lemma_lookup(list, 0, "id"@);
    lemma_lookup(list, 1, "state"@);
    lemma_lookup(list, 2, "quote"@);
    lemma_lookup(list, 3, "started_at"@);
    lemma_lookup(list, 4, "ended_at"@);
    match lease.viewer_url {
        Some(url) => {
            lemma_lookup(list, 5, "viewer_url"@);
        },
        None => {
            lemma_not_found(list, "viewer_url"@);
        },
    }
}

/// A member that no name fits is not found.
pub proof fn lemma_not_found(list: Seq<(Seq<char>, JsonView)>, key: Seq<char>)
    requires
        forall|i: int| 0 <= i < list.len() ==> (#[trigger] list[i]).0 != key,
    ensures
        lookup(list, key) is None,
    decreases list.len(),
{
    if list.len() > 0 {
        assert(list[0].0 != key);
        let rest = list.drop_first();
        assert forall|i: int| 0 <= i < rest.len() implies (#[trigger] rest[i]).0 != key by {
            assert(rest[i] == list[i + 1]);
        }
        lemma_not_found(rest, key);
    }
}

/// A quote is issued for every shape with processors, memory and disk, and for
/// no other; the first that is missing is named. An issued quote is for that
/// shape of an isolated Linux guest, by the second, for a minute at least, and
/// charges nothing.
pub proof fn law_quotes_are_for_what_was_asked(vcpu: u32, mem_gib: u32, disk_gib: u32, quote: Quote)
    ensures
        quote_refusal(vcpu, mem_gib, disk_gib) is None <==> vcpu > 0 && mem_gib > 0 && disk_gib > 0,
        vcpu == 0 ==> quote_refusal(vcpu, mem_gib, disk_gib) == Some(QuoteError::ZeroVcpu),
        vcpu > 0 && mem_gib == 0 ==> quote_refusal(vcpu, mem_gib, disk_gib) == Some(
            QuoteError::ZeroMemory,
        ),
        vcpu > 0 && mem_gib > 0 && disk_gib == 0 ==> quote_refusal(vcpu, mem_gib, disk_gib)
            == Some(QuoteError::ZeroDisk),
        is_linux_isolated(quote, vcpu, mem_gib, disk_gib) ==> {
            &&& quote.vcpu == vcpu
            &&& quote.mem_gib == mem_gib
            &&& quote.disk_gib == disk_gib
            &&& quote.os == GuestOs::Linux
            &&& quote.min_seconds == 60
            &&& quote.notional_usd_per_hour@ == "0.048"@
            &&& !quote.settlement.charged_here
        },
{
}

/// Seconds that were held add up: a lease held in two parts was held for the
/// sum of both, but for the second that their fractions make together.
pub proof fn law_held_seconds_add_up(start: Timestamp, middle: Timestamp, end: Timestamp)
    requires
        start.nanos() <= middle.nanos() <= end.nanos(),
    ensures
        ({
            let parts = held_seconds(start, middle) + held_seconds(middle, end);
            parts <= held_seconds(start, end) <= parts + 1
        }),
        held_seconds(start, start) == 0,
        start.nanos() < end.nanos() ==> held_seconds(end, start) == 0,
{
}

/// A drawn lease id is that of a random UUID: its thirteenth digit gives the
/// version, and its seventeenth the variant.
pub proof fn law_random_uuids_say_so(digits: Seq<char>)
    ensures
        is_random_uuid(digits) <==> digits[12] == '4' && (digits[16] == '8' || digits[16] == '9'
            || digits[16] == 'a' || digits[16] == 'b'),
        forall|c: char| #[trigger]
            is_hex_digit(c) <==> ('0' <= c && c <= '9') || c == 'a' || c == 'b' || c == 'c' || c
                == 'd' || c == 'e' || c == 'f',
{
}

} // verus!
