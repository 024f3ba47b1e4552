//! Quotes, leases and receipts as the JSON documents that clients read.

use vstd::prelude::*;

use crate::clock::{rfc3339, Timestamp};
use crate::decimal::{decimal, print_u64};
use crate::eligibility::GuestOs;
use crate::json::{add_member, lemma_object_view, member_views, object2, Json, JsonView};
use crate::session::{
    Density, EndReason, Lease, LeaseState, OccupancyUnit, Quote, Receipt, SettlementHint,
};
use crate::text::opt_string;

verus! {

/// A number that is not negative.
pub open spec fn count_json(n: u64) -> JsonView {
    JsonView::Number(
        if n <= i64::MAX {
            Some(n as i64)
        } else {
            None
        },
        decimal(n as nat),
    )
}

/// The name of a guest OS.
pub open spec fn os_name(os: GuestOs) -> Seq<char> {
    match os {
        GuestOs::Linux => "linux"@,
        GuestOs::WindowsHomeOem => "windows-home-oem"@,
        GuestOs::WindowsProOem => "windows-pro-oem"@,
        GuestOs::Macos => "macos"@,
    }
}

/// The name of a lease's state.
pub open spec fn state_name(state: LeaseState) -> Seq<char> {
    match state {
        LeaseState::Live => "live"@,
        LeaseState::Ended => "ended"@,
    }
}

/// The name of a unit of occupancy.
pub open spec fn unit_name(unit: OccupancyUnit) -> Seq<char> {
    match unit {
        OccupancyUnit::Seconds => "seconds"@,
    }
}

/// The name of a density.
pub open spec fn density_name(density: Density) -> Seq<char> {
    match density {
        Density::Isolated => "isolated"@,
    }
}

/// The name of a reason to end a lease.
pub open spec fn reason_name(reason: EndReason) -> Seq<char> {
    match reason {
        EndReason::Graceful => "graceful"@,
    }
}

/// The document of a settlement hint.
pub open spec fn hint_json(hint: SettlementHint) -> JsonView {
    JsonView::Object(
        seq![
            ("charged_here"@, JsonView::Bool(hint.charged_here)),
            ("note"@, JsonView::Str(hint.note@)),
        ],
    )
}

/// The document of a quote.
pub open spec fn quote_json(quote: Quote) -> JsonView {
    JsonView::Object(
        seq![
            ("vcpu"@, count_json(quote.vcpu as u64)),
            ("mem_gib"@, count_json(quote.mem_gib as u64)),
            ("disk_gib"@, count_json(quote.disk_gib as u64)),
            ("os"@, JsonView::Str(os_name(quote.os))),
            ("density"@, JsonView::Str(density_name(quote.density))),
            ("min_seconds"@, count_json(quote.min_seconds)),
            ("occupancy_unit"@, JsonView::Str(unit_name(quote.occupancy_unit))),
            ("notional_usd_per_hour"@, JsonView::Str(quote.notional_usd_per_hour@)),
            ("settlement"@, hint_json(quote.settlement)),
        ],
    )
}

/// The document of a receipt.
pub open spec fn receipt_json(receipt: Receipt) -> JsonView {
    JsonView::Object(
        seq![
            ("lease_id"@, JsonView::Str(receipt.lease_id.0@)),
            ("occupancy_seconds"@, count_json(receipt.occupancy_seconds)),
            ("min_seconds"@, count_json(receipt.min_seconds)),
            ("billed_seconds"@, count_json(receipt.billed_seconds)),
            ("occupancy_unit"@, JsonView::Str(unit_name(receipt.occupancy_unit))),
            ("notional_usd"@, JsonView::Str(receipt.notional_usd@)),
            ("reason"@, JsonView::Str(reason_name(receipt.reason))),
            ("settlement"@, hint_json(receipt.settlement)),
        ],
    )
}

/// The document of a lease whose times are written as `started` and `ended`.
/// Only a lease with a viewer names one.
pub open spec fn lease_json(
    lease: Lease,
    started: Seq<char>,
    ended: Option<Seq<char>>,
) -> JsonView {
    let members = seq![
        ("id"@, JsonView::Str(lease.id.0@)),
        ("state"@, JsonView::Str(state_name(lease.state))),
        ("quote"@, quote_json(lease.quote)),
        ("started_at"@, JsonView::Str(started)),
        (
            "ended_at"@,
            match ended {
                Some(ended) => JsonView::Str(ended),
                None => JsonView::Null,
            },
        ),
    ];
    JsonView::Object(
        match lease.viewer_url {
            Some(url) => members.push(("viewer_url"@, JsonView::Str(url@))),
            None => members,
        },
    )
}

/// How RFC 3339 writes a time that may be missing.
pub open spec fn opt_rfc3339(time: Option<Timestamp>) -> Result<Option<Seq<char>>, Seq<char>> {
    match time {
        None => Ok(None),
        Some(time) => match rfc3339(time.nanos()) {
            Ok(text) => Ok(Some(text)),
            Err(reason) => Err(reason),
        },
    }
}

fn count(n: u64) -> (r: Json)
    ensures
        r@ == count_json(n),
{
    let whole: Option<i64> = if n <= i64::MAX as u64 {
        Some(n as i64)
    } else {
        None
    };
    Json::Number(whole, print_u64(n))
}

impl GuestOs {
    /// The name of this guest OS.
    pub fn name(&self) -> (r: &'static str)
        ensures
            r@ == os_name(*self),
    {
        match self {
            GuestOs::Linux => "linux",
            GuestOs::WindowsHomeOem => "windows-home-oem",
            GuestOs::WindowsProOem => "windows-pro-oem",
            GuestOs::Macos => "macos",
        }
    }
}

impl SettlementHint {
    /// The document of this hint.
    pub fn to_json(&self) -> (r: Json)
        ensures
            r@ == hint_json(*self),
    {
        object2(
            "charged_here",
            Json::Bool(self.charged_here),
            "note",
            Json::string(self.note.as_str()),
        )
    }
}

impl Quote {
    /// The document of this quote.
    pub fn to_json(&self) -> (r: Json)
        ensures
            r@ == quote_json(*self),
    {
        let density = match self.density {
            Density::Isolated => "isolated",
        };
        let unit = match self.occupancy_unit {
            OccupancyUnit::Seconds => "seconds",
        };
        let mut list: Vec<(String, Json)> = Vec::new();
        add_member(&mut list, "vcpu", count(self.vcpu as u64));
        add_member(&mut list, "mem_gib", count(self.mem_gib as u64));
        add_member(&mut list, "disk_gib", count(self.disk_gib as u64));
        add_member(&mut list, "os", Json::string(self.os.name()));
        add_member(&mut list, "density", Json::string(density));
        add_member(&mut list, "min_seconds", count(self.min_seconds));
        add_member(&mut list, "occupancy_unit", Json::string(unit));
        add_member(
            &mut list,
            "notional_usd_per_hour",
            Json::string(self.notional_usd_per_hour.as_str()),
        );
        add_member(&mut list, "settlement", self.settlement.to_json());
        proof {
            lemma_object_view(list);
            assert(member_views(list@) =~= quote_json(*self)->Object_0);
        }
        Json::Object(list)
    }
}

impl Receipt {
    /// The document of this receipt.
    pub fn to_json(&self) -> (r: Json)
        ensures
            r@ == receipt_json(*self),
    {
        let unit = match self.occupancy_unit {
            OccupancyUnit::Seconds => "seconds",
        };
        let reason = match self.reason {
            EndReason::Graceful => "graceful",
        };
        let mut list: Vec<(String, Json)> = Vec::new();
        add_member(&mut list, "lease_id", Json::string(self.lease_id.0.as_str()));
        add_member(&mut list, "occupancy_seconds", count(self.occupancy_seconds));
        add_member(&mut list, "min_seconds", count(self.min_seconds));
        add_member(&mut list, "billed_seconds", count(self.billed_seconds));
        add_member(&mut list, "occupancy_unit", Json::string(unit));
        add_member(&mut list, "notional_usd", Json::string(self.notional_usd.as_str()));
        add_member(&mut list, "reason", Json::string(reason));
        add_member(&mut list, "settlement", self.settlement.to_json());
        proof {
            lemma_object_view(list);
            assert(member_views(list@) =~= receipt_json(*self)->Object_0);
        }
        Json::Object(list)
    }
}

impl Lease {
    /// The document of this lease, or why one of its times cannot be written.
    pub fn to_json(&self) -> (r: Result<Json, String>)
        ensures
            match (rfc3339(self.started_at.nanos()), opt_rfc3339(self.ended_at)) {
                (Err(reason), _) => r matches Err(e) && e@ == reason,
                (Ok(_), Err(reason)) => r matches Err(e) && e@ == reason,
                (Ok(started), Ok(ended)) => r matches Ok(json) && json@ == lease_json(
                    *self,
                    started,
                    ended,
                ),
            },
    {
        let started = match self.started_at.print_rfc3339() {
            Ok(text) => text,
            Err(reason) => {
                return Err(reason);
            },
        };
        let ended = match &self.ended_at {
            None => None,
            Some(time) => match time.print_rfc3339() {
                Ok(text) => Some(text),
                Err(reason) => {
                    return Err(reason);
                },
            },
        };
        Ok(self.to_json_at(started, ended))
    }

    /// The document of this lease, its times being written as `started` and
    /// `ended`.
    pub fn to_json_at(&self, started: String, ended: Option<String>) -> (r: Json)
        ensures
            r@ == lease_json(*self, started@, opt_string(ended)),
    {
        let state = match self.state {
            LeaseState::Live => "live",
            LeaseState::Ended => "ended",
        };
        let ghost written = lease_json(*self, started@, opt_string(ended));
        let mut list: Vec<(String, Json)> = Vec::new();
        add_member(&mut list, "id", Json::string(self.id.0.as_str()));
        add_member(&mut list, "state", Json::string(state));
        add_member(&mut list, "quote", self.quote.to_json());
        add_member(&mut list, "started_at", Json::Str(started));
        add_member(
            &mut list,
            "ended_at",
            match ended {
                Some(ended) => Json::Str(ended),
                None => Json::Null,
            },
        );
        if let Some(url) = &self.viewer_url {
            add_member(&mut list, "viewer_url", Json::string(url.as_str()));
        }
        proof {
            lemma_object_view(list);
            assert(member_views(list@) =~= written->Object_0);
        }
        Json::Object(list)
    }
}

} // verus!
