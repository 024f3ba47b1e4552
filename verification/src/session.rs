//! Lease, quote, and receipt types. The meter is occupancy seconds, not clicks.

use vstd::prelude::*;

use crate::clock::{held_seconds, Timestamp};
use crate::eligibility::GuestOs;
use crate::readings::are_drawn_digits;
use crate::text::concat;

verus! {

/// Default guest shape for v1 Linux isolated.
pub const DEFAULT_VCPU: u32 = 2;

/// Default guest memory.
pub const DEFAULT_MEM_GIB: u32 = 4;

/// Default guest boot disk.
pub const DEFAULT_DISK_GIB: u32 = 40;

/// Every lease meters at least this many seconds.
pub const DEFAULT_MIN_SECONDS: u64 = 60;

/// Notional USD/hour for the default shape. **Not charged in this repo.**
pub const DEFAULT_NOTIONAL_USD_PER_HOUR: &'static str = "0.048";

/// Reminder that stands on every quote and receipt.
pub const SETTLEMENT_NOTE: &'static str =
    "quoted, not charged. listings and settlement live in https://github.com/hexuria/berth-market";

/// What a quote or receipt is counting. Clicks are not a unit.
#[derive(Debug, Clone, Copy, PartialEq, Eq, Structural)]
pub enum OccupancyUnit {
    /// Wall-clock seconds the guest is held. Idle costs the same as busy.
    Seconds,
}

/// Tenancy. v1 leases are isolated guests. Host desktop is never a density.
#[derive(Debug, Clone, Copy, PartialEq, Eq, Structural)]
pub enum Density {
    /// One tenant, one guest. Default.
    Isolated,
}

/// Stable pointer: this crate quotes occupancy; it does not settle it.
#[derive(Debug, PartialEq, Eq)]
pub struct SettlementHint {
    /// Always false in berthos. Wallets and x402 live in berth-market.
    pub charged_here: bool,
    /// Human-readable reminder for operators and agents.
    pub note: String,
}

impl Clone for SettlementHint {
    fn clone(&self) -> (r: SettlementHint)
        ensures
            r == *self,
    {
        SettlementHint { charged_here: self.charged_here, note: self.note.clone() }
    }
}

/// The one hint that is ever issued: nothing is charged here.
pub open spec fn is_not_charged(hint: SettlementHint) -> bool {
    !hint.charged_here && hint.note@ == SETTLEMENT_NOTE@
}

impl SettlementHint {
    /// The only settlement hint this repo is allowed to emit.
    pub fn not_charged_here() -> (r: SettlementHint)
        ensures
            is_not_charged(r),
    {
        SettlementHint { charged_here: false, note: SETTLEMENT_NOTE.to_string() }
    }
}

/// Occupancy quote printed before a lease starts. Not an invoice.
#[derive(Debug, PartialEq, Eq)]
pub struct Quote {
    /// Requested vCPU. `0` is invalid (not unlimited).
    pub vcpu: u32,
    /// Requested memory in GiB. `0` is invalid.
    pub mem_gib: u32,
    /// Boot disk in GiB.
    pub disk_gib: u32,
    /// Guest OS. v1 accepts `linux` only.
    pub os: GuestOs,
    /// Isolated guest. Never the host desktop.
    pub density: Density,
    /// Minimum billed occupancy, in seconds.
    pub min_seconds: u64,
    /// Always [`OccupancyUnit::Seconds`].
    pub occupancy_unit: OccupancyUnit,
    /// Notional USD per hour for this shape. Informational.
    pub notional_usd_per_hour: String,
    /// Reminder that berthos does not take payment.
    pub settlement: SettlementHint,
}

impl Clone for Quote {
    fn clone(&self) -> (r: Quote)
        ensures
            r == *self,
    {
        Quote {
            vcpu: self.vcpu,
            mem_gib: self.mem_gib,
            disk_gib: self.disk_gib,
            os: self.os,
            density: self.density,
            min_seconds: self.min_seconds,
            occupancy_unit: self.occupancy_unit,
            notional_usd_per_hour: self.notional_usd_per_hour.clone(),
            settlement: self.settlement.clone(),
        }
    }
}

/// `quote` is the v1 Linux isolated quote for this shape.
pub open spec fn is_linux_isolated(quote: Quote, vcpu: u32, mem_gib: u32, disk_gib: u32) -> bool {
    &&& quote.vcpu == vcpu
    &&& quote.mem_gib == mem_gib
    &&& quote.disk_gib == disk_gib
    &&& quote.os == GuestOs::Linux
    &&& quote.density == Density::Isolated
    &&& quote.min_seconds == DEFAULT_MIN_SECONDS
    &&& quote.occupancy_unit == OccupancyUnit::Seconds
    &&& quote.notional_usd_per_hour@ == DEFAULT_NOTIONAL_USD_PER_HOUR@
    &&& is_not_charged(quote.settlement)
}

/// Why no quote can be issued for a shape, if none can: the first resource
/// that is zero, in the order vCPU, memory, disk.
pub open spec fn quote_refusal(vcpu: u32, mem_gib: u32, disk_gib: u32) -> Option<QuoteError> {
    if vcpu == 0 {
        Some(QuoteError::ZeroVcpu)
    } else if mem_gib == 0 {
        Some(QuoteError::ZeroMemory)
    } else if disk_gib == 0 {
        Some(QuoteError::ZeroDisk)
    } else {
        None
    }
}

/// Seconds billed for `seconds` of occupancy under a minimum.
pub open spec fn billed(seconds: u64, min_seconds: u64) -> u64 {
    if seconds >= min_seconds {
        seconds
    } else {
        min_seconds
    }
}

impl Quote {
    /// Build a v1 Linux isolated quote. Rejects zero resources.
    pub fn linux_isolated(vcpu: u32, mem_gib: u32, disk_gib: u32) -> (r: Result<Quote, QuoteError>)
        ensures
            match r {
                Ok(quote) => quote_refusal(vcpu, mem_gib, disk_gib) is None && is_linux_isolated(
                    quote,
                    vcpu,
                    mem_gib,
                    disk_gib,
                ),
                Err(e) => quote_refusal(vcpu, mem_gib, disk_gib) == Some(e),
            },
    {
        if vcpu == 0 {
            return Err(QuoteError::ZeroVcpu);
        }
        if mem_gib == 0 {
            return Err(QuoteError::ZeroMemory);
        }
        if disk_gib == 0 {
            return Err(QuoteError::ZeroDisk);
        }
        Ok(
            Quote {
                vcpu,
                mem_gib,
                disk_gib,
                os: GuestOs::Linux,
                density: Density::Isolated,
                min_seconds: DEFAULT_MIN_SECONDS,
                occupancy_unit: OccupancyUnit::Seconds,
                notional_usd_per_hour: DEFAULT_NOTIONAL_USD_PER_HOUR.to_string(),
                settlement: SettlementHint::not_charged_here(),
            },
        )
    }

    /// Seconds billed for `seconds` of occupancy, applying the minimum.
    pub fn billed_seconds(&self, seconds: u64) -> (r: u64)
        ensures
            r == billed(seconds, self.min_seconds),
    {
        if seconds >= self.min_seconds {
            seconds
        } else {
            self.min_seconds
        }
    }

    /// What the quote counts, as a word.
    pub fn occupancy_unit_label(&self) -> (r: &'static str)
        ensures
            r@ == "seconds"@,
    {
        "seconds"
    }
}

/// Why a quote cannot be issued.
#[derive(Debug, Clone, Copy, PartialEq, Eq, Structural)]
pub enum QuoteError {
    /// `vcpu=0` is rejected (not unlimited).
    ZeroVcpu,
    /// `mem_gib=0` is rejected.
    ZeroMemory,
    /// `disk_gib=0` is rejected.
    ZeroDisk,
}

/// Text of a quote error.
pub open spec fn quote_error_text(e: QuoteError) -> Seq<char> {
    match e {
        QuoteError::ZeroVcpu => "vcpu must be > 0 (0 is not unlimited)"@,
        QuoteError::ZeroMemory => "mem_gib must be > 0 (0 is not unlimited)"@,
        QuoteError::ZeroDisk => "disk_gib must be > 0"@,
    }
}

impl QuoteError {
    /// Human-readable reason.
    pub fn message(&self) -> (r: String)
        ensures
            r@ == quote_error_text(*self),
    {
        match self {
            QuoteError::ZeroVcpu => "vcpu must be > 0 (0 is not unlimited)".to_string(),
            QuoteError::ZeroMemory => "mem_gib must be > 0 (0 is not unlimited)".to_string(),
            QuoteError::ZeroDisk => "disk_gib must be > 0".to_string(),
        }
    }
}

/// Newtype lease identifier (`l_<uuid>`).
#[derive(Debug, PartialEq, Eq, Hash)]
pub struct LeaseId(pub String);

impl Clone for LeaseId {
    fn clone(&self) -> (r: LeaseId)
        ensures
            r == *self,
    {
        LeaseId(self.0.clone())
    }
}

/// A lower-case hexadecimal digit.
pub open spec fn is_hex_digit(c: char) -> bool {
    ('0' <= c && c <= '9') || ('a' <= c && c <= 'f')
}

/// Lower-case hexadecimal digits only.
pub open spec fn all_hex(s: Seq<char>) -> bool {
    forall|i: int| 0 <= i < s.len() ==> is_hex_digit(#[trigger] s[i])
}

/// A lease id as the node allocates them: `l_` and thirty-two hexadecimal
/// digits.
pub open spec fn is_allocated_id(id: Seq<char>) -> bool {
    exists|digits: Seq<char>| #[trigger]
        all_hex(digits) && digits.len() == 32 && id == "l_"@ + digits
}

/// The digits tell a random UUID: version 4, and the variant of RFC 9562.
pub open spec fn is_random_uuid(digits: Seq<char>) -> bool {
    digits[12] == '4' && (digits[16] == '8' || digits[16] == '9' || digits[16] == 'a'
        || digits[16] == 'b')
}

/// `Uuid::new_v4` printed by `simple`: thirty-two lower-case hexadecimal
/// digits, chosen at random but for the one that gives the version and the two
/// bits that give the variant.
#[verifier::external_body]
fn random_uuid_digits() -> (r: String)
    ensures
        r@.len() == 32,
        all_hex(r@),
        is_random_uuid(r@),
        are_drawn_digits(r@),
{
    uuid::Uuid::new_v4().simple().to_string()
}

impl LeaseId {
    /// Allocate a new lease id.
    pub fn generate() -> (r: LeaseId)
        ensures
            is_allocated_id(r.0@),
            is_random_uuid(r.0@.skip(2)),
            r.0@[14] == '4',
            are_drawn_digits(r.0@.skip(2)),
    {
        let digits = random_uuid_digits();
        proof {
            reveal_strlit("l_");
        }
        assert(("l_"@ + digits@).skip(2) =~= digits@);
        LeaseId::of_digits(digits.as_str())
    }

    /// The lease id with these digits.
    pub fn of_digits(digits: &str) -> (r: LeaseId)
        ensures
            r.0@ == "l_"@ + digits@,
    {
        LeaseId(concat("l_", digits))
    }
}

/// Lifecycle of a lease on this node.
#[derive(Debug, Clone, Copy, PartialEq, Eq, Structural)]
pub enum LeaseState {
    /// Guest is held for the tenant.
    Live,
    /// Guest was destroyed (v1 revert) and a receipt exists.
    Ended,
}

/// Why a lease ended.
#[derive(Debug, Clone, Copy, PartialEq, Eq, Structural)]
pub enum EndReason {
    /// Graceful end (`DELETE` / `berth` end). Occupancy is recorded.
    Graceful,
}

/// A computer-session lease. One live lease per node in v1.
#[derive(Debug, PartialEq, Eq)]
pub struct Lease {
    /// Lease id.
    pub id: LeaseId,
    /// Current state.
    pub state: LeaseState,
    /// Occupancy quote captured at create time.
    pub quote: Quote,
    /// When the guest was created.
    pub started_at: Timestamp,
    /// When the guest was destroyed, if ended.
    pub ended_at: Option<Timestamp>,
    /// Loopback-only guest view (noVNC or equivalent) for this live lease.
    /// Absent after the lease ends. Never a bind-all URL.
    pub viewer_url: Option<String>,
}

impl Clone for Lease {
    fn clone(&self) -> (r: Lease)
        ensures
            r == *self,
    {
        Lease {
            id: self.id.clone(),
            state: self.state,
            quote: self.quote.clone(),
            started_at: self.started_at,
            ended_at: self.ended_at,
            viewer_url: match &self.viewer_url {
                Some(url) => Some(url.clone()),
                None => None,
            },
        }
    }
}

/// Occupancy receipt. Seconds held, not clicks or agent actions.
#[derive(Debug, PartialEq, Eq)]
pub struct Receipt {
    /// Lease this receipt closes.
    pub lease_id: LeaseId,
    /// Wall-clock seconds the guest was held.
    pub occupancy_seconds: u64,
    /// Minimum occupancy applied by the quote.
    pub min_seconds: u64,
    /// `max(occupancy_seconds, min_seconds)`.
    pub billed_seconds: u64,
    /// Always [`OccupancyUnit::Seconds`].
    pub occupancy_unit: OccupancyUnit,
    /// Notional USD for `billed_seconds`. Not an invoice.
    pub notional_usd: String,
    /// How the lease ended.
    pub reason: EndReason,
    /// Reminder that this repo does not settle.
    pub settlement: SettlementHint,
}

/// `receipt` closes `lease` at `ended_at`.
pub open spec fn is_receipt_of(
    receipt: Receipt,
    lease: Lease,
    ended_at: Timestamp,
    reason: EndReason,
) -> bool {
    &&& receipt.lease_id == lease.id
    &&& receipt.occupancy_seconds == held_seconds(lease.started_at, ended_at)
    &&& receipt.min_seconds == lease.quote.min_seconds
    &&& receipt.billed_seconds == billed(receipt.occupancy_seconds, lease.quote.min_seconds)
    &&& receipt.occupancy_unit == OccupancyUnit::Seconds
    &&& receipt.reason == reason
    &&& is_not_charged(receipt.settlement)
}

impl Receipt {
    /// Close a live lease. Occupancy is wall time, never click count.
    /// `notional_usd` is the notional price of the billed seconds, which is
    /// only printed.
    pub fn from_lease(
        lease: &Lease,
        ended_at: Timestamp,
        reason: EndReason,
        notional_usd: String,
    ) -> (r: Receipt)
        ensures
            is_receipt_of(r, *lease, ended_at, reason),
            r.notional_usd == notional_usd,
    {
        let elapsed = lease.started_at.seconds_until(&ended_at);
        Receipt {
            lease_id: lease.id.clone(),
            occupancy_seconds: elapsed,
            min_seconds: lease.quote.min_seconds,
            billed_seconds: lease.quote.billed_seconds(elapsed),
            occupancy_unit: OccupancyUnit::Seconds,
            notional_usd,
            reason,
            settlement: SettlementHint::not_charged_here(),
        }
    }
}

/// A receipt never bills less than the occupancy nor less than the minimum,
/// and bills nothing beyond the larger of the two.
pub proof fn law_receipt_bills_the_larger(
    receipt: Receipt,
    lease: Lease,
    ended_at: Timestamp,
    reason: EndReason,
)
    requires
        is_receipt_of(receipt, lease, ended_at, reason),
    ensures
        receipt.billed_seconds >= receipt.occupancy_seconds,
        receipt.billed_seconds >= receipt.min_seconds,
        receipt.billed_seconds == receipt.occupancy_seconds || receipt.billed_seconds
            == receipt.min_seconds,
{
}

/// A lease on an issued quote bills at least the sixty-second minimum.
pub proof fn law_issued_quote_bills_a_minute(
    receipt: Receipt,
    lease: Lease,
    ended_at: Timestamp,
    reason: EndReason,
    vcpu: u32,
    mem_gib: u32,
    disk_gib: u32,
)
    requires
        is_linux_isolated(lease.quote, vcpu, mem_gib, disk_gib),
        is_receipt_of(receipt, lease, ended_at, reason),
    ensures
        receipt.billed_seconds >= 60,
{
}

/// Agent/operator request to hold a guest. Secrets must never appear here.
#[derive(Debug, Clone, Copy, PartialEq, Eq)]
pub struct CreateLeaseRequest {
    /// Guest OS. v1 accepts `linux` only.
    pub os: GuestOs,
    /// Optional vCPU override. Default 2. `0` is rejected.
    pub vcpu: Option<u32>,
    /// Optional memory override. Default 4. `0` is rejected.
    pub mem_gib: Option<u32>,
    /// Optional disk override. Default 40.
    pub disk_gib: Option<u32>,
}

/// A requested amount, or the default where nothing was asked for.
pub open spec fn or_default(asked: Option<u32>, default: u32) -> u32 {
    match asked {
        Some(n) => n,
        None => default,
    }
}

} // verus!
