//! The probe record: identity, timing, lifecycle status and response
//! classification for one echo request/response exchange.
//!
//! A `Probe` is a plain immutable value. The scheduler constructs one at send
//! time, and the response matcher later derives an updated copy through the
//! `with_*` transformations; there is no in-place mutation.

use vstd::arithmetic::div_mod::lemma_mod_multiples_vanish;
use vstd::prelude::*;

verus! {

/// Globally unique, monotonically assigned ordinal identifying a probe
/// across all rounds and TTLs. Indices never reset during a run, so they
/// may exceed the 16-bit wire sequence space; see `sequence_of_index`.
#[derive(Debug, Clone, Copy, PartialEq, Eq, Structural)]
pub struct Index(pub usize);

/// The IP-layer time-to-live value the probe was sent with, identifying
/// which network hop the probe targets.
#[derive(Debug, Clone, Copy, PartialEq, Eq, Structural)]
pub struct TimeToLive(pub u8);

/// The sweep (generation) of probing the probe belongs to.
#[derive(Debug, Clone, Copy, PartialEq, Eq, Structural)]
pub struct Round(pub usize);

/// A point in time, measured as nanoseconds since a fixed epoch chosen by
/// the surrounding system's clock.
#[derive(Debug, Clone, Copy, PartialEq, Eq, Structural)]
pub struct Timestamp(pub u64);

/// An IP address that responded to a probe, held as the numeric form of
/// either address family.
#[derive(Debug, Clone, Copy, PartialEq, Eq, Structural)]
pub enum HostAddr {
    V4(u32),
    V6(u128),
}

/// The lifecycle state of a probe for a single TTL.
///
/// A record starts `NotSent` (the default, sentinel state), becomes
/// `Awaited` through `Probe::new` when a packet is sent, and `Complete`
/// when a matching response arrives. A probe that times out simply stays
/// `Awaited`; no state records the timeout.
#[derive(Debug, Clone, Copy, PartialEq, Eq, Structural)]
pub enum ProbeStatus {
    /// The probe has not been sent.
    NotSent,
    /// The probe has been sent and the response is awaited.
    Awaited,
    /// The probe has been sent and a response (`EchoReply`, `Unreachable`
    /// or `TimeExceeded`) has been received.
    Complete,
}

impl Default for ProbeStatus {
    /// The initial lifecycle state of a never-sent record.
    fn default() -> (result: Self)
        ensures
            result == ProbeStatus::NotSent,
    {
        ProbeStatus::NotSent
    }
}

/// The classification of the ICMP message that completed a probe. The
/// mapping from raw ICMP type/code numbers to this enum is owned by the
/// packet decoder; this record only stores the already-classified result.
#[derive(Debug, Clone, Copy, PartialEq, Eq, Structural)]
pub enum IcmpPacketType {
    /// An intermediate hop signalled TTL expiry: the expected, common case
    /// while the path is still being discovered.
    TimeExceeded,
    /// The final destination answered directly.
    EchoReply,
    /// A hop or the destination reported the target unreachable.
    Unreachable,
}

/// The wire sequence number a probe index maps to: the index reduced
/// modulo the 16-bit sequence space. Both the send path and the
/// receive-matching path apply this identical reduction, so wraparound is
/// deterministic on both sides.
pub open spec fn sequence_of_index(index: usize) -> int {
    index as int % 65536
}

/// Reduces an ever-increasing probe index to the 16-bit wire sequence
/// space by taking it modulo 65536.
pub fn rem_u16max(value: usize) -> (result: u16)
    ensures
        result as int == sequence_of_index(value),
{
    (value % 65536) as u16
}

/// Sequence derivation is exactly periodic: two indices that differ by a
/// whole number of 16-bit sequence spaces map to the same wire sequence
/// number, so wraparound collisions across very long runs are expected and
/// must be disambiguated by round/TTL context, not by sequence alone.
pub proof fn lemma_sequence_periodic(i: usize, j: usize, k: nat)
    requires
        j as int == i as int + 65536 * k,
    ensures
        sequence_of_index(j) == sequence_of_index(i),
{
    lemma_mod_multiples_vanish(k as int, i as int, 65536);
}

/// The state of an ICMP echo request/response exchange for a specific TTL
/// within a specific round.
///
/// `host`, `received` and `icmp_packet_type` are absent until a response is
/// matched, and are never cleared once set: responses are append-only
/// facts. `sent` is set at construction and never cleared; only a
/// default-constructed sentinel record has `sent == None`.
#[derive(Debug, Clone, Copy, PartialEq, Eq)]
pub struct Probe {
    /// The unique index of the probe: the sole correlation key between an
    /// outbound request and its eventual reply.
    pub index: Index,
    /// The TTL of the probe.
    pub ttl: TimeToLive,
    /// Which round the probe belongs to.
    pub round: Round,
    /// Timestamp when the probe was sent.
    pub sent: Option<Timestamp>,
    /// The status of the probe.
    pub status: ProbeStatus,
    /// The host which responded to the probe.
    pub host: Option<HostAddr>,
    /// Timestamp when the response to the probe was received.
    pub received: Option<Timestamp>,
    /// The type of ICMP response packet received for the probe.
    pub icmp_packet_type: Option<IcmpPacketType>,
}

impl Probe {
    /// Constructs a freshly sent probe: status forced to `Awaited`, the
    /// send timestamp recorded, and every response field absent.
    pub fn new(index: Index, ttl: TimeToLive, round: Round, sent: Timestamp) -> (result: Self)
        ensures
            result.index == index,
            result.ttl == ttl,
            result.round == round,
            result.sent == Some(sent),
            result.status == ProbeStatus::Awaited,
            result.host is None,
            result.received is None,
            result.icmp_packet_type is None,
    {
        Self {
            index,
            ttl,
            round,
            sent: Some(sent),
            status: ProbeStatus::Awaited,
            host: None,
            received: None,
            icmp_packet_type: None,
        }
    }

    /// The wire sequence number for the probe: its index modulo 65536.
    pub open spec fn spec_sequence(self) -> int {
        sequence_of_index(self.index.0)
    }

    /// The sequence number placed in the outbound echo request, derived
    /// from the probe's index by the same reduction the reply matcher
    /// applies.
    pub fn sequence(&self) -> (result: u16)
        ensures
            result as int == self.spec_sequence(),
    {
        rem_u16max(self.index.0)
    }

    /// The record with only `status` replaced.
    pub open spec fn spec_with_status(self, status: ProbeStatus) -> Self {
        Self { status, ..self }
    }

    /// Returns a copy with only `status` replaced; every other field is
    /// carried forward unchanged. No validation is performed: callers are
    /// responsible for transition legality.
    pub fn with_status(self, status: ProbeStatus) -> (result: Self)
        ensures
            result == self.spec_with_status(status),
    {
        Self { status, ..self }
    }

    /// The record with only `icmp_packet_type` set.
    pub open spec fn spec_with_icmp_packet_type(self, icmp_packet_type: IcmpPacketType) -> Self {
        Self { icmp_packet_type: Some(icmp_packet_type), ..self }
    }

    /// Returns a copy with only `icmp_packet_type` set to the given
    /// classification; every other field is carried forward unchanged.
    pub fn with_icmp_packet_type(self, icmp_packet_type: IcmpPacketType) -> (result: Self)
        ensures
            result == self.spec_with_icmp_packet_type(icmp_packet_type),
    {
        Self { icmp_packet_type: Some(icmp_packet_type), ..self }
    }

    /// The record with only `host` set.
    pub open spec fn spec_with_host(self, host: HostAddr) -> Self {
        Self { host: Some(host), ..self }
    }

    /// Returns a copy with only `host` set to the responding address;
    /// every other field is carried forward unchanged.
    pub fn with_host(self, host: HostAddr) -> (result: Self)
        ensures
            result == self.spec_with_host(host),
    {
        Self { host: Some(host), ..self }
    }

    /// The record with only `received` set.
    pub open spec fn spec_with_received(self, received: Timestamp) -> Self {
        Self { received: Some(received), ..self }
    }

    /// Returns a copy with only `received` set to the response arrival
    /// timestamp; every other field is carried forward unchanged.
    pub fn with_received(self, received: Timestamp) -> (result: Self)
        ensures
            result == self.spec_with_received(received),
    {
        Self { received: Some(received), ..self }
    }
}

/// Replacing the status is idempotent: applying the same status twice in
/// sequence yields exactly the record that applying it once yields.
pub proof fn lemma_with_status_idempotent(p: Probe, status: ProbeStatus)
    ensures
        p.spec_with_status(status).spec_with_status(status) == p.spec_with_status(status),
{
}

impl Default for Probe {
    /// The sentinel record standing for "no probe issued for this
    /// TTL/round yet": never sent, status `NotSent`, every optional field
    /// absent.
    fn default() -> (result: Self)
        ensures
            result.index == Index(0),
            result.ttl == TimeToLive(0),
            result.round == Round(0),
            result.sent is None,
            result.status == ProbeStatus::NotSent,
            result.host is None,
            result.received is None,
            result.icmp_packet_type is None,
    {
        Self {
            index: Index(0),
            ttl: TimeToLive(0),
            round: Round(0),
            sent: None,
            status: ProbeStatus::NotSent,
            host: None,
            received: None,
            icmp_packet_type: None,
        }
    }
}

} // verus!
