//! The packet classification engine: decodes the L3 header of each queued
//! packet, appends an audit log entry, and resolves a verdict.
//!
//! The interception loop itself is the caller's: it polls the shutdown
//! signal, receives one queued message at a time, hands the reported
//! protocol and payload to `handle_message`, and must issue the returned
//! verdict back to the interception point before the next receive. On
//! shutdown it flushes the log to file. A malformed packet never stops the
//! loop: it is skipped in the log and the configured default verdict is
//! issued for it.

use vstd::prelude::*;
use crate::logging::Log;
use crate::rules::{FirewallAction, IpAddress, RuleSet, RuleSetView};

verus! {

/// The reported link protocol of an IPv4 packet.
pub const ETHERTYPE_IPV4: u16 = 0x0800;

/// The reported link protocol of an IPv6 packet.
pub const ETHERTYPE_IPV6: u16 = 0x86DD;

/// The shortest well-formed IPv4 header.
pub const IPV4_MIN_LEN: usize = 20;

/// The shortest well-formed IPv6 header.
pub const IPV6_MIN_LEN: usize = 40;

/// The big-endian value of `n` bytes starting at `off`.
pub open spec fn be_val(s: Seq<u8>, off: int, n: nat) -> int
    decreases n,
{
    if n == 0 {
        0
    } else {
        be_val(s, off, (n - 1) as nat) * 256 + s[off + n - 1]
    }
}

/// The source address an IPv4 header carries, at bytes 12 to 15.
pub open spec fn spec_ipv4_source(s: Seq<u8>) -> IpAddress {
    IpAddress::V4(be_val(s, 12, 4) as u32)
}

/// The destination address an IPv4 header carries, at bytes 16 to 19.
pub open spec fn spec_ipv4_destination(s: Seq<u8>) -> IpAddress {
    IpAddress::V4(be_val(s, 16, 4) as u32)
}

/// The source address an IPv6 header carries, at bytes 8 to 23.
pub open spec fn spec_ipv6_source(s: Seq<u8>) -> IpAddress {
    IpAddress::V6(be_val(s, 8, 16) as u128)
}

/// The destination address an IPv6 header carries, at bytes 24 to 39.
pub open spec fn spec_ipv6_destination(s: Seq<u8>) -> IpAddress {
    IpAddress::V6(be_val(s, 24, 16) as u128)
}

/// Reads four bytes big-endian.
fn read_be32(payload: &Vec<u8>, off: usize) -> (r: u32)
    requires
        off + 4 <= payload@.len(),
    ensures
        r as int == be_val(payload@, off as int, 4),
{
    let n = payload.len();
    assert(off + 4 <= n);
    let b0 = payload[off] as u32;
    let b1 = payload[off + 1] as u32;
    let b2 = payload[off + 2] as u32;
    let b3 = payload[off + 3] as u32;
    let r = b0 * 0x1000000 + b1 * 0x10000 + b2 * 0x100 + b3;
    proof {
        reveal_with_fuel(be_val, 5);
    }
    r
}

/// Reads sixteen bytes big-endian.
fn read_be128(payload: &Vec<u8>, off: usize) -> (r: u128)
    requires
        off + 16 <= payload@.len(),
    ensures
        r as int == be_val(payload@, off as int, 16),
{
    let n = payload.len();
    assert(off + 16 <= n);
    let r: u128 = (payload[off] as u128) * 0x1_00_0000_0000_0000_0000_0000_0000_0000
        + (payload[off + 1] as u128) * 0x1_0000_0000_0000_0000_0000_0000_0000
        + (payload[off + 2] as u128) * 0x1_00_0000_0000_0000_0000_0000_0000
        + (payload[off + 3] as u128) * 0x1_0000_0000_0000_0000_0000_0000
        + (payload[off + 4] as u128) * 0x1_00_0000_0000_0000_0000_0000
        + (payload[off + 5] as u128) * 0x1_0000_0000_0000_0000_0000
        + (payload[off + 6] as u128) * 0x1_00_0000_0000_0000_0000
        + (payload[off + 7] as u128) * 0x1_0000_0000_0000_0000
        + (payload[off + 8] as u128) * 0x1_00_0000_0000_0000
        + (payload[off + 9] as u128) * 0x1_0000_0000_0000
        + (payload[off + 10] as u128) * 0x1_00_0000_0000
        + (payload[off + 11] as u128) * 0x1_0000_0000
        + (payload[off + 12] as u128) * 0x1_00_0000
        + (payload[off + 13] as u128) * 0x1_0000
        + (payload[off + 14] as u128) * 0x1_00
        + (payload[off + 15] as u128);
    proof {
        reveal_with_fuel(be_val, 17);
    }
    r
}

/// A big-endian value of `n` bytes is below two to the `8 n`.
proof fn lemma_be_val_bound(s: Seq<u8>, off: int, n: nat)
    requires
        off >= 0,
        off + n <= s.len(),
    ensures
        0 <= be_val(s, off, n),
        be_val(s, off, n) < pow256(n),
    decreases n,
{
    if n > 0 {
        lemma_be_val_bound(s, off, (n - 1) as nat);
        assert(be_val(s, off, n) == be_val(s, off, (n - 1) as nat) * 256 + s[off + n - 1]);
        assert(be_val(s, off, (n - 1) as nat) * 256 + 255 < pow256((n - 1) as nat) * 256) by (
        nonlinear_arith)
            requires
                be_val(s, off, (n - 1) as nat) < pow256((n - 1) as nat),
        ;
    }
}

/// Two to the `8 n`.
pub open spec fn pow256(n: nat) -> int
    decreases n,
{
    if n == 0 {
        1
    } else {
        256 * pow256((n - 1) as nat)
    }
}

/// Parses an IPv4 header: the source and destination addresses, if the
/// payload is long enough to hold the fixed header.
pub fn parse_ipv4(payload: &Vec<u8>) -> (r: Option<(IpAddress, IpAddress)>)
    ensures
        r is Some <==> payload@.len() >= IPV4_MIN_LEN,
        r is Some ==> (r->0).0 == spec_ipv4_source(payload@),
        r is Some ==> (r->0).1 == spec_ipv4_destination(payload@),
{
    if payload.len() < IPV4_MIN_LEN {
        return None;
    }
    let src = read_be32(payload, 12);
    let dst = read_be32(payload, 16);
    proof {
        lemma_be_val_bound(payload@, 12, 4);
        lemma_be_val_bound(payload@, 16, 4);
        reveal_with_fuel(pow256, 5);
    }
    Some((IpAddress::V4(src), IpAddress::V4(dst)))
}

/// Parses an IPv6 header: the source and destination addresses, if the
/// payload is long enough to hold the fixed header.
pub fn parse_ipv6(payload: &Vec<u8>) -> (r: Option<(IpAddress, IpAddress)>)
    ensures
        r is Some <==> payload@.len() >= IPV6_MIN_LEN,
        r is Some ==> (r->0).0 == spec_ipv6_source(payload@),
        r is Some ==> (r->0).1 == spec_ipv6_destination(payload@),
{
    if payload.len() < IPV6_MIN_LEN {
        return None;
    }
    let src = read_be128(payload, 8);
    let dst = read_be128(payload, 24);
    proof {
        lemma_be_val_bound(payload@, 8, 16);
        lemma_be_val_bound(payload@, 24, 16);
        reveal_with_fuel(pow256, 17);
    }
    Some((IpAddress::V6(src), IpAddress::V6(dst)))
}

/// Which verdict a packet with these addresses receives: the allow group
/// is consulted first, then deny, then log, each on the source or the
/// destination; when none matches, the configured default stands.
pub open spec fn spec_classify(
    rs: RuleSetView,
    src: IpAddress,
    dst: IpAddress,
    default: FirewallAction,
) -> FirewallAction {
    if rs.allow.spec_contains_addr(src) || rs.allow.spec_contains_addr(dst) {
        FirewallAction::Allow
    } else if rs.deny.spec_contains_addr(src) || rs.deny.spec_contains_addr(dst) {
        FirewallAction::Deny
    } else if rs.log.spec_contains_addr(src) || rs.log.spec_contains_addr(dst) {
        FirewallAction::Log
    } else {
        default
    }
}

/// Relies on chrono::Utc::now and its display form: the current wall-clock
/// time as text; nothing is promised of which instant. The call aborts on
/// a system clock before the Unix epoch or outside chrono's representable
/// range: a machine condition, like allocation failure, that no condition
/// over inputs can exclude.
#[verifier::external_body]
fn utc_now_text() -> (r: String) {
    chrono::Utc::now().to_string()
}

/// The engine: the active rule set, the audit log, and the verdict for
/// packets no group matches.
#[derive(Debug)]
pub struct FirewallEngine {
    pub rules: RuleSet,
    pub log: Log,
    pub default_action: FirewallAction,
}

impl FirewallEngine {
    /// The log is coherent and can take another entry.
    pub open spec fn wf(self) -> bool {
        self.log.wf()
    }

    /// A fresh engine over the given rule set: empty log, ids from one.
    pub fn new(rules: RuleSet, default_action: FirewallAction) -> (r: FirewallEngine)
        ensures
            r.wf(),
            r.rules == rules,
            r.default_action == default_action,
            r.log.entries@.len() == 0,
            r.log.next_id == 1,
    {
        FirewallEngine { rules, log: Log::new(), default_action }
    }

    /// Resolves the verdict for one packet's addresses.
    pub fn classify(&self, src: &IpAddress, dst: &IpAddress) -> (r: FirewallAction)
        ensures
            r == spec_classify(self.rules@, *src, *dst, self.default_action),
    {
        if self.rules.matches_allow(src) || self.rules.matches_allow(dst) {
            FirewallAction::Allow
        } else if self.rules.matches_deny(src) || self.rules.matches_deny(dst) {
            FirewallAction::Deny
        } else if self.rules.matches_log(src) || self.rules.matches_log(dst) {
            FirewallAction::Log
        } else {
            self.default_action
        }
    }

    /// Logs one decoded IPv4 packet and resolves its verdict. The second
    /// part of the result asks the caller to flush the log to file.
    pub fn handle_ipv4(&mut self, source: IpAddress, destination: IpAddress) -> (r: (
        FirewallAction,
        bool,
    ))
        requires
            old(self).wf(),
            old(self).log.next_id < u64::MAX,
        ensures
            final(self).wf(),
            final(self).rules == old(self).rules,
            final(self).default_action == old(self).default_action,
            final(self).log.entries@.len() == old(self).log.entries@.len() + 1,
            final(self).log.entries@.drop_last() == old(self).log.entries@,
            final(self).log.entries@.last()@.id == old(self).log.next_id,
            final(self).log.entries@.last()@.protocol == "IPv4"@,
            final(self).log.entries@.last()@.source == source,
            final(self).log.entries@.last()@.destination == destination,
            final(self).log.next_id == old(self).log.next_id + 1,
            r.0 == spec_classify(old(self).rules@, source, destination, old(self).default_action),
            r.1 == (final(self).log.entries@.len() > crate::logging::FLUSH_THRESHOLD as int),
    {
        let now = utc_now_text();
        let (_entry, due) = self.log.add("IPv4", source, destination, now);
        let verdict = self.classify(&source, &destination);
        (verdict, due)
    }

    /// Logs one decoded IPv6 packet and resolves its verdict.
    pub fn handle_ipv6(&mut self, source: IpAddress, destination: IpAddress) -> (r: (
        FirewallAction,
        bool,
    ))
        requires
            old(self).wf(),
            old(self).log.next_id < u64::MAX,
        ensures
            final(self).wf(),
            final(self).rules == old(self).rules,
            final(self).default_action == old(self).default_action,
            final(self).log.entries@.len() == old(self).log.entries@.len() + 1,
            final(self).log.entries@.drop_last() == old(self).log.entries@,
            final(self).log.entries@.last()@.id == old(self).log.next_id,
            final(self).log.entries@.last()@.protocol == "IPv6"@,
            final(self).log.entries@.last()@.source == source,
            final(self).log.entries@.last()@.destination == destination,
            final(self).log.next_id == old(self).log.next_id + 1,
            r.0 == spec_classify(old(self).rules@, source, destination, old(self).default_action),
            r.1 == (final(self).log.entries@.len() > crate::logging::FLUSH_THRESHOLD as int),
    {
        let now = utc_now_text();
        let (_entry, due) = self.log.add("IPv6", source, destination, now);
        let verdict = self.classify(&source, &destination);
        (verdict, due)
    }

    /// A packet of a link protocol outside the known set: nothing is
    /// logged, and the default verdict stands.
    pub fn handle_other(&self) -> (r: FirewallAction)
        ensures
            r == self.default_action,
    {
        self.default_action
    }

    /// One loop step: decodes the packet by its reported link protocol,
    /// logs it, and resolves exactly one verdict for it. A packet too
    /// short for its header, or of an unknown protocol, is skipped in the
    /// log and receives the default verdict.
    pub fn handle_message(&mut self, hw_protocol: u16, payload: &Vec<u8>) -> (r: (
        FirewallAction,
        bool,
    ))
        requires
            old(self).wf(),
            old(self).log.next_id < u64::MAX,
        ensures
            final(self).wf(),
            final(self).rules == old(self).rules,
            final(self).default_action == old(self).default_action,
            hw_protocol == ETHERTYPE_IPV4 && payload@.len() >= IPV4_MIN_LEN ==> {
                &&& final(self).log.entries@.len() == old(self).log.entries@.len() + 1
                &&& final(self).log.entries@.last()@.protocol == "IPv4"@
                &&& final(self).log.entries@.last()@.source == spec_ipv4_source(payload@)
                &&& final(self).log.entries@.last()@.destination == spec_ipv4_destination(payload@)
                &&& r.0 == spec_classify(
                    old(self).rules@,
                    spec_ipv4_source(payload@),
                    spec_ipv4_destination(payload@),
                    old(self).default_action,
                )
                &&& r.1 == (final(self).log.entries@.len() > crate::logging::FLUSH_THRESHOLD as int)
            },
            hw_protocol == ETHERTYPE_IPV6 && payload@.len() >= IPV6_MIN_LEN ==> {
                &&& final(self).log.entries@.len() == old(self).log.entries@.len() + 1
                &&& final(self).log.entries@.last()@.protocol == "IPv6"@
                &&& final(self).log.entries@.last()@.source == spec_ipv6_source(payload@)
                &&& final(self).log.entries@.last()@.destination == spec_ipv6_destination(payload@)
                &&& r.0 == spec_classify(
                    old(self).rules@,
                    spec_ipv6_source(payload@),
                    spec_ipv6_destination(payload@),
                    old(self).default_action,
                )
                &&& r.1 == (final(self).log.entries@.len() > crate::logging::FLUSH_THRESHOLD as int)
            },
            (hw_protocol == ETHERTYPE_IPV4 && payload@.len() < IPV4_MIN_LEN) || (hw_protocol
                == ETHERTYPE_IPV6 && payload@.len() < IPV6_MIN_LEN) || (hw_protocol
                != ETHERTYPE_IPV4 && hw_protocol != ETHERTYPE_IPV6) ==> {
                &&& final(self).log == old(self).log
                &&& r.0 == old(self).default_action
                &&& !r.1
            },
    {
        if hw_protocol == ETHERTYPE_IPV4 {
            match parse_ipv4(payload) {
                Some((src, dst)) => self.handle_ipv4(src, dst),
                None => (self.default_action, false),
            }
        } else if hw_protocol == ETHERTYPE_IPV6 {
            match parse_ipv6(payload) {
                Some((src, dst)) => self.handle_ipv6(src, dst),
                None => (self.default_action, false),
            }
        } else {
            (self.handle_other(), false)
        }
    }
}

} // verus!
