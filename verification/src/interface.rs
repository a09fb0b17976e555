//! Per-interface packet counters.

use vstd::prelude::*;
use vstd::string::StringExecFns;

verus! {

/// Counters for one network interface: totals and per-verdict matches.
#[derive(Debug, Clone)]
pub struct InterfaceStats {
    pub name: String,
    pub total_packets: u64,
    pub matched_allow: u64,
    pub matched_deny: u64,
    pub matched_log: u64,
}

impl InterfaceStats {
    /// Fresh counters for the named interface.
    pub fn new(iface_name: String) -> (r: InterfaceStats)
        ensures
            r.name@ == iface_name@,
            r.total_packets == 0,
            r.matched_allow == 0,
            r.matched_deny == 0,
            r.matched_log == 0,
    {
        InterfaceStats {
            name: iface_name,
            total_packets: 0,
            matched_allow: 0,
            matched_deny: 0,
            matched_log: 0,
        }
    }

    /// Counts one more packet seen.
    pub fn add_total(&mut self)
        requires
            old(self).total_packets < u64::MAX,
        ensures
            final(self).total_packets == old(self).total_packets + 1,
            final(self).matched_allow == old(self).matched_allow,
            final(self).matched_deny == old(self).matched_deny,
            final(self).matched_log == old(self).matched_log,
            final(self).name == old(self).name,
    {
        self.total_packets = self.total_packets + 1;
    }

    /// Counts one more packet matched by the allow group.
    pub fn add_allow(&mut self)
        requires
            old(self).matched_allow < u64::MAX,
        ensures
            final(self).matched_allow == old(self).matched_allow + 1,
            final(self).total_packets == old(self).total_packets,
            final(self).matched_deny == old(self).matched_deny,
            final(self).matched_log == old(self).matched_log,
            final(self).name == old(self).name,
    {
        self.matched_allow = self.matched_allow + 1;
    }

    /// Counts one more packet matched by the deny group.
    pub fn add_deny(&mut self)
        requires
            old(self).matched_deny < u64::MAX,
        ensures
            final(self).matched_deny == old(self).matched_deny + 1,
            final(self).total_packets == old(self).total_packets,
            final(self).matched_allow == old(self).matched_allow,
            final(self).matched_log == old(self).matched_log,
            final(self).name == old(self).name,
    {
        self.matched_deny = self.matched_deny + 1;
    }

    /// Counts one more packet matched by the log group.
    pub fn add_log(&mut self)
        requires
            old(self).matched_log < u64::MAX,
        ensures
            final(self).matched_log == old(self).matched_log + 1,
            final(self).total_packets == old(self).total_packets,
            final(self).matched_allow == old(self).matched_allow,
            final(self).matched_deny == old(self).matched_deny,
            final(self).name == old(self).name,
    {
        self.matched_log = self.matched_log + 1;
    }

    /// The counters as display text.
    pub fn summary(&self) -> (r: String)
        ensures
            r@ == "Packets stats for "@ + self.name@ + ":\ntotal: "@ + crate::numfmt::spec_dec(
                self.total_packets as int,
            ) + "\nmatched allowed: "@ + crate::numfmt::spec_dec(self.matched_allow as int)
                + "\nmatched deny: "@ + crate::numfmt::spec_dec(self.matched_deny as int)
                + "\nmatched log: "@ + crate::numfmt::spec_dec(self.matched_log as int),
    {
        let mut out = String::from_str("Packets stats for ");
        out.append(self.name.as_str());
        out.append(":\ntotal: ");
        crate::numfmt::push_u64_dec(&mut out, self.total_packets);
        out.append("\nmatched allowed: ");
        crate::numfmt::push_u64_dec(&mut out, self.matched_allow);
        out.append("\nmatched deny: ");
        crate::numfmt::push_u64_dec(&mut out, self.matched_deny);
        out.append("\nmatched log: ");
        crate::numfmt::push_u64_dec(&mut out, self.matched_log);
        proof {
            assert(out@ =~= "Packets stats for "@ + self.name@ + ":\ntotal: "@
                + crate::numfmt::spec_dec(self.total_packets as int) + "\nmatched allowed: "@
                + crate::numfmt::spec_dec(self.matched_allow as int) + "\nmatched deny: "@
                + crate::numfmt::spec_dec(self.matched_deny as int) + "\nmatched log: "@
                + crate::numfmt::spec_dec(self.matched_log as int));
        }
        out
    }
}

} // verus!
