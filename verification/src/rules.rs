//! The rule model: addresses, networks, ports, and the three named rule
//! groups (allow, deny, log) that the policy compiler consumes.
//!
//! A `Rule` holds six independent criterion sets. The sets are independently
//! sufficient, not conjunctive: a packet matching any populated criterion
//! triggers the rule's verdict, and an empty set means "no criterion of this
//! kind", never "match all".

use vstd::prelude::*;

verus! {

/// The verdict a matched rule group stands for.
#[derive(Debug, Clone, Copy, PartialEq, Eq, Structural)]
pub enum FirewallAction {
    Allow,
    Deny,
    Log,
}

/// An IPv4 or IPv6 host address, held as its big-endian numeric value.
#[derive(Debug, Clone, Copy, PartialEq, Eq, Structural)]
pub enum IpAddress {
    V4(u32),
    V6(u128),
}

/// An address plus prefix length (CIDR).
#[derive(Debug, Clone, Copy, PartialEq, Eq, Structural)]
pub struct IpNet {
    pub addr: IpAddress,
    pub prefix: u8,
}

impl IpNet {
    /// The prefix length fits the address family.
    pub open spec fn wf(self) -> bool {
        match self.addr {
            IpAddress::V4(_) => self.prefix <= 32,
            IpAddress::V6(_) => self.prefix <= 128,
        }
    }
}

/// One group of criteria: six independent sets, each sufficient on its own.
#[derive(Debug, Clone)]
pub struct Rule {
    pub sources: Vec<IpAddress>,
    pub destinations: Vec<IpAddress>,
    pub source_networks: Vec<IpNet>,
    pub destination_networks: Vec<IpNet>,
    pub dports: Vec<u16>,
    pub sports: Vec<u16>,
}

/// The spec view of a rule group.
pub struct RuleView {
    pub sources: Seq<IpAddress>,
    pub destinations: Seq<IpAddress>,
    pub source_networks: Seq<IpNet>,
    pub destination_networks: Seq<IpNet>,
    pub dports: Seq<u16>,
    pub sports: Seq<u16>,
}

impl View for Rule {
    type V = RuleView;

    open spec fn view(&self) -> RuleView {
        RuleView {
            sources: self.sources@,
            destinations: self.destinations@,
            source_networks: self.source_networks@,
            destination_networks: self.destination_networks@,
            dports: self.dports@,
            sports: self.sports@,
        }
    }
}

/// No element occurs twice: the six criterion collections model sets.
pub open spec fn distinct_seq<T>(s: Seq<T>) -> bool {
    forall|i: int, j: int| 0 <= i < j < s.len() ==> s[i] != s[j]
}

impl RuleView {
    /// All six criterion sets are empty.
    pub open spec fn is_empty(self) -> bool {
        &&& self.sources.len() == 0
        &&& self.destinations.len() == 0
        &&& self.source_networks.len() == 0
        &&& self.destination_networks.len() == 0
        &&& self.dports.len() == 0
        &&& self.sports.len() == 0
    }

    /// The address is listed as a source or as a destination.
    pub open spec fn spec_contains_addr(self, address: IpAddress) -> bool {
        self.sources.contains(address) || self.destinations.contains(address)
    }

    /// The six collections are true sets, each element listed once, and
    /// every network carries a prefix that fits its family.
    pub open spec fn wf(self) -> bool {
        &&& distinct_seq(self.sources)
        &&& distinct_seq(self.destinations)
        &&& distinct_seq(self.source_networks)
        &&& distinct_seq(self.destination_networks)
        &&& distinct_seq(self.dports)
        &&& distinct_seq(self.sports)
        &&& forall|i: int| 0 <= i < self.source_networks.len() ==> (#[trigger] self.source_networks[i]).wf()
        &&& forall|i: int| 0 <= i < self.destination_networks.len() ==> (#[trigger] self.destination_networks[i]).wf()
    }
}

impl Rule {
    /// A rule group with all six sets empty.
    pub fn empty() -> (r: Rule)
        ensures
            r@.is_empty(),
    {
        Rule {
            sources: Vec::new(),
            destinations: Vec::new(),
            source_networks: Vec::new(),
            destination_networks: Vec::new(),
            dports: Vec::new(),
            sports: Vec::new(),
        }
    }

    /// Whether `address` is one of this group's listed sources or destinations.
    pub fn contains_addr(&self, address: &IpAddress) -> (r: bool)
        ensures
            r == self@.spec_contains_addr(*address),
    {
        contains_address(&self.sources, address) || contains_address(&self.destinations, address)
    }

    /// Whether this group is well formed: no element listed twice, every
    /// network prefix within its family's range.
    pub fn is_wf(&self) -> (r: bool)
        ensures
            r == self@.wf(),
    {
        distinct_addresses(&self.sources) && distinct_addresses(&self.destinations)
            && distinct_networks(&self.source_networks) && distinct_networks(
            &self.destination_networks,
        ) && distinct_ports(&self.dports) && distinct_ports(&self.sports) && networks_fit(
            &self.source_networks,
        ) && networks_fit(&self.destination_networks)
    }
}

/// Whether no address occurs twice.
fn distinct_addresses(list: &Vec<IpAddress>) -> (r: bool)
    ensures
        r == distinct_seq(list@),
{
    let mut i: usize = 0;
    while i < list.len()
        invariant
            i <= list@.len(),
            forall|a: int, b: int| 0 <= a < b < list@.len() && a < i ==> list@[a] != list@[b],
        decreases list@.len() - i,
    {
        let mut j: usize = i + 1;
        while j < list.len()
            invariant
                i < j,
                j <= list@.len(),
                i < list@.len(),
                forall|b: int| i < b < j ==> list@[i as int] != list@[b],
            decreases list@.len() - j,
        {
            if list[i] == list[j] {
                return false;
            }
            j += 1;
        }
        i += 1;
    }
    true
}

/// Whether no network occurs twice.
fn distinct_networks(list: &Vec<IpNet>) -> (r: bool)
    ensures
        r == distinct_seq(list@),
{
    let mut i: usize = 0;
    while i < list.len()
        invariant
            i <= list@.len(),
            forall|a: int, b: int| 0 <= a < b < list@.len() && a < i ==> list@[a] != list@[b],
        decreases list@.len() - i,
    {
        let mut j: usize = i + 1;
        while j < list.len()
            invariant
                i < j,
                j <= list@.len(),
                i < list@.len(),
                forall|b: int| i < b < j ==> list@[i as int] != list@[b],
            decreases list@.len() - j,
        {
            if list[i] == list[j] {
                return false;
            }
            j += 1;
        }
        i += 1;
    }
    true
}

/// Whether no port occurs twice.
fn distinct_ports(list: &Vec<u16>) -> (r: bool)
    ensures
        r == distinct_seq(list@),
{
    let mut i: usize = 0;
    while i < list.len()
        invariant
            i <= list@.len(),
            forall|a: int, b: int| 0 <= a < b < list@.len() && a < i ==> list@[a] != list@[b],
        decreases list@.len() - i,
    {
        let mut j: usize = i + 1;
        while j < list.len()
            invariant
                i < j,
                j <= list@.len(),
                i < list@.len(),
                forall|b: int| i < b < j ==> list@[i as int] != list@[b],
            decreases list@.len() - j,
        {
            if list[i] == list[j] {
                return false;
            }
            j += 1;
        }
        i += 1;
    }
    true
}

/// Whether every network's prefix fits its address family.
fn networks_fit(list: &Vec<IpNet>) -> (r: bool)
    ensures
        r == forall|i: int| 0 <= i < list@.len() ==> (#[trigger] list@[i]).wf(),
{
    let mut i: usize = 0;
    while i < list.len()
        invariant
            i <= list@.len(),
            forall|j: int| 0 <= j < i ==> (#[trigger] list@[j]).wf(),
        decreases list@.len() - i,
    {
        let fits = match list[i].addr {
            IpAddress::V4(_) => list[i].prefix <= 32,
            IpAddress::V6(_) => list[i].prefix <= 128,
        };
        if !fits {
            return false;
        }
        i += 1;
    }
    true
}

/// Whether the vector holds the given address.
fn contains_address(list: &Vec<IpAddress>, address: &IpAddress) -> (r: bool)
    ensures
        r == list@.contains(*address),
{
    let mut i: usize = 0;
    while i < list.len()
        invariant
            i <= list@.len(),
            forall|j: int| 0 <= j < i ==> list@[j] != *address,
        decreases list@.len() - i,
    {
        if list[i] == *address {
            return true;
        }
        i += 1;
    }
    false
}

/// The three named rule groups, each compiled to its own kernel chain.
#[derive(Debug, Clone)]
pub struct RuleSet {
    pub allow: Rule,
    pub deny: Rule,
    pub log: Rule,
}

/// The spec view of a rule set.
pub struct RuleSetView {
    pub allow: RuleView,
    pub deny: RuleView,
    pub log: RuleView,
}

impl View for RuleSet {
    type V = RuleSetView;

    open spec fn view(&self) -> RuleSetView {
        RuleSetView { allow: self.allow@, deny: self.deny@, log: self.log@ }
    }
}

impl RuleSetView {
    pub open spec fn wf(self) -> bool {
        self.allow.wf() && self.deny.wf() && self.log.wf()
    }
}

impl RuleSet {
    /// A rule set with every criterion set empty.
    pub fn empty() -> (r: RuleSet)
        ensures
            r@.allow.is_empty(),
            r@.deny.is_empty(),
            r@.log.is_empty(),
    {
        RuleSet { allow: Rule::empty(), deny: Rule::empty(), log: Rule::empty() }
    }

    /// Whether the allow group lists the address.
    pub fn matches_allow(&self, address: &IpAddress) -> (r: bool)
        ensures
            r == self@.allow.spec_contains_addr(*address),
    {
        self.allow.contains_addr(address)
    }

    /// Whether the deny group lists the address.
    pub fn matches_deny(&self, address: &IpAddress) -> (r: bool)
        ensures
            r == self@.deny.spec_contains_addr(*address),
    {
        self.deny.contains_addr(address)
    }

    /// Whether the log group lists the address.
    pub fn matches_log(&self, address: &IpAddress) -> (r: bool)
        ensures
            r == self@.log.spec_contains_addr(*address),
    {
        self.log.contains_addr(address)
    }

    /// Whether all three groups are well formed.
    pub fn is_wf(&self) -> (r: bool)
        ensures
            r == self@.wf(),
    {
        self.allow.is_wf() && self.deny.is_wf() && self.log.is_wf()
    }
}

} // verus!
