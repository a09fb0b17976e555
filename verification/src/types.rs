//! Kernel-reported attributes of tables and chains: address family, chain
//! type, default policy, and hook point, each with its display text.

use vstd::prelude::*;
use vstd::string::StringExecFns;

verus! {

/// The address family a table or chain is scoped to.
#[derive(Debug, Clone, Copy, PartialEq, Eq, Structural)]
pub enum NfFamily {
    IP,
    IP6,
    ARP,
    INet,
    Bridge,
    NetDev,
}

/// The kind of work a chain does.
#[derive(Debug, Clone, Copy, PartialEq, Eq, Structural)]
pub enum NfChainType {
    NAT,
    Filter,
    Route,
}

/// What a chain does with a packet no rule matched.
#[derive(Debug, Clone, Copy, PartialEq, Eq, Structural)]
pub enum NfChainPolicy {
    Accept,
    Drop,
}

/// Where in packet processing a chain is invoked.
#[derive(Debug, Clone, Copy, PartialEq, Eq, Structural)]
pub enum NfHook {
    Input,
    Output,
    Ingress,
    Egress,
    Forward,
    Prerouting,
    Postrouting,
}

pub open spec fn spec_family_text(f: NfFamily) -> Seq<char> {
    match f {
        NfFamily::IP => "ipv4"@,
        NfFamily::IP6 => "ipv6"@,
        NfFamily::ARP => "arp"@,
        NfFamily::INet => "inet"@,
        NfFamily::Bridge => "bridge"@,
        NfFamily::NetDev => "netdev"@,
    }
}

pub open spec fn spec_chain_type_text(t: NfChainType) -> Seq<char> {
    match t {
        NfChainType::NAT => "nat"@,
        NfChainType::Filter => "filter"@,
        NfChainType::Route => "route"@,
    }
}

pub open spec fn spec_chain_policy_text(p: NfChainPolicy) -> Seq<char> {
    match p {
        NfChainPolicy::Accept => "accept"@,
        NfChainPolicy::Drop => "drop"@,
    }
}

pub open spec fn spec_chain_hook_text(h: NfHook) -> Seq<char> {
    match h {
        NfHook::Input => "input"@,
        NfHook::Output => "output"@,
        NfHook::Ingress => "ingress"@,
        NfHook::Egress => "egress"@,
        NfHook::Forward => "forward"@,
        NfHook::Prerouting => "prerouting"@,
        NfHook::Postrouting => "postrouting"@,
    }
}

/// Display text for an address family.
pub trait FamilyDisplay {
    /// The text `display_family` returns.
    spec fn family_text(&self) -> Seq<char>;

    fn display_family(&self) -> (r: String)
        ensures
            r@ == self.family_text(),
    ;
}

impl FamilyDisplay for NfFamily {
    open spec fn family_text(&self) -> Seq<char> {
        spec_family_text(*self)
    }

    fn display_family(&self) -> (r: String)
        ensures
            r@ == self.family_text(),
    {
        match self {
            NfFamily::IP => String::from_str("ipv4"),
            NfFamily::IP6 => String::from_str("ipv6"),
            NfFamily::ARP => String::from_str("arp"),
            NfFamily::INet => String::from_str("inet"),
            NfFamily::Bridge => String::from_str("bridge"),
            NfFamily::NetDev => String::from_str("netdev"),
        }
    }
}

/// Display text for a chain type.
pub trait ChainTypeDisplay {
    /// The text `display_chain_type` returns.
    spec fn chain_type_text(&self) -> Seq<char>;

    fn display_chain_type(&self) -> (r: String)
        ensures
            r@ == self.chain_type_text(),
    ;
}

impl ChainTypeDisplay for NfChainType {
    open spec fn chain_type_text(&self) -> Seq<char> {
        spec_chain_type_text(*self)
    }

    fn display_chain_type(&self) -> (r: String)
        ensures
            r@ == self.chain_type_text(),
    {
        match self {
            NfChainType::NAT => String::from_str("nat"),
            NfChainType::Filter => String::from_str("filter"),
            NfChainType::Route => String::from_str("route"),
        }
    }
}

/// Display text for a chain policy.
pub trait ChainPolicyDisplay {
    /// The text `display_chain_policy` returns.
    spec fn chain_policy_text(&self) -> Seq<char>;

    fn display_chain_policy(&self) -> (r: String)
        ensures
            r@ == self.chain_policy_text(),
    ;
}

impl ChainPolicyDisplay for NfChainPolicy {
    open spec fn chain_policy_text(&self) -> Seq<char> {
        spec_chain_policy_text(*self)
    }

    fn display_chain_policy(&self) -> (r: String)
        ensures
            r@ == self.chain_policy_text(),
    {
        match self {
            NfChainPolicy::Accept => String::from_str("accept"),
            NfChainPolicy::Drop => String::from_str("drop"),
        }
    }
}

/// Display text for a chain hook point.
pub trait ChainHookDisplay {
    /// The text `display_chain_hook` returns.
    spec fn chain_hook_text(&self) -> Seq<char>;

    fn display_chain_hook(&self) -> (r: String)
        ensures
            r@ == self.chain_hook_text(),
    ;
}

impl ChainHookDisplay for NfHook {
    open spec fn chain_hook_text(&self) -> Seq<char> {
        spec_chain_hook_text(*self)
    }

    fn display_chain_hook(&self) -> (r: String)
        ensures
            r@ == self.chain_hook_text(),
    {
        match self {
            NfHook::Input => String::from_str("input"),
            NfHook::Output => String::from_str("output"),
            NfHook::Ingress => String::from_str("ingress"),
            NfHook::Egress => String::from_str("egress"),
            NfHook::Forward => String::from_str("forward"),
            NfHook::Prerouting => String::from_str("prerouting"),
            NfHook::Postrouting => String::from_str("postrouting"),
        }
    }
}

} // verus!
