//! The policy compiler: turns a rule set into the ordered command batch of
//! one kernel transaction, under a replace-on-reinstall protocol.
//!
//! The batch deletes any same-named table, creates the table, then for each
//! of the three chain roles deletes any pre-existing same-named chain and
//! creates the new chain, and finally emits one rule per element of each
//! populated criterion set. Port criteria are emitted twice per element,
//! once against TCP and once against UDP. Each rule carries its chain's
//! verdict. The allow chain accepts, the deny chain drops, and the log
//! chain queues a copy toward the classification engine.
//!
//! Callers perform the transport: they hand in the names the kernel
//! currently lists and send the returned batch as one transaction. A commit
//! failure aborts the whole install, though the underlying transport does
//! not guarantee atomic rollback; that limitation is the transport's, not
//! resolved here.

use vstd::prelude::*;
use vstd::string::StringExecFns;
use crate::rules::{IpAddress, IpNet, Rule, RuleSet, RuleSetView, RuleView};
use crate::types::NfChainPolicy;

verus! {

/// The chain name of the allow role.
pub const ALLOW_NAME: &'static str = "allow-name";

/// The chain name of the deny role.
pub const DENY_NAME: &'static str = "deny-name";

/// The chain name of the log role.
pub const LOG_NAME: &'static str = "log-name";

/// The hook priority every compiled chain registers at.
pub const CHAIN_PRIORITY: i32 = 3;

/// One match criterion of a compiled kernel rule.
#[derive(Debug, Clone, Copy, PartialEq, Eq, Structural)]
pub enum Criterion {
    SrcAddr(IpAddress),
    DstAddr(IpAddress),
    SrcNet(IpNet),
    DstNet(IpNet),
    SrcPort { port: u16, tcp: bool },
    DstPort { port: u16, tcp: bool },
}

/// The terminal verdict of a compiled kernel rule.
#[derive(Debug, Clone, Copy, PartialEq, Eq, Structural)]
pub enum RuleVerdict {
    Accept,
    Drop,
    SendToQueue,
}

/// One command of a kernel batch transaction.
#[derive(Debug)]
pub enum NetCommand {
    DeleteTable { name: String },
    CreateTable { name: String },
    DeleteChain { table: String, name: String },
    /// Creates an input-hook filter chain with the given priority and
    /// default policy.
    CreateChain { table: String, name: String, priority: i32, policy: NfChainPolicy },
    /// Appends a rule with one criterion, a packet/byte counter, and a
    /// terminal verdict to the named chain.
    CreateRule { table: String, chain: String, criterion: Criterion, verdict: RuleVerdict },
}

/// The spec view of one batch command, with names as character sequences.
pub enum CmdView {
    DeleteTable { name: Seq<char> },
    CreateTable { name: Seq<char> },
    DeleteChain { table: Seq<char>, name: Seq<char> },
    CreateChain { table: Seq<char>, name: Seq<char>, priority: int, policy: NfChainPolicy },
    CreateRule { table: Seq<char>, chain: Seq<char>, criterion: Criterion, verdict: RuleVerdict },
}

impl View for NetCommand {
    type V = CmdView;

    open spec fn view(&self) -> CmdView {
        match self {
            NetCommand::DeleteTable { name } => CmdView::DeleteTable { name: name@ },
            NetCommand::CreateTable { name } => CmdView::CreateTable { name: name@ },
            NetCommand::DeleteChain { table, name } => CmdView::DeleteChain {
                table: table@,
                name: name@,
            },
            NetCommand::CreateChain { table, name, priority, policy } => CmdView::CreateChain {
                table: table@,
                name: name@,
                priority: *priority as int,
                policy: *policy,
            },
            NetCommand::CreateRule { table, chain, criterion, verdict } => CmdView::CreateRule {
                table: table@,
                chain: chain@,
                criterion: *criterion,
                verdict: *verdict,
            },
        }
    }
}

/// The views of a command sequence.
pub open spec fn views_of(s: Seq<NetCommand>) -> Seq<CmdView> {
    s.map_values(|c: NetCommand| c@)
}

/// Address criteria in listing order: one source or destination criterion
/// per element.
pub open spec fn addr_criteria(addrs: Seq<IpAddress>, src: bool) -> Seq<Criterion>
    decreases addrs.len(),
{
    if addrs.len() == 0 {
        Seq::empty()
    } else {
        addr_criteria(addrs.drop_last(), src).push(
            if src {
                Criterion::SrcAddr(addrs.last())
            } else {
                Criterion::DstAddr(addrs.last())
            },
        )
    }
}

/// Network criteria in listing order.
pub open spec fn net_criteria(nets: Seq<IpNet>, src: bool) -> Seq<Criterion>
    decreases nets.len(),
{
    if nets.len() == 0 {
        Seq::empty()
    } else {
        net_criteria(nets.drop_last(), src).push(
            if src {
                Criterion::SrcNet(nets.last())
            } else {
                Criterion::DstNet(nets.last())
            },
        )
    }
}

/// Port criteria in listing order: each port yields a TCP criterion then a
/// UDP criterion, since the abstract criterion names no transport protocol.
pub open spec fn port_criteria(ports: Seq<u16>, src: bool) -> Seq<Criterion>
    decreases ports.len(),
{
    if ports.len() == 0 {
        Seq::empty()
    } else {
        port_criteria(ports.drop_last(), src).push(
            if src {
                Criterion::SrcPort { port: ports.last(), tcp: true }
            } else {
                Criterion::DstPort { port: ports.last(), tcp: true }
            },
        ).push(
            if src {
                Criterion::SrcPort { port: ports.last(), tcp: false }
            } else {
                Criterion::DstPort { port: ports.last(), tcp: false }
            },
        )
    }
}

/// Every criterion one rule group compiles to, in emission order: sources,
/// destinations, source networks, destination networks, destination ports,
/// source ports.
pub open spec fn spec_rule_criteria(r: RuleView) -> Seq<Criterion> {
    addr_criteria(r.sources, true) + addr_criteria(r.destinations, false) + net_criteria(
        r.source_networks,
        true,
    ) + net_criteria(r.destination_networks, false) + port_criteria(r.dports, false)
        + port_criteria(r.sports, true)
}

/// The rule commands wrapping each criterion for one chain.
pub open spec fn rule_cmds(
    table: Seq<char>,
    chain: Seq<char>,
    crits: Seq<Criterion>,
    verdict: RuleVerdict,
) -> Seq<CmdView>
    decreases crits.len(),
{
    if crits.len() == 0 {
        Seq::empty()
    } else {
        rule_cmds(table, chain, crits.drop_last(), verdict).push(
            CmdView::CreateRule { table, chain, criterion: crits.last(), verdict },
        )
    }
}

/// The delete-then-create commands of one chain role.
pub open spec fn chain_part(
    table: Seq<char>,
    chain: Seq<char>,
    exists: bool,
    policy: NfChainPolicy,
) -> Seq<CmdView> {
    let create = CmdView::CreateChain {
        table,
        name: chain,
        priority: CHAIN_PRIORITY as int,
        policy,
    };
    if exists {
        seq![CmdView::DeleteChain { table, name: chain }, create]
    } else {
        seq![create]
    }
}

/// The whole install batch for one table name and rule set, given which of
/// the table and the three chain names the kernel currently lists.
pub open spec fn spec_plan(
    name: Seq<char>,
    table_exists: bool,
    allow_exists: bool,
    deny_exists: bool,
    log_exists: bool,
    rs: RuleSetView,
) -> Seq<CmdView> {
    (if table_exists {
        seq![CmdView::DeleteTable { name }]
    } else {
        Seq::empty()
    }) + seq![CmdView::CreateTable { name }] + chain_part(
        name,
        ALLOW_NAME@,
        allow_exists,
        NfChainPolicy::Drop,
    ) + chain_part(name, DENY_NAME@, deny_exists, NfChainPolicy::Accept) + chain_part(
        name,
        LOG_NAME@,
        log_exists,
        NfChainPolicy::Accept,
    ) + rule_cmds(name, ALLOW_NAME@, spec_rule_criteria(rs.allow), RuleVerdict::Accept) + rule_cmds(
        name,
        DENY_NAME@,
        spec_rule_criteria(rs.deny),
        RuleVerdict::Drop,
    ) + rule_cmds(name, LOG_NAME@, spec_rule_criteria(rs.log), RuleVerdict::SendToQueue)
}

/// Whether some string in the sequence reads as `name`.
pub open spec fn has_name(list: Seq<String>, name: Seq<char>) -> bool {
    exists|i: int| 0 <= i < list.len() && #[trigger] list[i]@ == name
}

/// Whether the vector holds a string reading as `name`.
pub fn contains_name(list: &Vec<String>, name: &String) -> (r: bool)
    ensures
        r == has_name(list@, name@),
{
    let mut i: usize = 0;
    while i < list.len()
        invariant
            i <= list@.len(),
            forall|j: int| 0 <= j < i ==> #[trigger] list@[j]@ != name@,
        decreases list@.len() - i,
    {
        if list[i].eq(name) {
            return true;
        }
        i += 1;
    }
    false
}

/// Appends a delete command for the table iff the kernel currently lists
/// its name; absence is not an error.
pub fn check_for_table(plan: &mut Vec<NetCommand>, existing_tables: &Vec<String>, name: &String)
    ensures
        views_of(final(plan)@) == views_of(old(plan)@) + (if has_name(existing_tables@, name@) {
            seq![CmdView::DeleteTable { name: name@ }]
        } else {
            Seq::<CmdView>::empty()
        }),
{
    if contains_name(existing_tables, name) {
        plan.push(NetCommand::DeleteTable { name: name.clone() });
        assert(views_of(plan@) =~= views_of(old(plan)@) + seq![
            CmdView::DeleteTable { name: name@ },
        ]);
    } else {
        assert(views_of(plan@) =~= views_of(old(plan)@) + Seq::<CmdView>::empty());
    }
}

/// Appends a delete command for the chain iff the kernel currently lists
/// its name under this table; absence is not an error.
pub fn check_for_chain(
    plan: &mut Vec<NetCommand>,
    existing_chains: &Vec<String>,
    chain: &String,
    table: &String,
)
    ensures
        views_of(final(plan)@) == views_of(old(plan)@) + (if has_name(existing_chains@, chain@) {
            seq![CmdView::DeleteChain { table: table@, name: chain@ }]
        } else {
            Seq::<CmdView>::empty()
        }),
{
    if contains_name(existing_chains, chain) {
        plan.push(NetCommand::DeleteChain { table: table.clone(), name: chain.clone() });
        assert(views_of(plan@) =~= views_of(old(plan)@) + seq![
            CmdView::DeleteChain { table: table@, name: chain@ },
        ]);
    } else {
        assert(views_of(plan@) =~= views_of(old(plan)@) + Seq::<CmdView>::empty());
    }
}

/// Appends one rule command.
fn push_rule_cmd(
    plan: &mut Vec<NetCommand>,
    table: &String,
    chain: &String,
    criterion: Criterion,
    verdict: RuleVerdict,
)
    ensures
        views_of(final(plan)@) == views_of(old(plan)@).push(
            CmdView::CreateRule { table: table@, chain: chain@, criterion, verdict },
        ),
{
    plan.push(
        NetCommand::CreateRule { table: table.clone(), chain: chain.clone(), criterion, verdict },
    );
    assert(views_of(plan@) =~= views_of(old(plan)@).push(
        CmdView::CreateRule { table: table@, chain: chain@, criterion, verdict },
    ));
}

/// Appending one criterion appends one rule command.
proof fn lemma_rule_cmds_push(
    table: Seq<char>,
    chain: Seq<char>,
    crits: Seq<Criterion>,
    x: Criterion,
    verdict: RuleVerdict,
)
    ensures
        rule_cmds(table, chain, crits.push(x), verdict) == rule_cmds(table, chain, crits, verdict).push(
            CmdView::CreateRule { table, chain, criterion: x, verdict },
        ),
{
    assert(crits.push(x).drop_last() =~= crits);
    assert(crits.push(x).last() == x);
}

/// Appends one chain role's delete-then-create commands.
fn push_chain(
    plan: &mut Vec<NetCommand>,
    existing_chains: &Vec<String>,
    table: &String,
    chain: &String,
    policy: NfChainPolicy,
)
    ensures
        views_of(final(plan)@) == views_of(old(plan)@) + chain_part(
            table@,
            chain@,
            has_name(existing_chains@, chain@),
            policy,
        ),
{
    check_for_chain(plan, existing_chains, chain, table);
    let ghost mid = plan@;
    plan.push(
        NetCommand::CreateChain {
            table: table.clone(),
            name: chain.clone(),
            priority: CHAIN_PRIORITY,
            policy,
        },
    );
    proof {
        let createv = CmdView::CreateChain {
            table: table@,
            name: chain@,
            priority: CHAIN_PRIORITY as int,
            policy,
        };
        assert(views_of(plan@) =~= views_of(mid).push(createv));
        assert(views_of(plan@) =~= views_of(old(plan)@) + chain_part(
            table@,
            chain@,
            has_name(existing_chains@, chain@),
            policy,
        ));
    }
}

/// Appends the rule commands of one chain: one command per address and
/// network element, two per port element.
fn push_chain_rules(
    plan: &mut Vec<NetCommand>,
    table: &String,
    chain: &String,
    rule: &Rule,
    verdict: RuleVerdict,
)
    ensures
        views_of(final(plan)@) == views_of(old(plan)@) + rule_cmds(
            table@,
            chain@,
            spec_rule_criteria(rule@),
            verdict,
        ),
{
    let ghost base = views_of(plan@);
    let ghost t = table@;
    let ghost c = chain@;

    let mut i: usize = 0;
    while i < rule.sources.len()
        invariant
            i <= rule.sources@.len(),
            views_of(plan@) == base + rule_cmds(
                t,
                c,
                addr_criteria(rule.sources@.take(i as int), true),
                verdict,
            ),
            t == table@,
            c == chain@,
        decreases rule.sources@.len() - i,
    {
        let crit = Criterion::SrcAddr(rule.sources[i]);
        push_rule_cmd(plan, table, chain, crit, verdict);
        proof {
            let pre = rule.sources@.take(i as int);
            let cur = rule.sources@.take(i as int + 1);
            assert(cur.drop_last() =~= pre);
            assert(cur.last() == rule.sources@[i as int]);
            assert(addr_criteria(cur, true) == addr_criteria(pre, true).push(crit));
            lemma_rule_cmds_push(t, c, addr_criteria(pre, true), crit, verdict);
            assert(views_of(plan@) =~= base + rule_cmds(t, c, addr_criteria(cur, true), verdict));
        }
        i += 1;
    }
    assert(rule.sources@.take(rule.sources@.len() as int) =~= rule.sources@);
    let ghost seg1 = addr_criteria(rule.sources@, true);

    let mut i: usize = 0;
    while i < rule.destinations.len()
        invariant
            i <= rule.destinations@.len(),
            views_of(plan@) == base + rule_cmds(t, c, seg1 + addr_criteria(
                rule.destinations@.take(i as int),
                false,
            ), verdict),
            t == table@,
            c == chain@,
            seg1 == addr_criteria(rule.sources@, true),
        decreases rule.destinations@.len() - i,
    {
        let crit = Criterion::DstAddr(rule.destinations[i]);
        push_rule_cmd(plan, table, chain, crit, verdict);
        proof {
            let pre = rule.destinations@.take(i as int);
            let cur = rule.destinations@.take(i as int + 1);
            assert(cur.drop_last() =~= pre);
            assert(cur.last() == rule.destinations@[i as int]);
            assert(addr_criteria(cur, false) == addr_criteria(pre, false).push(crit));
            assert((seg1 + addr_criteria(pre, false)).push(crit) =~= seg1 + addr_criteria(
                cur,
                false,
            ));
            lemma_rule_cmds_push(t, c, seg1 + addr_criteria(pre, false), crit, verdict);
            assert(views_of(plan@) =~= base + rule_cmds(t, c, seg1 + addr_criteria(cur, false), verdict));
        }
        i += 1;
    }
    assert(rule.destinations@.take(rule.destinations@.len() as int) =~= rule.destinations@);
    let ghost acc2 = seg1 + addr_criteria(rule.destinations@, false);

    let mut i: usize = 0;
    while i < rule.source_networks.len()
        invariant
            i <= rule.source_networks@.len(),
            views_of(plan@) == base + rule_cmds(t, c, acc2 + net_criteria(
                rule.source_networks@.take(i as int),
                true,
            ), verdict),
            t == table@,
            c == chain@,
            acc2 == addr_criteria(rule.sources@, true) + addr_criteria(rule.destinations@, false),
        decreases rule.source_networks@.len() - i,
    {
        let crit = Criterion::SrcNet(rule.source_networks[i]);
        push_rule_cmd(plan, table, chain, crit, verdict);
        proof {
            let pre = rule.source_networks@.take(i as int);
            let cur = rule.source_networks@.take(i as int + 1);
            assert(cur.drop_last() =~= pre);
            assert(cur.last() == rule.source_networks@[i as int]);
            assert(net_criteria(cur, true) == net_criteria(pre, true).push(crit));
            assert((acc2 + net_criteria(pre, true)).push(crit) =~= acc2 + net_criteria(cur, true));
            lemma_rule_cmds_push(t, c, acc2 + net_criteria(pre, true), crit, verdict);
            assert(views_of(plan@) =~= base + rule_cmds(t, c, acc2 + net_criteria(cur, true), verdict));
        }
        i += 1;
    }
    assert(rule.source_networks@.take(rule.source_networks@.len() as int)
        =~= rule.source_networks@);
    let ghost acc3 = acc2 + net_criteria(rule.source_networks@, true);

    let mut i: usize = 0;
    while i < rule.destination_networks.len()
        invariant
            i <= rule.destination_networks@.len(),
            views_of(plan@) == base + rule_cmds(t, c, acc3 + net_criteria(
                rule.destination_networks@.take(i as int),
                false,
            ), verdict),
            t == table@,
            c == chain@,
            acc3 == addr_criteria(rule.sources@, true) + addr_criteria(rule.destinations@, false)
                + net_criteria(rule.source_networks@, true),
        decreases rule.destination_networks@.len() - i,
    {
        let crit = Criterion::DstNet(rule.destination_networks[i]);
        push_rule_cmd(plan, table, chain, crit, verdict);
        proof {
            let pre = rule.destination_networks@.take(i as int);
            let cur = rule.destination_networks@.take(i as int + 1);
            assert(cur.drop_last() =~= pre);
            assert(cur.last() == rule.destination_networks@[i as int]);
            assert(net_criteria(cur, false) == net_criteria(pre, false).push(crit));
            assert((acc3 + net_criteria(pre, false)).push(crit) =~= acc3 + net_criteria(
                cur,
                false,
            ));
            lemma_rule_cmds_push(t, c, acc3 + net_criteria(pre, false), crit, verdict);
            assert(views_of(plan@) =~= base + rule_cmds(t, c, acc3 + net_criteria(cur, false), verdict));
        }
        i += 1;
    }
    assert(rule.destination_networks@.take(rule.destination_networks@.len() as int)
        =~= rule.destination_networks@);
    let ghost acc4 = acc3 + net_criteria(rule.destination_networks@, false);

    let mut i: usize = 0;
    while i < rule.dports.len()
        invariant
            i <= rule.dports@.len(),
            views_of(plan@) == base + rule_cmds(t, c, acc4 + port_criteria(
                rule.dports@.take(i as int),
                false,
            ), verdict),
            t == table@,
            c == chain@,
            acc4 == addr_criteria(rule.sources@, true) + addr_criteria(rule.destinations@, false)
                + net_criteria(rule.source_networks@, true) + net_criteria(
                rule.destination_networks@,
                false,
            ),
        decreases rule.dports@.len() - i,
    {
        let port = rule.dports[i];
        let crit_tcp = Criterion::DstPort { port, tcp: true };
        let crit_udp = Criterion::DstPort { port, tcp: false };
        push_rule_cmd(plan, table, chain, crit_tcp, verdict);
        push_rule_cmd(plan, table, chain, crit_udp, verdict);
        proof {
            let pre = rule.dports@.take(i as int);
            let cur = rule.dports@.take(i as int + 1);
            assert(cur.drop_last() =~= pre);
            assert(cur.last() == rule.dports@[i as int]);
            assert(port_criteria(cur, false) == port_criteria(pre, false).push(crit_tcp).push(
                crit_udp,
            ));
            let mid1 = acc4 + port_criteria(pre, false);
            lemma_rule_cmds_push(t, c, mid1, crit_tcp, verdict);
            lemma_rule_cmds_push(t, c, mid1.push(crit_tcp), crit_udp, verdict);
            assert(mid1.push(crit_tcp).push(crit_udp) =~= acc4 + port_criteria(cur, false));
            assert(views_of(plan@) =~= base + rule_cmds(t, c, acc4 + port_criteria(cur, false), verdict));
        }
        i += 1;
    }
    assert(rule.dports@.take(rule.dports@.len() as int) =~= rule.dports@);
    let ghost acc5 = acc4 + port_criteria(rule.dports@, false);

    let mut i: usize = 0;
    while i < rule.sports.len()
        invariant
            i <= rule.sports@.len(),
            views_of(plan@) == base + rule_cmds(t, c, acc5 + port_criteria(
                rule.sports@.take(i as int),
                true,
            ), verdict),
            t == table@,
            c == chain@,
            acc5 == addr_criteria(rule.sources@, true) + addr_criteria(rule.destinations@, false)
                + net_criteria(rule.source_networks@, true) + net_criteria(
                rule.destination_networks@,
                false,
            ) + port_criteria(rule.dports@, false),
        decreases rule.sports@.len() - i,
    {
        let port = rule.sports[i];
        let crit_tcp = Criterion::SrcPort { port, tcp: true };
        let crit_udp = Criterion::SrcPort { port, tcp: false };
        push_rule_cmd(plan, table, chain, crit_tcp, verdict);
        push_rule_cmd(plan, table, chain, crit_udp, verdict);
        proof {
            let pre = rule.sports@.take(i as int);
            let cur = rule.sports@.take(i as int + 1);
            assert(cur.drop_last() =~= pre);
            assert(cur.last() == rule.sports@[i as int]);
            assert(port_criteria(cur, true) == port_criteria(pre, true).push(crit_tcp).push(
                crit_udp,
            ));
            let mid1 = acc5 + port_criteria(pre, true);
            lemma_rule_cmds_push(t, c, mid1, crit_tcp, verdict);
            lemma_rule_cmds_push(t, c, mid1.push(crit_tcp), crit_udp, verdict);
            assert(mid1.push(crit_tcp).push(crit_udp) =~= acc5 + port_criteria(cur, true));
            assert(views_of(plan@) =~= base + rule_cmds(t, c, acc5 + port_criteria(cur, true), verdict));
        }
        i += 1;
    }
    proof {
        assert(rule.sports@.take(rule.sports@.len() as int) =~= rule.sports@);
        assert(acc5 + port_criteria(rule.sports@, true) =~= spec_rule_criteria(rule@));
        assert(views_of(plan@) =~= base + rule_cmds(t, c, spec_rule_criteria(rule@), verdict));
    }
}


/// Compiles the whole install batch: the replace-on-reinstall protocol of
/// one kernel transaction for `table_name` and `rules`, given the table
/// names and this table's chain names the kernel currently lists. The
/// rule set must be well formed (`RuleSet::is_wf` checks it): its six
/// collections are sets, so no criterion compiles to a duplicate rule.
pub fn create_new_table(
    table_name: &str,
    existing_tables: &Vec<String>,
    existing_chains: &Vec<String>,
    rules: &RuleSet,
) -> (plan: Vec<NetCommand>)
    requires
        rules@.wf(),
    ensures
        views_of(plan@) == spec_plan(
            table_name@,
            has_name(existing_tables@, table_name@),
            has_name(existing_chains@, ALLOW_NAME@),
            has_name(existing_chains@, DENY_NAME@),
            has_name(existing_chains@, LOG_NAME@),
            rules@,
        ),
{
    let name = table_name.to_owned();
    let allow = String::from_str(ALLOW_NAME);
    let deny = String::from_str(DENY_NAME);
    let log = String::from_str(LOG_NAME);

    let mut plan: Vec<NetCommand> = Vec::new();
    assert(views_of(plan@) =~= Seq::<CmdView>::empty());

    check_for_table(&mut plan, existing_tables, &name);
    plan.push(NetCommand::CreateTable { name: name.clone() });
    let ghost head = (if has_name(existing_tables@, table_name@) {
        seq![CmdView::DeleteTable { name: table_name@ }]
    } else {
        Seq::<CmdView>::empty()
    }) + seq![CmdView::CreateTable { name: table_name@ }];
    assert(views_of(plan@) =~= head);

    push_chain(&mut plan, existing_chains, &name, &allow, NfChainPolicy::Drop);
    push_chain(&mut plan, existing_chains, &name, &deny, NfChainPolicy::Accept);
    push_chain(&mut plan, existing_chains, &name, &log, NfChainPolicy::Accept);
    let ghost chains = chain_part(
        table_name@,
        ALLOW_NAME@,
        has_name(existing_chains@, ALLOW_NAME@),
        NfChainPolicy::Drop,
    ) + chain_part(
        table_name@,
        DENY_NAME@,
        has_name(existing_chains@, DENY_NAME@),
        NfChainPolicy::Accept,
    ) + chain_part(
        table_name@,
        LOG_NAME@,
        has_name(existing_chains@, LOG_NAME@),
        NfChainPolicy::Accept,
    );
    assert(views_of(plan@) =~= head + chains);

    push_chain_rules(&mut plan, &name, &allow, &rules.allow, RuleVerdict::Accept);
    push_chain_rules(&mut plan, &name, &deny, &rules.deny, RuleVerdict::Drop);
    push_chain_rules(&mut plan, &name, &log, &rules.log, RuleVerdict::SendToQueue);

    proof {
        assert(views_of(plan@) =~= spec_plan(
            table_name@,
            has_name(existing_tables@, table_name@),
            has_name(existing_chains@, ALLOW_NAME@),
            has_name(existing_chains@, DENY_NAME@),
            has_name(existing_chains@, LOG_NAME@),
            rules@,
        ));
    }
    plan
}

/// An empty rule group compiles to no rule commands at all; the chain and
/// its policy are still created.
pub proof fn lemma_empty_rule_compiles_to_chain_only(r: RuleView)
    requires
        r.is_empty(),
    ensures
        spec_rule_criteria(r).len() == 0,
{
    assert(spec_rule_criteria(r) =~= Seq::<Criterion>::empty());
}

/// One installed rule of the state model: its criterion and verdict.
pub struct RuleEntry {
    pub criterion: Criterion,
    pub verdict: RuleVerdict,
}

/// The state model of one chain: its attributes and ordered rules.
#[verifier::ext_equal]
pub struct ChainState {
    pub priority: int,
    pub policy: NfChainPolicy,
    pub rules: Seq<RuleEntry>,
}

/// The state model of one table: its chains by name.
#[verifier::ext_equal]
pub struct TableState {
    pub chains: Map<Seq<char>, ChainState>,
}

/// The rule entries that wrapping `crits` with `verdict` installs.
pub open spec fn entries(crits: Seq<Criterion>, verdict: RuleVerdict) -> Seq<RuleEntry>
    decreases crits.len(),
{
    if crits.len() == 0 {
        Seq::empty()
    } else {
        entries(crits.drop_last(), verdict).push(
            RuleEntry { criterion: crits.last(), verdict },
        )
    }
}

/// How one command changes the kernel's table map. Deleting an absent
/// object is a no-op, creating an existing table keeps it, and recreating
/// an existing chain updates its attributes but keeps its rules, as the
/// kernel does; the replace protocol deletes first precisely so that no
/// stale rules survive.
pub open spec fn apply_cmd(
    s: Map<Seq<char>, TableState>,
    c: CmdView,
) -> Map<Seq<char>, TableState> {
    match c {
        CmdView::DeleteTable { name } => s.remove(name),
        CmdView::CreateTable { name } => if s.contains_key(name) {
            s
        } else {
            s.insert(name, TableState { chains: Map::empty() })
        },
        CmdView::DeleteChain { table, name } => if s.contains_key(table) {
            s.insert(table, TableState { chains: s[table].chains.remove(name) })
        } else {
            s
        },
        CmdView::CreateChain { table, name, priority, policy } => if s.contains_key(table) {
            let kept = if s[table].chains.contains_key(name) {
                s[table].chains[name].rules
            } else {
                Seq::empty()
            };
            s.insert(
                table,
                TableState {
                    chains: s[table].chains.insert(name, ChainState { priority, policy, rules: kept }),
                },
            )
        } else {
            s
        },
        CmdView::CreateRule { table, chain, criterion, verdict } => if s.contains_key(table)
            && s[table].chains.contains_key(chain) {
            let ch = s[table].chains[chain];
            s.insert(
                table,
                TableState {
                    chains: s[table].chains.insert(
                        chain,
                        ChainState {
                            priority: ch.priority,
                            policy: ch.policy,
                            rules: ch.rules.push(RuleEntry { criterion, verdict }),
                        },
                    ),
                },
            )
        } else {
            s
        },
    }
}

/// Applies a command sequence in order.
pub open spec fn apply_cmds(
    s: Map<Seq<char>, TableState>,
    cmds: Seq<CmdView>,
) -> Map<Seq<char>, TableState>
    decreases cmds.len(),
{
    if cmds.len() == 0 {
        s
    } else {
        apply_cmds(apply_cmd(s, cmds.first()), cmds.drop_first())
    }
}

/// Applying a concatenation applies the parts in order.
pub proof fn lemma_apply_cmds_concat(
    s: Map<Seq<char>, TableState>,
    a: Seq<CmdView>,
    b: Seq<CmdView>,
)
    ensures
        apply_cmds(s, a + b) == apply_cmds(apply_cmds(s, a), b),
    decreases a.len(),
{
    if a.len() == 0 {
        assert(a + b =~= b);
    } else {
        assert((a + b).first() == a.first());
        assert((a + b).drop_first() =~= a.drop_first() + b);
        lemma_apply_cmds_concat(apply_cmd(s, a.first()), a.drop_first(), b);
    }
}

/// Applying a single command is one step.
pub proof fn lemma_apply_single(s: Map<Seq<char>, TableState>, c: CmdView)
    ensures
        apply_cmds(s, seq![c]) == apply_cmd(s, c),
{
    let cs = seq![c];
    assert(cs.first() == c);
    assert(cs.drop_first().len() == 0);
    assert(apply_cmds(apply_cmd(s, c), cs.drop_first()) == apply_cmd(s, c));
}

/// The three role chain names are pairwise distinct.
pub proof fn lemma_role_names_distinct()
    ensures
        ALLOW_NAME@ != DENY_NAME@,
        ALLOW_NAME@ != LOG_NAME@,
        DENY_NAME@ != LOG_NAME@,
{
    reveal_strlit("allow-name");
    reveal_strlit("deny-name");
    reveal_strlit("log-name");
    assert(ALLOW_NAME@.len() == 10);
    assert(DENY_NAME@.len() == 9);
    assert(LOG_NAME@.len() == 8);
}

/// The table a rule set compiles to: the three role chains at the fixed
/// priority, with their policies and their rule entries in order.
pub open spec fn compiled_table(rs: RuleSetView) -> TableState {
    TableState {
        chains: Map::empty().insert(
            ALLOW_NAME@,
            ChainState {
                priority: CHAIN_PRIORITY as int,
                policy: NfChainPolicy::Drop,
                rules: entries(spec_rule_criteria(rs.allow), RuleVerdict::Accept),
            },
        ).insert(
            DENY_NAME@,
            ChainState {
                priority: CHAIN_PRIORITY as int,
                policy: NfChainPolicy::Accept,
                rules: entries(spec_rule_criteria(rs.deny), RuleVerdict::Drop),
            },
        ).insert(
            LOG_NAME@,
            ChainState {
                priority: CHAIN_PRIORITY as int,
                policy: NfChainPolicy::Accept,
                rules: entries(spec_rule_criteria(rs.log), RuleVerdict::SendToQueue),
            },
        ),
    }
}

/// Applying one chain's rule commands appends exactly their entries to
/// that chain and changes nothing else.
pub proof fn lemma_apply_rule_cmds(
    s: Map<Seq<char>, TableState>,
    t: Seq<char>,
    c: Seq<char>,
    crits: Seq<Criterion>,
    verdict: RuleVerdict,
)
    requires
        s.contains_key(t),
        s[t].chains.contains_key(c),
    ensures
        apply_cmds(s, rule_cmds(t, c, crits, verdict)) == s.insert(
            t,
            TableState {
                chains: s[t].chains.insert(
                    c,
                    ChainState {
                        priority: s[t].chains[c].priority,
                        policy: s[t].chains[c].policy,
                        rules: s[t].chains[c].rules + entries(crits, verdict),
                    },
                ),
            },
        ),
    decreases crits.len(),
{
    let goal = s.insert(
        t,
        TableState {
            chains: s[t].chains.insert(
                c,
                ChainState {
                    priority: s[t].chains[c].priority,
                    policy: s[t].chains[c].policy,
                    rules: s[t].chains[c].rules + entries(crits, verdict),
                },
            ),
        },
    );
    if crits.len() == 0 {
        assert(s[t].chains[c].rules + entries(crits, verdict) =~= s[t].chains[c].rules);
        assert(goal =~~= s);
        assert(apply_cmds(s, rule_cmds(t, c, crits, verdict)) == s);
    } else {
        lemma_apply_rule_cmds(s, t, c, crits.drop_last(), verdict);
        let mid = apply_cmds(s, rule_cmds(t, c, crits.drop_last(), verdict));
        let last_cmd = CmdView::CreateRule { table: t, chain: c, criterion: crits.last(), verdict };
        assert(rule_cmds(t, c, crits, verdict) =~= rule_cmds(t, c, crits.drop_last(), verdict)
            + seq![last_cmd]);
        lemma_apply_cmds_concat(s, rule_cmds(t, c, crits.drop_last(), verdict), seq![last_cmd]);
        lemma_apply_single(mid, last_cmd);
        assert(entries(crits, verdict) =~= entries(crits.drop_last(), verdict).push(
            RuleEntry { criterion: crits.last(), verdict },
        ));
        assert(apply_cmd(mid, last_cmd) =~~= goal);
    }
}

/// Law: one install is a clean replacement. Whatever stood under the table
/// name before, afterwards the kernel state maps the name to exactly the
/// compiled table of the rule set, and no other table changes. The flags
/// for the three chain names may be stale; the table flag must reflect the
/// state, as the compiler's caller reads it from the same listing.
pub proof fn lemma_install_replaces(
    s: Map<Seq<char>, TableState>,
    name: Seq<char>,
    allow_exists: bool,
    deny_exists: bool,
    log_exists: bool,
    rs: RuleSetView,
)
    ensures
        apply_cmds(
            s,
            spec_plan(name, s.contains_key(name), allow_exists, deny_exists, log_exists, rs),
        ) == s.insert(name, compiled_table(rs)),
{
    let tex = s.contains_key(name);
    let head = (if tex {
        seq![CmdView::DeleteTable { name }]
    } else {
        Seq::<CmdView>::empty()
    }) + seq![CmdView::CreateTable { name }];
    let cpa = chain_part(name, ALLOW_NAME@, allow_exists, NfChainPolicy::Drop);
    let cpd = chain_part(name, DENY_NAME@, deny_exists, NfChainPolicy::Accept);
    let cpl = chain_part(name, LOG_NAME@, log_exists, NfChainPolicy::Accept);
    let rca = rule_cmds(name, ALLOW_NAME@, spec_rule_criteria(rs.allow), RuleVerdict::Accept);
    let rcd = rule_cmds(name, DENY_NAME@, spec_rule_criteria(rs.deny), RuleVerdict::Drop);
    let rcl = rule_cmds(name, LOG_NAME@, spec_rule_criteria(rs.log), RuleVerdict::SendToQueue);
    let plan = spec_plan(name, tex, allow_exists, deny_exists, log_exists, rs);
    assert(plan =~= head + cpa + cpd + cpl + rca + rcd + rcl);

    // The head leaves a fresh empty table under the name.
    lemma_role_names_distinct();
    let s2 = apply_cmds(s, head);
    let opt = if tex {
        seq![CmdView::DeleteTable { name }]
    } else {
        Seq::<CmdView>::empty()
    };
    let create_table = CmdView::CreateTable { name };
    assert(head == opt + seq![create_table]);
    lemma_apply_cmds_concat(s, opt, seq![create_table]);
    let s1 = if tex { s.remove(name) } else { s };
    if tex {
        lemma_apply_single(s, CmdView::DeleteTable { name });
    }
    assert(apply_cmds(s, opt) == s1);
    lemma_apply_single(s1, create_table);
    assert(s2 == apply_cmd(s1, create_table));
    assert(!s1.contains_key(name));
    assert(s2 == s1.insert(name, TableState { chains: Map::empty() }));

    // Each chain part leaves a fresh empty chain, whether or not it
    // deletes first: a delete on the fresh table's chain map is a no-op.
    let p2 = head + cpa;
    let p3 = p2 + cpd;
    let p4 = p3 + cpl;
    let p5 = p4 + rca;
    let p6 = p5 + rcd;
    let p7 = p6 + rcl;
    assert(plan =~= p7);

    lemma_apply_cmds_concat(s, head, cpa);
    let s3 = apply_cmds(s2, cpa);
    lemma_apply_chain_part(s2, name, ALLOW_NAME@, allow_exists, NfChainPolicy::Drop);
    assert(apply_cmds(s, p2) == s3);

    lemma_apply_cmds_concat(s, p2, cpd);
    let s4 = apply_cmds(s3, cpd);
    lemma_apply_chain_part(s3, name, DENY_NAME@, deny_exists, NfChainPolicy::Accept);
    assert(apply_cmds(s, p3) == s4);

    lemma_apply_cmds_concat(s, p3, cpl);
    let s5 = apply_cmds(s4, cpl);
    lemma_apply_chain_part(s4, name, LOG_NAME@, log_exists, NfChainPolicy::Accept);
    assert(apply_cmds(s, p4) == s5);

    // The rule batches append each chain's entries.
    lemma_apply_cmds_concat(s, p4, rca);
    let s6 = apply_cmds(s5, rca);
    lemma_apply_rule_cmds(s5, name, ALLOW_NAME@, spec_rule_criteria(rs.allow), RuleVerdict::Accept);
    assert(apply_cmds(s, p5) == s6);

    lemma_apply_cmds_concat(s, p5, rcd);
    let s7 = apply_cmds(s6, rcd);
    lemma_apply_rule_cmds(s6, name, DENY_NAME@, spec_rule_criteria(rs.deny), RuleVerdict::Drop);
    assert(apply_cmds(s, p6) == s7);

    lemma_apply_cmds_concat(s, p6, rcl);
    let s8 = apply_cmds(s7, rcl);
    lemma_apply_rule_cmds(s7, name, LOG_NAME@, spec_rule_criteria(rs.log), RuleVerdict::SendToQueue);
    assert(apply_cmds(s, p7) == s8);

    assert(apply_cmds(s, plan) == s8);
    assert(s8 =~~= s.insert(name, compiled_table(rs)));
}

/// One chain part on a state that holds the table leaves that chain fresh:
/// attributes set, no rules, other chains untouched.
pub proof fn lemma_apply_chain_part(
    s: Map<Seq<char>, TableState>,
    t: Seq<char>,
    c: Seq<char>,
    existed: bool,
    policy: NfChainPolicy,
)
    requires
        s.contains_key(t),
        !s[t].chains.contains_key(c),
    ensures
        apply_cmds(s, chain_part(t, c, existed, policy)) == s.insert(
            t,
            TableState {
                chains: s[t].chains.insert(
                    c,
                    ChainState { priority: CHAIN_PRIORITY as int, policy, rules: Seq::empty() },
                ),
            },
        ),
{
    let create = CmdView::CreateChain { table: t, name: c, priority: CHAIN_PRIORITY as int, policy };
    if existed {
        let del = CmdView::DeleteChain { table: t, name: c };
        assert(chain_part(t, c, existed, policy) =~= seq![del] + seq![create]);
        lemma_apply_cmds_concat(s, seq![del], seq![create]);
        lemma_apply_single(s, del);
        let sd = apply_cmd(s, del);
        assert(sd == s.insert(t, TableState { chains: s[t].chains.remove(c) }));
        assert(s[t].chains.remove(c) =~= s[t].chains);
        assert(sd =~~= s);
        lemma_apply_single(sd, create);
        assert(apply_cmds(s, chain_part(t, c, existed, policy)) == apply_cmd(sd, create));
        assert(apply_cmd(sd, create) =~~= s.insert(
            t,
            TableState {
                chains: s[t].chains.insert(
                    c,
                    ChainState { priority: CHAIN_PRIORITY as int, policy, rules: Seq::empty() },
                ),
            },
        ));
    } else {
        assert(chain_part(t, c, existed, policy) =~= seq![create]);
        lemma_apply_single(s, create);
    }
}

/// Law: reinstalling under the same table name twice leaves only the
/// second rule set's rules; nothing of the first installation remains.
/// After the first install the table exists, so the second plan is
/// compiled with its table flag set.
pub proof fn lemma_reinstall_replaces(
    s: Map<Seq<char>, TableState>,
    name: Seq<char>,
    allow_exists1: bool,
    deny_exists1: bool,
    log_exists1: bool,
    rs1: RuleSetView,
    allow_exists2: bool,
    deny_exists2: bool,
    log_exists2: bool,
    rs2: RuleSetView,
)
    ensures
        apply_cmds(
            apply_cmds(
                s,
                spec_plan(
                    name,
                    s.contains_key(name),
                    allow_exists1,
                    deny_exists1,
                    log_exists1,
                    rs1,
                ),
            ),
            spec_plan(name, true, allow_exists2, deny_exists2, log_exists2, rs2),
        ) == s.insert(name, compiled_table(rs2)),
{
    lemma_install_replaces(s, name, allow_exists1, deny_exists1, log_exists1, rs1);
    let mid = s.insert(name, compiled_table(rs1));
    assert(mid.contains_key(name));
    lemma_install_replaces(mid, name, allow_exists2, deny_exists2, log_exists2, rs2);
    assert(mid.insert(name, compiled_table(rs2)) =~~= s.insert(name, compiled_table(rs2)));
}

/// Law: a rule group with all six sets empty compiles to a chain with no
/// rules at all; the chain and its default policy are still created.
pub proof fn lemma_empty_groups_compile_to_bare_chains(rs: RuleSetView)
    ensures
        compiled_table(rs).chains.contains_key(ALLOW_NAME@),
        compiled_table(rs).chains.contains_key(DENY_NAME@),
        compiled_table(rs).chains.contains_key(LOG_NAME@),
        compiled_table(rs).chains[ALLOW_NAME@].policy == NfChainPolicy::Drop,
        compiled_table(rs).chains[DENY_NAME@].policy == NfChainPolicy::Accept,
        compiled_table(rs).chains[LOG_NAME@].policy == NfChainPolicy::Accept,
        rs.allow.is_empty() ==> compiled_table(rs).chains[ALLOW_NAME@].rules.len() == 0,
        rs.deny.is_empty() ==> compiled_table(rs).chains[DENY_NAME@].rules.len() == 0,
        rs.log.is_empty() ==> compiled_table(rs).chains[LOG_NAME@].rules.len() == 0,
{
    lemma_role_names_distinct();
    if rs.allow.is_empty() {
        lemma_empty_rule_compiles_to_chain_only(rs.allow);
        assert(entries(spec_rule_criteria(rs.allow), RuleVerdict::Accept) =~= Seq::empty());
    }
    if rs.deny.is_empty() {
        lemma_empty_rule_compiles_to_chain_only(rs.deny);
        assert(entries(spec_rule_criteria(rs.deny), RuleVerdict::Drop) =~= Seq::empty());
    }
    if rs.log.is_empty() {
        lemma_empty_rule_compiles_to_chain_only(rs.log);
        assert(entries(spec_rule_criteria(rs.log), RuleVerdict::SendToQueue) =~= Seq::empty());
    }
}

/// A rule group compiles to one rule per address and network element and
/// two per port element.
pub proof fn lemma_criteria_count(r: RuleView)
    ensures
        spec_rule_criteria(r).len() == r.sources.len() + r.destinations.len()
            + r.source_networks.len() + r.destination_networks.len() + 2 * r.dports.len() + 2
            * r.sports.len(),
{
    lemma_addr_criteria_len(r.sources, true);
    lemma_addr_criteria_len(r.destinations, false);
    lemma_net_criteria_len(r.source_networks, true);
    lemma_net_criteria_len(r.destination_networks, false);
    lemma_port_criteria_len(r.dports, false);
    lemma_port_criteria_len(r.sports, true);
}

proof fn lemma_addr_criteria_len(addrs: Seq<IpAddress>, src: bool)
    ensures
        addr_criteria(addrs, src).len() == addrs.len(),
    decreases addrs.len(),
{
    if addrs.len() > 0 {
        lemma_addr_criteria_len(addrs.drop_last(), src);
    }
}

proof fn lemma_net_criteria_len(nets: Seq<IpNet>, src: bool)
    ensures
        net_criteria(nets, src).len() == nets.len(),
    decreases nets.len(),
{
    if nets.len() > 0 {
        lemma_net_criteria_len(nets.drop_last(), src);
    }
}

proof fn lemma_port_criteria_len(ports: Seq<u16>, src: bool)
    ensures
        port_criteria(ports, src).len() == 2 * ports.len(),
    decreases ports.len(),
{
    if ports.len() > 0 {
        lemma_port_criteria_len(ports.drop_last(), src);
    }
}

} // verus!
