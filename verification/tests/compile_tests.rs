use hostwall::compile::{create_new_table, Criterion, NetCommand, RuleVerdict, ALLOW_NAME, DENY_NAME, LOG_NAME};
use hostwall::rules::{IpAddress, IpNet, Rule, RuleSet};
use hostwall::types::NfChainPolicy;

fn rule_cmds_for<'a>(plan: &'a [NetCommand], chain_name: &str) -> Vec<&'a NetCommand> {
    plan.iter()
        .filter(|c| match c {
            NetCommand::CreateRule { chain, .. } => chain == chain_name,
            _ => false,
        })
        .collect()
}

fn empty_ruleset() -> RuleSet {
    RuleSet {
        allow: Rule::empty(),
        deny: Rule::empty(),
        log: Rule::empty(),
    }
}

#[test]
fn one_allow_source_and_one_deny_dport_compile_to_three_rules() {
    let mut rs = empty_ruleset();
    // 1.2.3.4 as a big-endian value.
    rs.allow.sources.push(IpAddress::V4(0x0102_0304));
    rs.deny.dports.push(22);

    let plan = create_new_table("fw", &Vec::new(), &Vec::new(), &rs);

    let allow_rules = rule_cmds_for(&plan, ALLOW_NAME);
    assert_eq!(allow_rules.len(), 1);
    match allow_rules[0] {
        NetCommand::CreateRule { table, criterion, verdict, .. } => {
            assert_eq!(table, "fw");
            assert!(matches!(criterion, Criterion::SrcAddr(IpAddress::V4(0x0102_0304))));
            assert!(matches!(verdict, RuleVerdict::Accept));
        }
        _ => unreachable!(),
    }

    let deny_rules = rule_cmds_for(&plan, DENY_NAME);
    assert_eq!(deny_rules.len(), 2);
    match deny_rules[0] {
        NetCommand::CreateRule { criterion, verdict, .. } => {
            assert!(matches!(criterion, Criterion::DstPort { port: 22, tcp: true }));
            assert!(matches!(verdict, RuleVerdict::Drop));
        }
        _ => unreachable!(),
    }
    match deny_rules[1] {
        NetCommand::CreateRule { criterion, verdict, .. } => {
            assert!(matches!(criterion, Criterion::DstPort { port: 22, tcp: false }));
            assert!(matches!(verdict, RuleVerdict::Drop));
        }
        _ => unreachable!(),
    }

    assert_eq!(rule_cmds_for(&plan, LOG_NAME).len(), 0);
}

#[test]
fn empty_rule_compiles_to_chain_without_rules() {
    let rs = empty_ruleset();
    let plan = create_new_table("fw", &Vec::new(), &Vec::new(), &rs);

    assert_eq!(rule_cmds_for(&plan, ALLOW_NAME).len(), 0);
    assert_eq!(rule_cmds_for(&plan, DENY_NAME).len(), 0);
    assert_eq!(rule_cmds_for(&plan, LOG_NAME).len(), 0);

    // The three chains and their policies are still created.
    let chains: Vec<(&str, &NfChainPolicy)> = plan
        .iter()
        .filter_map(|c| match c {
            NetCommand::CreateChain { name, policy, .. } => Some((name.as_str(), policy)),
            _ => None,
        })
        .collect();
    assert_eq!(chains.len(), 3);
    assert_eq!(chains[0].0, ALLOW_NAME);
    assert!(matches!(chains[0].1, NfChainPolicy::Drop));
    assert_eq!(chains[1].0, DENY_NAME);
    assert!(matches!(chains[1].1, NfChainPolicy::Accept));
    assert_eq!(chains[2].0, LOG_NAME);
    assert!(matches!(chains[2].1, NfChainPolicy::Accept));
}

#[test]
fn fresh_install_emits_no_deletes() {
    let rs = empty_ruleset();
    let plan = create_new_table("fw", &Vec::new(), &Vec::new(), &rs);
    assert!(plan
        .iter()
        .all(|c| !matches!(c, NetCommand::DeleteTable { .. } | NetCommand::DeleteChain { .. })));
    assert!(matches!(&plan[0], NetCommand::CreateTable { name } if name == "fw"));
}

#[test]
fn reinstall_deletes_existing_table_first() {
    let rs = empty_ruleset();
    let existing_tables = vec![String::from("other"), String::from("fw")];
    let plan = create_new_table("fw", &existing_tables, &Vec::new(), &rs);
    assert!(matches!(&plan[0], NetCommand::DeleteTable { name } if name == "fw"));
    assert!(matches!(&plan[1], NetCommand::CreateTable { name } if name == "fw"));
}

#[test]
fn reinstall_deletes_existing_chains_before_creating_them() {
    let rs = empty_ruleset();
    let existing_chains = vec![String::from(ALLOW_NAME), String::from(LOG_NAME)];
    let plan = create_new_table("fw", &Vec::new(), &existing_chains, &rs);

    let mut it = plan.iter();
    assert!(matches!(it.next().unwrap(), NetCommand::CreateTable { .. }));
    assert!(matches!(it.next().unwrap(), NetCommand::DeleteChain { name, .. } if name == ALLOW_NAME));
    assert!(matches!(it.next().unwrap(), NetCommand::CreateChain { name, .. } if name == ALLOW_NAME));
    assert!(matches!(it.next().unwrap(), NetCommand::CreateChain { name, .. } if name == DENY_NAME));
    assert!(matches!(it.next().unwrap(), NetCommand::DeleteChain { name, .. } if name == LOG_NAME));
    assert!(matches!(it.next().unwrap(), NetCommand::CreateChain { name, .. } if name == LOG_NAME));
    assert!(it.next().is_none());
}

#[test]
fn ports_compile_to_tcp_and_udp_rules_per_element() {
    let mut rs = empty_ruleset();
    rs.allow.dports.push(80);
    rs.allow.dports.push(443);
    rs.allow.sports.push(1000);

    let plan = create_new_table("fw", &Vec::new(), &Vec::new(), &rs);
    let allow_rules = rule_cmds_for(&plan, ALLOW_NAME);
    assert_eq!(allow_rules.len(), 6);
    let crits: Vec<&Criterion> = allow_rules
        .iter()
        .map(|c| match c {
            NetCommand::CreateRule { criterion, .. } => criterion,
            _ => unreachable!(),
        })
        .collect();
    assert!(matches!(crits[0], Criterion::DstPort { port: 80, tcp: true }));
    assert!(matches!(crits[1], Criterion::DstPort { port: 80, tcp: false }));
    assert!(matches!(crits[2], Criterion::DstPort { port: 443, tcp: true }));
    assert!(matches!(crits[3], Criterion::DstPort { port: 443, tcp: false }));
    assert!(matches!(crits[4], Criterion::SrcPort { port: 1000, tcp: true }));
    assert!(matches!(crits[5], Criterion::SrcPort { port: 1000, tcp: false }));
}

#[test]
fn criteria_follow_field_order_within_a_chain() {
    let mut rs = empty_ruleset();
    rs.log.sources.push(IpAddress::V4(1));
    rs.log.destinations.push(IpAddress::V4(2));
    rs.log.source_networks.push(IpNet { addr: IpAddress::V4(3), prefix: 24 });
    rs.log.destination_networks.push(IpNet { addr: IpAddress::V6(4), prefix: 64 });
    rs.log.dports.push(53);
    rs.log.sports.push(123);

    let plan = create_new_table("fw", &Vec::new(), &Vec::new(), &rs);
    let log_rules = rule_cmds_for(&plan, LOG_NAME);
    assert_eq!(log_rules.len(), 8);
    let crits: Vec<&Criterion> = log_rules
        .iter()
        .map(|c| match c {
            NetCommand::CreateRule { criterion, verdict, .. } => {
                assert!(matches!(verdict, RuleVerdict::SendToQueue));
                criterion
            }
            _ => unreachable!(),
        })
        .collect();
    assert!(matches!(crits[0], Criterion::SrcAddr(IpAddress::V4(1))));
    assert!(matches!(crits[1], Criterion::DstAddr(IpAddress::V4(2))));
    assert!(matches!(crits[2], Criterion::SrcNet(IpNet { addr: IpAddress::V4(3), prefix: 24 })));
    assert!(matches!(crits[3], Criterion::DstNet(IpNet { addr: IpAddress::V6(4), prefix: 64 })));
    assert!(matches!(crits[4], Criterion::DstPort { port: 53, tcp: true }));
    assert!(matches!(crits[5], Criterion::DstPort { port: 53, tcp: false }));
    assert!(matches!(crits[6], Criterion::SrcPort { port: 123, tcp: true }));
    assert!(matches!(crits[7], Criterion::SrcPort { port: 123, tcp: false }));
}

#[test]
fn rule_commands_carry_table_and_chain_names() {
    let mut rs = empty_ruleset();
    rs.deny.sources.push(IpAddress::V6(0xfe80_0000_0000_0000_0000_0000_0000_0001));
    let plan = create_new_table("edge", &Vec::new(), &Vec::new(), &rs);
    let deny_rules = rule_cmds_for(&plan, DENY_NAME);
    assert_eq!(deny_rules.len(), 1);
    match deny_rules[0] {
        NetCommand::CreateRule { table, chain, criterion, .. } => {
            assert_eq!(table, "edge");
            assert_eq!(chain, DENY_NAME);
            assert!(matches!(
                criterion,
                Criterion::SrcAddr(IpAddress::V6(0xfe80_0000_0000_0000_0000_0000_0000_0001))
            ));
        }
        _ => unreachable!(),
    }
}
