use hostwall::engine::{parse_ipv4, parse_ipv6, FirewallEngine, ETHERTYPE_IPV4, ETHERTYPE_IPV6};
use hostwall::interface::InterfaceStats;
use hostwall::rules::{FirewallAction, IpAddress, IpNet, Rule, RuleSet};

fn ipv4_header(src: [u8; 4], dst: [u8; 4]) -> Vec<u8> {
    let mut h = vec![0u8; 20];
    h[0] = 0x45;
    h[12..16].copy_from_slice(&src);
    h[16..20].copy_from_slice(&dst);
    h
}

fn ipv6_header(src: [u8; 16], dst: [u8; 16]) -> Vec<u8> {
    let mut h = vec![0u8; 40];
    h[0] = 0x60;
    h[8..24].copy_from_slice(&src);
    h[24..40].copy_from_slice(&dst);
    h
}

fn empty_ruleset() -> RuleSet {
    RuleSet { allow: Rule::empty(), deny: Rule::empty(), log: Rule::empty() }
}

#[test]
fn ipv4_header_yields_source_and_destination() {
    let h = ipv4_header([1, 2, 3, 4], [5, 6, 7, 8]);
    let (src, dst) = parse_ipv4(&h).unwrap();
    assert_eq!(src, IpAddress::V4(0x0102_0304));
    assert_eq!(dst, IpAddress::V4(0x0506_0708));
}

#[test]
fn short_ipv4_payload_is_rejected() {
    let h = vec![0u8; 19];
    assert!(parse_ipv4(&h).is_none());
    assert!(parse_ipv4(&Vec::new()).is_none());
}

#[test]
fn ipv6_header_yields_source_and_destination() {
    let mut src = [0u8; 16];
    src[0] = 0xfe;
    src[1] = 0x80;
    src[15] = 1;
    let mut dst = [0u8; 16];
    dst[15] = 2;
    let h = ipv6_header(src, dst);
    let (s, d) = parse_ipv6(&h).unwrap();
    assert_eq!(s, IpAddress::V6(0xfe80_0000_0000_0000_0000_0000_0000_0001));
    assert_eq!(d, IpAddress::V6(2));
}

#[test]
fn short_ipv6_payload_is_rejected() {
    let h = vec![0u8; 39];
    assert!(parse_ipv6(&h).is_none());
}

#[test]
fn matched_deny_source_draws_a_deny_verdict_and_a_log_entry() {
    let mut rs = empty_ruleset();
    rs.deny.sources.push(IpAddress::V4(0x0102_0304));
    let mut engine = FirewallEngine::new(rs, FirewallAction::Allow);

    let h = ipv4_header([1, 2, 3, 4], [9, 9, 9, 9]);
    let (verdict, _due) = engine.handle_message(ETHERTYPE_IPV4, &h);
    assert_eq!(verdict, FirewallAction::Deny);
    let records = engine.log.pending_records();
    assert_eq!(records.len(), 1);
    assert!(records[0].starts_with("id: 1\nprotocol: IPv4\nsource: 1.2.3.4\n"));
}

#[test]
fn allow_wins_over_deny_and_log() {
    let mut rs = empty_ruleset();
    rs.allow.destinations.push(IpAddress::V4(7));
    rs.deny.destinations.push(IpAddress::V4(7));
    rs.log.destinations.push(IpAddress::V4(7));
    let mut engine = FirewallEngine::new(rs, FirewallAction::Deny);
    let h = ipv4_header([0, 0, 0, 1], [0, 0, 0, 7]);
    let (verdict, _) = engine.handle_message(ETHERTYPE_IPV4, &h);
    assert_eq!(verdict, FirewallAction::Allow);
}

#[test]
fn unmatched_packet_falls_back_to_the_default() {
    let mut engine = FirewallEngine::new(empty_ruleset(), FirewallAction::Log);
    let h = ipv4_header([1, 1, 1, 1], [2, 2, 2, 2]);
    let (verdict, _) = engine.handle_message(ETHERTYPE_IPV4, &h);
    assert_eq!(verdict, FirewallAction::Log);
}

#[test]
fn ipv6_packet_is_logged_with_its_protocol_label() {
    let mut rs = empty_ruleset();
    rs.log.sources.push(IpAddress::V6(5));
    let mut engine = FirewallEngine::new(rs, FirewallAction::Allow);
    let mut src = [0u8; 16];
    src[15] = 5;
    let h = ipv6_header(src, [0u8; 16]);
    let (verdict, _) = engine.handle_message(ETHERTYPE_IPV6, &h);
    assert_eq!(verdict, FirewallAction::Log);
    let records = engine.log.pending_records();
    assert_eq!(records.len(), 1);
    assert!(records[0].contains("protocol: IPv6\n"));
    assert!(records[0].contains("source: 0:0:0:0:0:0:0:5\n"));
}

#[test]
fn malformed_packet_is_skipped_and_gets_the_default_verdict() {
    let mut engine = FirewallEngine::new(empty_ruleset(), FirewallAction::Deny);
    let (verdict, due) = engine.handle_message(ETHERTYPE_IPV4, &vec![0u8; 3]);
    assert_eq!(verdict, FirewallAction::Deny);
    assert!(!due);
    assert_eq!(engine.log.pending_records().len(), 0);
}

#[test]
fn unknown_link_protocol_is_skipped_and_gets_the_default_verdict() {
    let mut engine = FirewallEngine::new(empty_ruleset(), FirewallAction::Allow);
    let (verdict, _) = engine.handle_message(0x0806, &vec![0u8; 64]);
    assert_eq!(verdict, FirewallAction::Allow);
    assert_eq!(engine.log.pending_records().len(), 0);
    assert_eq!(engine.handle_other(), FirewallAction::Allow);
}

#[test]
fn entry_ids_reflect_arrival_order() {
    let mut engine = FirewallEngine::new(empty_ruleset(), FirewallAction::Allow);
    for _ in 0..3 {
        let h = ipv4_header([1, 1, 1, 1], [2, 2, 2, 2]);
        let _ = engine.handle_message(ETHERTYPE_IPV4, &h);
    }
    let records = engine.log.pending_records();
    assert_eq!(records.len(), 3);
    assert!(records[0].starts_with("id: 1\n"));
    assert!(records[1].starts_with("id: 2\n"));
    assert!(records[2].starts_with("id: 3\n"));
}

#[test]
fn interface_stats_count_independently() {
    let mut stats = InterfaceStats::new(String::from("eth0"));
    stats.add_total();
    stats.add_total();
    stats.add_allow();
    stats.add_deny();
    stats.add_log();
    stats.add_total();
    assert_eq!(stats.total_packets, 3);
    assert_eq!(stats.matched_allow, 1);
    assert_eq!(stats.matched_deny, 1);
    assert_eq!(stats.matched_log, 1);
    assert_eq!(
        stats.summary(),
        "Packets stats for eth0:\ntotal: 3\nmatched allowed: 1\nmatched deny: 1\nmatched log: 1"
    );
}

#[test]
fn rule_matching_checks_sources_and_destinations() {
    let mut rs = empty_ruleset();
    rs.allow.sources.push(IpAddress::V4(1));
    rs.allow.destinations.push(IpAddress::V4(2));
    assert!(rs.matches_allow(&IpAddress::V4(1)));
    assert!(rs.matches_allow(&IpAddress::V4(2)));
    assert!(!rs.matches_allow(&IpAddress::V4(3)));
    assert!(!rs.matches_deny(&IpAddress::V4(1)));
    assert!(rs.allow.contains_addr(&IpAddress::V4(1)));
    assert!(!rs.log.contains_addr(&IpAddress::V4(1)));
}

#[test]
fn well_formed_rule_sets_are_recognized() {
    let mut rs = empty_ruleset();
    rs.allow.sources.push(IpAddress::V4(1));
    rs.allow.sources.push(IpAddress::V4(2));
    rs.deny.dports.push(22);
    assert!(rs.is_wf());
    assert!(rs.allow.is_wf());

    rs.allow.sources.push(IpAddress::V4(1));
    assert!(!rs.allow.is_wf());
    assert!(!rs.is_wf());
}

#[test]
fn out_of_range_prefix_makes_a_rule_malformed() {
    let mut rs = empty_ruleset();
    rs.log.source_networks.push(IpNet { addr: IpAddress::V4(1), prefix: 24 });
    assert!(rs.log.is_wf());
    rs.log.source_networks.push(IpNet { addr: IpAddress::V4(2), prefix: 33 });
    assert!(!rs.log.is_wf());
    rs.log.source_networks.pop();
    rs.log.source_networks.push(IpNet { addr: IpAddress::V6(2), prefix: 64 });
    assert!(rs.log.is_wf());
}

#[test]
fn duplicate_ports_make_a_rule_malformed() {
    let mut rs = empty_ruleset();
    rs.deny.dports.push(22);
    rs.deny.dports.push(443);
    assert!(rs.deny.is_wf());
    rs.deny.dports.push(22);
    assert!(!rs.deny.is_wf());
}
