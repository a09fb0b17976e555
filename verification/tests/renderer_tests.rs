use hostwall::statement::{
    Counter, CounterData, CtDir, Expression, IpFamily, Match, MetaKey, NamedExpression, Operator,
    Payload, PayloadBase, RtKey, SetItem, Statement, Verdict,
};
use hostwall::statement::{
    CounterDisplay, ExprDisplay, MatchExprDisplay, NamedExprDisplay, OpDisplay, SetItemDisplay,
    StatementDisplay, VerdictDisplay,
};
use hostwall::types::{
    ChainHookDisplay, ChainPolicyDisplay, ChainTypeDisplay, FamilyDisplay, NfChainPolicy,
    NfChainType, NfFamily, NfHook,
};

#[test]
fn match_of_two_numbers_renders_with_operator_phrase() {
    let stmt = Statement::Match(Match {
        left: Expression::Number(5),
        op: Operator::Eq,
        right: Expression::Number(10),
    });
    assert_eq!(stmt.display_statement(), "5 equal to 10");
}

#[test]
fn unknown_statement_renders_to_placeholder() {
    let stmt = Statement::Unknown;
    assert_eq!(stmt.display_statement(), "todo");
}

#[test]
fn unknown_expression_and_named_expression_render_to_placeholder() {
    assert_eq!(Expression::Unknown.display_expr(), "todo");
    assert_eq!(NamedExpression::Unknown.display_named_expr(), "todo");
    assert_eq!(Verdict::Unknown.display_verdict(), "todo");
}

#[test]
fn operator_phrases() {
    assert_eq!(Operator::Or.display_op(), "or");
    assert_eq!(Operator::And.display_op(), "and");
    assert_eq!(Operator::Eq.display_op(), "equal to");
    assert_eq!(Operator::Lt.display_op(), "less than");
    assert_eq!(Operator::Gt.display_op(), "greater than");
    assert_eq!(Operator::In.display_op(), "is in");
    assert_eq!(Operator::Xor.display_op(), "xor");
    assert_eq!(Operator::Neq.display_op(), "not equal to");
    assert_eq!(Operator::Leq.display_op(), "less than or equal to");
    assert_eq!(Operator::Geq.display_op(), "greater than or equal to");
    assert_eq!(Operator::Lshift.display_op(), "<<");
    assert_eq!(Operator::Rshift.display_op(), ">>");
}

#[test]
fn meta_keys_render_to_phrases() {
    assert_eq!(NamedExpression::Meta { key: MetaKey::Iifname }.display_named_expr(), "input interface name");
    assert_eq!(NamedExpression::Meta { key: MetaKey::Oif }.display_named_expr(), "output interface index");
    assert_eq!(NamedExpression::Meta { key: MetaKey::Skgid }.display_named_expr(), "GID");
    assert_eq!(NamedExpression::Meta { key: MetaKey::L4proto }.display_named_expr(), "L4 proto");
    assert_eq!(NamedExpression::Meta { key: MetaKey::Unknown }.display_named_expr(), "todo");
}

#[test]
fn routing_expression_renders_key_then_family() {
    let with_family = NamedExpression::Rt { key: RtKey::Mtu, family: Some(IpFamily::Ip) };
    assert_eq!(with_family.display_named_expr(), "MTU ipv4");
    let without_family = NamedExpression::Rt { key: RtKey::NextHop, family: None };
    assert_eq!(without_family.display_named_expr(), "NextHop ");
}

#[test]
fn conntrack_expression_appends_family_and_direction() {
    let full = NamedExpression::Ct {
        key: String::from("state"),
        family: Some(IpFamily::Ip6),
        dir: Some(CtDir::Reply),
    };
    assert_eq!(full.display_named_expr(), "state ipv6 reply");
    let bare = NamedExpression::Ct { key: String::from("mark"), family: None, dir: None };
    assert_eq!(bare.display_named_expr(), "mark");
    let original = NamedExpression::Ct {
        key: String::from("state"),
        family: None,
        dir: Some(CtDir::Original),
    };
    assert_eq!(original.display_named_expr(), "state original");
}

#[test]
fn payload_field_renders_field_then_protocol() {
    let p = NamedExpression::Payload(Payload::Field {
        protocol: String::from("tcp"),
        field: String::from("dport"),
    });
    assert_eq!(p.display_named_expr(), "dport tcp");
}

#[test]
fn payload_raw_renders_base_offset_and_length() {
    let p = NamedExpression::Payload(Payload::Raw { base: PayloadBase::TH, offset: 16, len: 32 });
    assert_eq!(p.display_named_expr(), "at TH + 16 for 32 bits");
}

#[test]
fn tcp_option_renders_name_and_optional_field() {
    let with_field = NamedExpression::TcpOption {
        name: String::from("maxseg"),
        field: Some(String::from("size")),
    };
    assert_eq!(with_field.display_named_expr(), "maxseg size");
    let without_field = NamedExpression::TcpOption { name: String::from("sack"), field: None };
    assert_eq!(without_field.display_named_expr(), "sack");
}

#[test]
fn set_renders_space_joined_elements_in_braces() {
    let set = NamedExpression::SetExpr(vec![
        SetItem::Element(Expression::Number(1)),
        SetItem::Element(Expression::Number(2)),
        SetItem::Element(Expression::Number(3)),
    ]);
    assert_eq!(set.display_named_expr(), "{1 2 3}");
}

#[test]
fn empty_set_renders_to_bare_braces() {
    let set = NamedExpression::SetExpr(Vec::new());
    assert_eq!(set.display_named_expr(), "{}");
}

#[test]
fn set_mapping_and_mapping_statement_render() {
    let mapping = SetItem::Mapping(Expression::Number(1), Expression::Str(String::from("x")));
    assert_eq!(mapping.display_set_item(), "{1}, {x}");
    let ms = SetItem::MappingStatement(Expression::Number(7), Statement::Unknown);
    assert_eq!(ms.display_set_item(), "7 -> todo");
}

#[test]
fn list_renders_space_joined_elements() {
    let list = Expression::List(vec![
        Expression::Str(String::from("a")),
        Expression::Number(9),
        Expression::Verdict(Verdict::Accept),
    ]);
    assert_eq!(list.display_expr(), "a 9 accept");
}

#[test]
fn verdicts_render() {
    assert_eq!(Verdict::Accept.display_verdict(), "accept");
    assert_eq!(Verdict::Drop.display_verdict(), "drop");
    assert_eq!(Verdict::Return.display_verdict(), "return");
}

#[test]
fn named_counter_renders_name_after_keyword() {
    let c = Counter::Named(String::from("hits"));
    assert_eq!(c.display_counter(), "counterhits");
}

#[test]
fn anonymous_counter_renders_tallies_with_zero_defaults() {
    let full = Counter::Anonymous(Some(CounterData { packets: Some(5), bytes: Some(100) }));
    assert_eq!(full.display_counter(), "counter 5 packets 100 bytes");
    let partial = Counter::Anonymous(Some(CounterData { packets: None, bytes: Some(1) }));
    assert_eq!(partial.display_counter(), "counter 0 packets 1 bytes");
    let absent = Counter::Anonymous(None);
    assert_eq!(absent.display_counter(), "");
}

#[test]
fn counter_statement_renders_through_statement_display() {
    let stmt = Statement::Counter(Counter::Anonymous(Some(CounterData {
        packets: Some(2),
        bytes: None,
    })));
    assert_eq!(stmt.display_statement(), "counter 2 packets 0 bytes");
}

#[test]
fn match_display_on_its_own_renders_placeholder() {
    let m = Match { left: Expression::Number(1), op: Operator::Eq, right: Expression::Number(2) };
    assert_eq!(m.display_match_expr(), "todo");
}

#[test]
fn nested_set_inside_match_renders_recursively() {
    let stmt = Statement::Match(Match {
        left: Expression::Named(NamedExpression::Meta { key: MetaKey::Iifname }),
        op: Operator::In,
        right: Expression::Named(NamedExpression::SetExpr(vec![
            SetItem::Element(Expression::Str(String::from("lo"))),
            SetItem::Element(Expression::Str(String::from("eth0"))),
        ])),
    });
    assert_eq!(stmt.display_statement(), "input interface name is in {lo eth0}");
}

#[test]
fn family_chain_type_policy_and_hook_texts() {
    assert_eq!(NfFamily::IP.display_family(), "ipv4");
    assert_eq!(NfFamily::IP6.display_family(), "ipv6");
    assert_eq!(NfFamily::ARP.display_family(), "arp");
    assert_eq!(NfFamily::INet.display_family(), "inet");
    assert_eq!(NfFamily::Bridge.display_family(), "bridge");
    assert_eq!(NfFamily::NetDev.display_family(), "netdev");
    assert_eq!(NfChainType::NAT.display_chain_type(), "nat");
    assert_eq!(NfChainType::Filter.display_chain_type(), "filter");
    assert_eq!(NfChainType::Route.display_chain_type(), "route");
    assert_eq!(NfChainPolicy::Accept.display_chain_policy(), "accept");
    assert_eq!(NfChainPolicy::Drop.display_chain_policy(), "drop");
    assert_eq!(NfHook::Input.display_chain_hook(), "input");
    assert_eq!(NfHook::Postrouting.display_chain_hook(), "postrouting");
    assert_eq!(NfHook::Egress.display_chain_hook(), "egress");
}

#[test]
fn string_and_number_expressions_render_directly() {
    assert_eq!(Expression::Str(String::from("eth1")).display_expr(), "eth1");
    assert_eq!(Expression::Number(0).display_expr(), "0");
    assert_eq!(Expression::Number(65535).display_expr(), "65535");
}

#[test]
fn large_and_small_numbers_render_in_decimal() {
    assert_eq!(Expression::Number(u64::MAX).display_expr(), "18446744073709551615");
    assert_eq!(Expression::Number(10).display_expr(), "10");
}
