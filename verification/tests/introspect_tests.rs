use hostwall::introspect::{
    build_tree, expand_chain, expand_rule, expand_table, format_expr, get_table_names, get_tables,
    process_chain, process_rule, ChainListing, FlatObject, RuleListing, TableListing,
};
use hostwall::netlink::NlMessage;
use hostwall::statement::{Expression, Match, Operator, Statement};
use hostwall::types::{NfChainPolicy, NfChainType, NfFamily, NfHook};

fn table(name: &str) -> FlatObject {
    FlatObject::Table(TableListing { family: NfFamily::INet, name: String::from(name) })
}

fn chain(table: &str, name: &str) -> FlatObject {
    FlatObject::Chain(ChainListing {
        family: NfFamily::INet,
        table: String::from(table),
        name: String::from(name),
        chain_type: NfChainType::Filter,
        hook: NfHook::Input,
        priority: 3,
        policy: NfChainPolicy::Accept,
    })
}

fn rule(table: &str, chain: &str, n: u64) -> FlatObject {
    FlatObject::Rule(RuleListing {
        family: NfFamily::INet,
        table: String::from(table),
        chain: String::from(chain),
        statements: vec![Statement::Match(Match {
            left: Expression::Number(n),
            op: Operator::Eq,
            right: Expression::Number(n),
        })],
    })
}

#[test]
fn two_tables_one_chain_each_with_zero_and_three_rules() {
    let objs = vec![
        table("t1"),
        table("t2"),
        chain("t1", "c1"),
        chain("t2", "c2"),
        rule("t2", "c2", 1),
        rule("t2", "c2", 2),
        rule("t2", "c2", 3),
    ];
    let tree = build_tree(&objs);

    assert_eq!(tree.len(), 2);
    assert_eq!(tree[0].label, "t1");
    assert_eq!(tree[1].label, "t2");

    assert_eq!(tree[0].children.len(), 1);
    assert_eq!(tree[1].children.len(), 1);
    assert_eq!(tree[0].children[0].children.len(), 0);
    assert_eq!(tree[1].children[0].children.len(), 3);

    // Each chain label includes its type, priority, family, and policy.
    assert_eq!(tree[0].children[0].label, "c1: filter 3 inet accept");
    assert_eq!(tree[1].children[0].label, "c2: filter 3 inet accept");

    assert_eq!(tree[1].children[0].children[0].label, "1 equal to 1");
    assert_eq!(tree[1].children[0].children[1].label, "2 equal to 2");
    assert_eq!(tree[1].children[0].children[2].label, "3 equal to 3");
}

#[test]
fn node_ids_are_listing_positions_and_pairwise_distinct() {
    let objs = vec![
        table("t1"),
        table("t2"),
        chain("t1", "c1"),
        chain("t2", "c2"),
        rule("t2", "c2", 1),
        rule("t2", "c2", 2),
        rule("t2", "c2", 3),
    ];
    let tree = build_tree(&objs);
    let mut ids = vec![];
    for t in &tree {
        ids.push(t.id);
        for c in &t.children {
            ids.push(c.id);
            for r in &c.children {
                ids.push(r.id);
            }
        }
    }
    assert_eq!(ids, vec![0, 2, 1, 3, 4, 5, 6]);
    let mut sorted = ids.clone();
    sorted.sort();
    sorted.dedup();
    assert_eq!(sorted.len(), ids.len());
}

#[test]
fn chains_join_their_table_by_name() {
    let objs = vec![table("a"), table("b"), chain("b", "only-b")];
    let tree = build_tree(&objs);
    assert_eq!(tree[0].children.len(), 0);
    assert_eq!(tree[1].children.len(), 1);
    assert_eq!(tree[1].children[0].label, "only-b: filter 3 inet accept");
}

#[test]
fn rules_join_by_chain_name_and_table_name_together() {
    // Two tables each own a chain named "c"; the rule under t2's chain
    // must not appear under t1's.
    let objs = vec![table("t1"), table("t2"), chain("t1", "c"), chain("t2", "c"), rule("t2", "c", 9)];
    let tree = build_tree(&objs);
    assert_eq!(tree[0].children[0].children.len(), 0);
    assert_eq!(tree[1].children[0].children.len(), 1);
}

#[test]
fn unknown_listing_objects_are_ignored() {
    let objs = vec![FlatObject::Unknown, table("t"), FlatObject::Unknown];
    let tree = build_tree(&objs);
    assert_eq!(tree.len(), 1);
    assert_eq!(tree[0].id, 1);
}

#[test]
fn empty_listing_yields_an_empty_tree() {
    let tree = build_tree(&Vec::new());
    assert!(tree.is_empty());
}

#[test]
fn table_names_come_back_in_listing_order() {
    let objs = vec![table("x"), chain("x", "c"), table("y")];
    assert_eq!(get_table_names(&objs), vec![String::from("x"), String::from("y")]);
}

#[test]
fn expand_table_collects_the_joined_chains() {
    let objs = vec![table("t"), chain("t", "c1"), chain("other", "c2"), chain("t", "c3")];
    let chains = expand_table(&objs, &String::from("t"));
    assert_eq!(chains.len(), 2);
    assert_eq!(chains[0].name, "c1");
    assert_eq!(chains[1].name, "c3");
    assert_eq!(chains[0].priority, 3);
    assert!(matches!(chains[0].policy, NfChainPolicy::Accept));
    assert!(matches!(chains[0].hook_class, NfHook::Input));
}

#[test]
fn expand_chain_renders_each_rule() {
    let objs = vec![table("t"), chain("t", "c"), rule("t", "c", 4), rule("t", "c", 5)];
    let rendered = expand_chain(&objs, &String::from("c"), &String::from("t"));
    assert_eq!(rendered, vec![String::from("4 equal to 4"), String::from("5 equal to 5")]);
}

#[test]
fn expand_rule_joins_all_statements() {
    let listing = RuleListing {
        family: NfFamily::IP,
        table: String::from("t"),
        chain: String::from("c"),
        statements: vec![
            Statement::Match(Match {
                left: Expression::Number(1),
                op: Operator::Lt,
                right: Expression::Number(2),
            }),
            Statement::Unknown,
        ],
    };
    assert_eq!(expand_rule(&listing), "1 less than 2 todo");
}

#[test]
fn format_expr_renders_the_leading_statement_only() {
    let stmts = vec![
        Statement::Match(Match {
            left: Expression::Number(8),
            op: Operator::Gt,
            right: Expression::Number(7),
        }),
        Statement::Unknown,
    ];
    assert_eq!(format_expr(&stmts), "8 greater than 7");
    assert_eq!(format_expr(&Vec::new()), "");
}

#[test]
fn get_tables_joins_tables_to_their_chains() {
    let objs = vec![table("t1"), table("t2"), chain("t1", "a"), chain("t1", "b")];
    let tables = get_tables(&objs);
    assert_eq!(tables.len(), 2);
    assert_eq!(tables[0].name, "t1");
    assert_eq!(tables[0].chains.len(), 2);
    assert_eq!(tables[1].chains.len(), 0);
    assert!(matches!(tables[0].family, NfFamily::INet));
}

#[test]
fn process_chain_and_process_rule_carry_fields_over() {
    let cl = ChainListing {
        family: NfFamily::IP6,
        table: String::from("t"),
        name: String::from("c"),
        chain_type: NfChainType::Route,
        hook: NfHook::Forward,
        priority: -450,
        policy: NfChainPolicy::Drop,
    };
    let fc = process_chain(&cl);
    assert_eq!(fc.name, "c");
    assert!(matches!(fc.chain_type, NfChainType::Route));
    assert!(matches!(fc.hook_class, NfHook::Forward));
    assert_eq!(fc.priority, -450);
    assert!(matches!(fc.policy, NfChainPolicy::Drop));

    let rl = RuleListing {
        family: NfFamily::IP,
        table: String::from("t"),
        chain: String::from("c"),
        statements: vec![Statement::Unknown],
    };
    let fr = process_rule(rl);
    assert!(matches!(fr.family, NfFamily::IP));
    assert_eq!(fr.statements.len(), 1);
}

#[test]
fn negative_priority_renders_with_its_sign() {
    let objs = vec![
        table("t"),
        FlatObject::Chain(ChainListing {
            family: NfFamily::IP,
            table: String::from("t"),
            name: String::from("early"),
            chain_type: NfChainType::Filter,
            hook: NfHook::Prerouting,
            priority: -450,
            policy: NfChainPolicy::Accept,
        }),
    ];
    let tree = build_tree(&objs);
    assert_eq!(tree[0].children[0].label, "early: filter -450 ipv4 accept");
}

#[test]
fn nl_message_wraps_its_buffer() {
    let buf = vec![1u8, 2, 3];
    let msg = NlMessage::new(&buf);
    assert_eq!(msg.buf.len(), 3);
    assert_eq!(msg.buf[0], 1);
}
