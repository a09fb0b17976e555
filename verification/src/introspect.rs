//! The ruleset introspector: joins the kernel's flat listing of tables,
//! chains and rules into a table, chain, rule tree for display.
//!
//! The listing arrives flat, not pre-nested. Chains join their table by
//! table name, rules join their chain by chain name together with the
//! table name, since chain names need not be unique across tables. Each
//! node's identifier is the position of its listing object, so identifiers
//! are stable within one snapshot and distinct nodes of a listing with
//! unique names never share one. Tables without chains and chains without
//! rules are ordinary leafless nodes, not errors. Reading the listing from
//! the kernel is the caller's transport; it hands the listing in as plain
//! values.

use vstd::prelude::*;
use vstd::string::StringExecFns;
use crate::numfmt::{i64_dec, spec_dec_signed};
use crate::statement::{spec_statement_text, render_statement, Statement};
use crate::types::{
    ChainPolicyDisplay, ChainTypeDisplay, FamilyDisplay, NfChainPolicy, NfChainType, NfFamily,
    NfHook,
};

verus! {

/// One table of the flat listing.
#[derive(Debug, Clone)]
pub struct TableListing {
    pub family: NfFamily,
    pub name: String,
}

/// One chain of the flat listing, carrying its owning table's name.
#[derive(Debug, Clone)]
pub struct ChainListing {
    pub family: NfFamily,
    pub table: String,
    pub name: String,
    pub chain_type: NfChainType,
    pub hook: NfHook,
    pub priority: i32,
    pub policy: NfChainPolicy,
}

/// One rule of the flat listing, carrying its owning table and chain.
#[derive(Debug)]
pub struct RuleListing {
    pub family: NfFamily,
    pub table: String,
    pub chain: String,
    pub statements: Vec<Statement>,
}

/// One object of the flat listing, with a fallback for kinds outside the
/// known set.
#[derive(Debug)]
pub enum FlatObject {
    Table(TableListing),
    Chain(ChainListing),
    Rule(RuleListing),
    Unknown,
}

/// A chain joined to its table.
#[derive(Debug, Clone)]
pub struct FirewallChain {
    pub name: String,
    pub chain_type: NfChainType,
    pub hook_class: NfHook,
    pub priority: i32,
    pub policy: NfChainPolicy,
}

/// A rule lifted out of the listing.
#[derive(Debug)]
pub struct FirewallRule {
    pub family: NfFamily,
    pub statements: Vec<Statement>,
}

/// A table joined to its chains.
#[derive(Debug, Clone)]
pub struct FirewallTable {
    pub name: String,
    pub family: NfFamily,
    pub chains: Vec<FirewallChain>,
}

/// One node of the display tree.
#[derive(Debug)]
pub struct TreeNode {
    pub id: usize,
    pub label: String,
    pub children: Vec<TreeNode>,
}

/// The positions of the listing's table objects, in listing order.
pub open spec fn table_positions(objs: Seq<FlatObject>) -> Seq<int>
    decreases objs.len(),
{
    if objs.len() == 0 {
        Seq::empty()
    } else {
        table_positions(objs.drop_last()) + (if objs.last() is Table {
            seq![objs.len() - 1]
        } else {
            Seq::empty()
        })
    }
}

/// The positions of the chains owned by the named table.
pub open spec fn chain_positions(objs: Seq<FlatObject>, table: Seq<char>) -> Seq<int>
    decreases objs.len(),
{
    if objs.len() == 0 {
        Seq::empty()
    } else {
        chain_positions(objs.drop_last(), table) + (if objs.last() matches FlatObject::Chain(c)
            && c.table@ == table {
            seq![objs.len() - 1]
        } else {
            Seq::empty()
        })
    }
}

/// The positions of the rules owned by the named chain of the named table.
pub open spec fn rule_positions(
    objs: Seq<FlatObject>,
    table: Seq<char>,
    chain: Seq<char>,
) -> Seq<int>
    decreases objs.len(),
{
    if objs.len() == 0 {
        Seq::empty()
    } else {
        rule_positions(objs.drop_last(), table, chain) + (if objs.last() matches FlatObject::Rule(
            r,
        ) && r.table@ == table && r.chain@ == chain {
            seq![objs.len() - 1]
        } else {
            Seq::empty()
        })
    }
}

/// The label of a rule leaf: its first statement rendered, or nothing for
/// a rule the kernel reports without statements.
pub open spec fn spec_rule_label(r: RuleListing) -> Seq<char> {
    if r.statements@.len() > 0 {
        spec_statement_text(r.statements@[0])
    } else {
        ""@
    }
}

/// The label of a chain node: its name, then its type, priority, family
/// and policy.
pub open spec fn spec_chain_label(c: ChainListing) -> Seq<char> {
    c.name@ + ": "@ + crate::types::spec_chain_type_text(c.chain_type) + " "@ + spec_dec_signed(
        c.priority as int,
    ) + " "@ + crate::types::spec_family_text(c.family) + " "@
        + crate::types::spec_chain_policy_text(c.policy)
}

/// Renders a rule's leading statement; a rule without statements renders
/// to nothing.
pub fn format_expr(stmts: &Vec<Statement>) -> (r: String)
    ensures
        stmts@.len() > 0 ==> r@ == spec_statement_text(stmts@[0]),
        stmts@.len() == 0 ==> r@ == ""@,
{
    if stmts.len() == 0 {
        let r = String::new();
        proof {
            reveal_strlit("");
            assert(r@ =~= ""@);
        }
        r
    } else {
        render_statement(&stmts[0])
    }
}

/// All of a rule's statements rendered, joined by single spaces.
pub open spec fn spec_statements_text(stmts: Seq<Statement>) -> Seq<char>
    decreases stmts.len(),
{
    if stmts.len() == 0 {
        ""@
    } else if stmts.len() == 1 {
        spec_statement_text(stmts[0])
    } else {
        spec_statements_text(stmts.drop_last()) + " "@ + spec_statement_text(stmts.last())
    }
}

/// Renders one listed rule: its statements joined by single spaces.
pub fn expand_rule(rule: &RuleListing) -> (r: String)
    ensures
        r@ == spec_statements_text(rule.statements@),
{
    let stmts = &rule.statements;
    let mut out = String::new();
    let mut j: usize = 0;
    proof {
        reveal_strlit("");
        assert(out@ =~= spec_statements_text(stmts@.take(0)));
    }
    while j < stmts.len()
        invariant
            j <= stmts@.len(),
            out@ == spec_statements_text(stmts@.take(j as int)),
        decreases stmts@.len() - j,
    {
        if j > 0 {
            out.append(" ");
        }
        let piece = render_statement(&stmts[j]);
        out.append(piece.as_str());
        proof {
            reveal_strlit("");
            let pre = stmts@.take(j as int);
            let cur = stmts@.take(j as int + 1);
            assert(cur.drop_last() =~= pre);
            assert(cur.last() == stmts@[j as int]);
            assert(out@ =~= spec_statements_text(cur));
        }
        j += 1;
    }
    proof {
        assert(stmts@.take(stmts@.len() as int) =~= stmts@);
    }
    out
}

/// Converts one listed chain into its joined form.
pub fn process_chain(c: &ChainListing) -> (r: FirewallChain)
    ensures
        r.name@ == c.name@,
        r.chain_type == c.chain_type,
        r.hook_class == c.hook,
        r.priority == c.priority,
        r.policy == c.policy,
{
    FirewallChain {
        name: c.name.clone(),
        chain_type: c.chain_type,
        hook_class: c.hook,
        priority: c.priority,
        policy: c.policy,
    }
}

/// Lifts one listed rule out of the listing.
pub fn process_rule(rule: RuleListing) -> (r: FirewallRule)
    ensures
        r.family == rule.family,
        r.statements == rule.statements,
{
    FirewallRule { family: rule.family, statements: rule.statements }
}

/// The names of the listed tables, in listing order.
pub fn get_table_names(objs: &Vec<FlatObject>) -> (r: Vec<String>)
    ensures
        r@.len() == table_positions(objs@).len(),
        forall|i: int|
            0 <= i < r@.len() ==> (#[trigger] r@[i])@ == objs@[table_positions(objs@)[i]]
                ->Table_0.name@,
{
    let mut out: Vec<String> = Vec::new();
    let mut i: usize = 0;
    while i < objs.len()
        invariant
            i <= objs@.len(),
            out@.len() == table_positions(objs@.take(i as int)).len(),
            forall|k: int|
                0 <= k < out@.len() ==> (#[trigger] out@[k])@ == objs@[table_positions(
                    objs@.take(i as int),
                )[k]]->Table_0.name@,
            forall|k: int|
                0 <= k < table_positions(objs@.take(i as int)).len() ==> 0 <= #[trigger]
                    table_positions(objs@.take(i as int))[k] < i,
        decreases objs@.len() - i,
    {
        proof {
            let pre = objs@.take(i as int);
            let cur = objs@.take(i as int + 1);
            assert(cur.drop_last() =~= pre);
            assert(cur.last() == objs@[i as int]);
        }
        match &objs[i] {
            FlatObject::Table(t) => {
                out.push(t.name.clone());
            },
            _ => {},
        }
        i += 1;
    }
    proof {
        assert(objs@.take(objs@.len() as int) =~= objs@);
    }
    out
}

/// The joined chains of the named table, in listing order.
pub fn expand_table(objs: &Vec<FlatObject>, name: &String) -> (r: Vec<FirewallChain>)
    ensures
        r@.len() == chain_positions(objs@, name@).len(),
        forall|i: int|
            0 <= i < r@.len() ==> {
                let c = objs@[chain_positions(objs@, name@)[i]]->Chain_0;
                &&& (#[trigger] r@[i]).name@ == c.name@
                &&& r@[i].chain_type == c.chain_type
                &&& r@[i].hook_class == c.hook
                &&& r@[i].priority == c.priority
                &&& r@[i].policy == c.policy
            },
{
    let mut out: Vec<FirewallChain> = Vec::new();
    let mut i: usize = 0;
    while i < objs.len()
        invariant
            i <= objs@.len(),
            out@.len() == chain_positions(objs@.take(i as int), name@).len(),
            forall|k: int|
                0 <= k < out@.len() ==> {
                    let c = objs@[chain_positions(objs@.take(i as int), name@)[k]]->Chain_0;
                    &&& (#[trigger] out@[k]).name@ == c.name@
                    &&& out@[k].chain_type == c.chain_type
                    &&& out@[k].hook_class == c.hook
                    &&& out@[k].priority == c.priority
                    &&& out@[k].policy == c.policy
                },
            forall|k: int|
                0 <= k < chain_positions(objs@.take(i as int), name@).len() ==> 0 <= #[trigger]
                    chain_positions(objs@.take(i as int), name@)[k] < i,
        decreases objs@.len() - i,
    {
        proof {
            let pre = objs@.take(i as int);
            let cur = objs@.take(i as int + 1);
            assert(cur.drop_last() =~= pre);
            assert(cur.last() == objs@[i as int]);
        }
        match &objs[i] {
            FlatObject::Chain(c) => {
                if c.table.eq(name) {
                    out.push(process_chain(c));
                }
            },
            _ => {},
        }
        i += 1;
    }
    proof {
        assert(objs@.take(objs@.len() as int) =~= objs@);
    }
    out
}

/// The rendered rules of the named chain of the named table, in listing
/// order.
pub fn expand_chain(objs: &Vec<FlatObject>, chain: &String, table: &String) -> (r: Vec<String>)
    ensures
        r@.len() == rule_positions(objs@, table@, chain@).len(),
        forall|i: int|
            0 <= i < r@.len() ==> (#[trigger] r@[i])@ == spec_statements_text(
                objs@[rule_positions(objs@, table@, chain@)[i]]->Rule_0.statements@,
            ),
{
    let mut out: Vec<String> = Vec::new();
    let mut i: usize = 0;
    while i < objs.len()
        invariant
            i <= objs@.len(),
            out@.len() == rule_positions(objs@.take(i as int), table@, chain@).len(),
            forall|k: int|
                0 <= k < out@.len() ==> (#[trigger] out@[k])@ == spec_statements_text(
                    objs@[rule_positions(objs@.take(i as int), table@, chain@)[k]]
                        ->Rule_0.statements@,
                ),
            forall|k: int|
                0 <= k < rule_positions(objs@.take(i as int), table@, chain@).len() ==> 0
                    <= #[trigger] rule_positions(objs@.take(i as int), table@, chain@)[k] < i,
        decreases objs@.len() - i,
    {
        proof {
            let pre = objs@.take(i as int);
            let cur = objs@.take(i as int + 1);
            assert(cur.drop_last() =~= pre);
            assert(cur.last() == objs@[i as int]);
        }
        match &objs[i] {
            FlatObject::Rule(rl) => {
                if rl.table.eq(table) && rl.chain.eq(chain) {
                    out.push(expand_rule(rl));
                }
            },
            _ => {},
        }
        i += 1;
    }
    proof {
        assert(objs@.take(objs@.len() as int) =~= objs@);
    }
    out
}

/// The listed tables joined to their chains, in listing order.
pub fn get_tables(objs: &Vec<FlatObject>) -> (r: Vec<FirewallTable>)
    ensures
        r@.len() == table_positions(objs@).len(),
        forall|i: int|
            0 <= i < r@.len() ==> {
                let t = objs@[table_positions(objs@)[i]]->Table_0;
                &&& (#[trigger] r@[i]).name@ == t.name@
                &&& r@[i].family == t.family
                &&& r@[i].chains@.len() == chain_positions(objs@, t.name@).len()
                &&& forall|j: int|
                    0 <= j < r@[i].chains@.len() ==> {
                        let c = objs@[chain_positions(objs@, t.name@)[j]]->Chain_0;
                        &&& (#[trigger] r@[i].chains@[j]).name@ == c.name@
                        &&& r@[i].chains@[j].chain_type == c.chain_type
                        &&& r@[i].chains@[j].hook_class == c.hook
                        &&& r@[i].chains@[j].priority == c.priority
                        &&& r@[i].chains@[j].policy == c.policy
                    }
            },
{
    let mut out: Vec<FirewallTable> = Vec::new();
    let mut i: usize = 0;
    while i < objs.len()
        invariant
            i <= objs@.len(),
            out@.len() == table_positions(objs@.take(i as int)).len(),
            forall|k: int|
                0 <= k < out@.len() ==> {
                    let t = objs@[table_positions(objs@.take(i as int))[k]]->Table_0;
                    &&& (#[trigger] out@[k]).name@ == t.name@
                    &&& out@[k].family == t.family
                    &&& out@[k].chains@.len() == chain_positions(objs@, t.name@).len()
                    &&& forall|j: int|
                        0 <= j < out@[k].chains@.len() ==> {
                            let c = objs@[chain_positions(objs@, t.name@)[j]]->Chain_0;
                            &&& (#[trigger] out@[k].chains@[j]).name@ == c.name@
                            &&& out@[k].chains@[j].chain_type == c.chain_type
                            &&& out@[k].chains@[j].hook_class == c.hook
                            &&& out@[k].chains@[j].priority == c.priority
                            &&& out@[k].chains@[j].policy == c.policy
                        }
                },
            forall|k: int|
                0 <= k < table_positions(objs@.take(i as int)).len() ==> 0 <= #[trigger]
                    table_positions(objs@.take(i as int))[k] < i,
        decreases objs@.len() - i,
    {
        proof {
            let pre = objs@.take(i as int);
            let cur = objs@.take(i as int + 1);
            assert(cur.drop_last() =~= pre);
            assert(cur.last() == objs@[i as int]);
        }
        match &objs[i] {
            FlatObject::Table(t) => {
                let chains = expand_table(objs, &t.name);
                out.push(FirewallTable { name: t.name.clone(), family: t.family, chains });
            },
            _ => {},
        }
        i += 1;
    }
    proof {
        assert(objs@.take(objs@.len() as int) =~= objs@);
    }
    out
}

/// Renders one chain node's label.
fn chain_label(c: &ChainListing) -> (r: String)
    ensures
        r@ == spec_chain_label(*c),
{
    let mut out = c.name.clone();
    out.append(": ");
    let t = c.chain_type.display_chain_type();
    out.append(t.as_str());
    out.append(" ");
    let p = i64_dec(c.priority as i64);
    out.append(p.as_str());
    out.append(" ");
    let f = c.family.display_family();
    out.append(f.as_str());
    out.append(" ");
    let pol = c.policy.display_chain_policy();
    out.append(pol.as_str());
    proof {
        assert(out@ =~= spec_chain_label(*c));
    }
    out
}

/// The rule leaves of one chain.
fn build_rule_leaves(objs: &Vec<FlatObject>, table: &String, chain: &String) -> (r: Vec<TreeNode>)
    ensures
        r@.len() == rule_positions(objs@, table@, chain@).len(),
        forall|i: int|
            0 <= i < r@.len() ==> {
                let p = rule_positions(objs@, table@, chain@)[i];
                &&& (#[trigger] r@[i]).id as int == p
                &&& r@[i].label@ == spec_rule_label(objs@[p]->Rule_0)
                &&& r@[i].children@.len() == 0
            },
{
    let mut out: Vec<TreeNode> = Vec::new();
    let mut i: usize = 0;
    while i < objs.len()
        invariant
            i <= objs@.len(),
            out@.len() == rule_positions(objs@.take(i as int), table@, chain@).len(),
            forall|k: int|
                0 <= k < out@.len() ==> {
                    let p = rule_positions(objs@.take(i as int), table@, chain@)[k];
                    &&& (#[trigger] out@[k]).id as int == p
                    &&& out@[k].label@ == spec_rule_label(objs@[p]->Rule_0)
                    &&& out@[k].children@.len() == 0
                },
            forall|k: int|
                0 <= k < rule_positions(objs@.take(i as int), table@, chain@).len() ==> 0
                    <= #[trigger] rule_positions(objs@.take(i as int), table@, chain@)[k] < i,
        decreases objs@.len() - i,
    {
        proof {
            let pre = objs@.take(i as int);
            let cur = objs@.take(i as int + 1);
            assert(cur.drop_last() =~= pre);
            assert(cur.last() == objs@[i as int]);
        }
        match &objs[i] {
            FlatObject::Rule(rl) => {
                if rl.table.eq(table) && rl.chain.eq(chain) {
                    let label = format_expr(&rl.statements);
                    out.push(TreeNode { id: i, label, children: Vec::new() });
                }
            },
            _ => {},
        }
        i += 1;
    }
    proof {
        assert(objs@.take(objs@.len() as int) =~= objs@);
    }
    out
}

/// The chain nodes of one table, each with its rule leaves.
fn build_chain_nodes(objs: &Vec<FlatObject>, table: &String) -> (r: Vec<TreeNode>)
    ensures
        r@.len() == chain_positions(objs@, table@).len(),
        forall|i: int|
            0 <= i < r@.len() ==> {
                let p = chain_positions(objs@, table@)[i];
                let c = objs@[p]->Chain_0;
                let rp = rule_positions(objs@, table@, c.name@);
                &&& (#[trigger] r@[i]).id as int == p
                &&& r@[i].label@ == spec_chain_label(c)
                &&& r@[i].children@.len() == rp.len()
                &&& forall|j: int|
                    0 <= j < rp.len() ==> {
                        &&& (#[trigger] r@[i].children@[j]).id as int == rp[j]
                        &&& r@[i].children@[j].label@ == spec_rule_label(objs@[rp[j]]->Rule_0)
                        &&& r@[i].children@[j].children@.len() == 0
                    }
            },
{
    let mut out: Vec<TreeNode> = Vec::new();
    let mut i: usize = 0;
    while i < objs.len()
        invariant
            i <= objs@.len(),
            out@.len() == chain_positions(objs@.take(i as int), table@).len(),
            forall|k: int|
                0 <= k < out@.len() ==> {
                    let p = chain_positions(objs@.take(i as int), table@)[k];
                    let c = objs@[p]->Chain_0;
                    let rp = rule_positions(objs@, table@, c.name@);
                    &&& (#[trigger] out@[k]).id as int == p
                    &&& out@[k].label@ == spec_chain_label(c)
                    &&& out@[k].children@.len() == rp.len()
                    &&& forall|j: int|
                        0 <= j < rp.len() ==> {
                            &&& (#[trigger] out@[k].children@[j]).id as int == rp[j]
                            &&& out@[k].children@[j].label@ == spec_rule_label(
                                objs@[rp[j]]->Rule_0,
                            )
                            &&& out@[k].children@[j].children@.len() == 0
                        }
                },
            forall|k: int|
                0 <= k < chain_positions(objs@.take(i as int), table@).len() ==> 0 <= #[trigger]
                    chain_positions(objs@.take(i as int), table@)[k] < i,
        decreases objs@.len() - i,
    {
        proof {
            let pre = objs@.take(i as int);
            let cur = objs@.take(i as int + 1);
            assert(cur.drop_last() =~= pre);
            assert(cur.last() == objs@[i as int]);
        }
        match &objs[i] {
            FlatObject::Chain(c) => {
                if c.table.eq(table) {
                    let label = chain_label(c);
                    let leaves = build_rule_leaves(objs, table, &c.name);
                    out.push(TreeNode { id: i, label, children: leaves });
                }
            },
            _ => {},
        }
        i += 1;
    }
    proof {
        assert(objs@.take(objs@.len() as int) =~= objs@);
    }
    out
}

/// Joins the flat listing into the display tree: one root per listed
/// table, its chains as children labeled with type, priority, family and
/// policy, and its rules as leaves.
pub fn build_tree(objs: &Vec<FlatObject>) -> (r: Vec<TreeNode>)
    ensures
        r@.len() == table_positions(objs@).len(),
        forall|i: int|
            0 <= i < r@.len() ==> {
                let p = table_positions(objs@)[i];
                let t = objs@[p]->Table_0;
                let cp = chain_positions(objs@, t.name@);
                &&& (#[trigger] r@[i]).id as int == p
                &&& r@[i].label@ == t.name@
                &&& r@[i].children@.len() == cp.len()
                &&& forall|k: int|
                    0 <= k < cp.len() ==> {
                        let c = objs@[cp[k]]->Chain_0;
                        let rp = rule_positions(objs@, t.name@, c.name@);
                        &&& (#[trigger] r@[i].children@[k]).id as int == cp[k]
                        &&& r@[i].children@[k].label@ == spec_chain_label(c)
                        &&& r@[i].children@[k].children@.len() == rp.len()
                        &&& forall|j: int|
                            0 <= j < rp.len() ==> {
                                &&& (#[trigger] r@[i].children@[k].children@[j]).id as int
                                    == rp[j]
                                &&& r@[i].children@[k].children@[j].label@ == spec_rule_label(
                                    objs@[rp[j]]->Rule_0,
                                )
                                &&& r@[i].children@[k].children@[j].children@.len() == 0
                            }
                    }
            },
{
    let mut out: Vec<TreeNode> = Vec::new();
    let mut i: usize = 0;
    while i < objs.len()
        invariant
            i <= objs@.len(),
            out@.len() == table_positions(objs@.take(i as int)).len(),
            forall|k: int|
                0 <= k < out@.len() ==> {
                    let p = table_positions(objs@.take(i as int))[k];
                    let t = objs@[p]->Table_0;
                    let cp = chain_positions(objs@, t.name@);
                    &&& (#[trigger] out@[k]).id as int == p
                    &&& out@[k].label@ == t.name@
                    &&& out@[k].children@.len() == cp.len()
                    &&& forall|m: int|
                        0 <= m < cp.len() ==> {
                            let c = objs@[cp[m]]->Chain_0;
                            let rp = rule_positions(objs@, t.name@, c.name@);
                            &&& (#[trigger] out@[k].children@[m]).id as int == cp[m]
                            &&& out@[k].children@[m].label@ == spec_chain_label(c)
                            &&& out@[k].children@[m].children@.len() == rp.len()
                            &&& forall|j: int|
                                0 <= j < rp.len() ==> {
                                    &&& (#[trigger] out@[k].children@[m].children@[j]).id as int
                                        == rp[j]
                                    &&& out@[k].children@[m].children@[j].label@
                                        == spec_rule_label(objs@[rp[j]]->Rule_0)
                                    &&& out@[k].children@[m].children@[j].children@.len() == 0
                                }
                        }
                },
            forall|k: int|
                0 <= k < table_positions(objs@.take(i as int)).len() ==> 0 <= #[trigger]
                    table_positions(objs@.take(i as int))[k] < i,
        decreases objs@.len() - i,
    {
        proof {
            let pre = objs@.take(i as int);
            let cur = objs@.take(i as int + 1);
            assert(cur.drop_last() =~= pre);
            assert(cur.last() == objs@[i as int]);
        }
        match &objs[i] {
            FlatObject::Table(t) => {
                let children = build_chain_nodes(objs, &t.name);
                out.push(TreeNode { id: i, label: t.name.clone(), children });
            },
            _ => {},
        }
        i += 1;
    }
    proof {
        assert(objs@.take(objs@.len() as int) =~= objs@);
    }
    out
}


/// Every table position holds a table object and the positions strictly
/// increase. Together with the matching facts for chains and rules this
/// makes tree identifiers unique: positions of different kinds never
/// coincide, and within one kind a listing object is selected once per
/// sibling group.
pub proof fn lemma_table_positions_sound(objs: Seq<FlatObject>)
    ensures
        forall|i: int|
            0 <= i < table_positions(objs).len() ==> {
                let p = #[trigger] table_positions(objs)[i];
                &&& 0 <= p < objs.len()
                &&& objs[p] is Table
            },
        forall|i: int, j: int|
            0 <= i < j < table_positions(objs).len() ==> #[trigger] table_positions(objs)[i]
                < #[trigger] table_positions(objs)[j],
    decreases objs.len(),
{
    if objs.len() > 0 {
        lemma_table_positions_sound(objs.drop_last());
        assert(forall|k: int|
            0 <= k < objs.len() - 1 ==> objs.drop_last()[k] == #[trigger] objs[k]);
    }
}

/// Every chain position holds a chain object owned by the named table,
/// and the positions strictly increase.
pub proof fn lemma_chain_positions_sound(objs: Seq<FlatObject>, table: Seq<char>)
    ensures
        forall|i: int|
            0 <= i < chain_positions(objs, table).len() ==> {
                let p = #[trigger] chain_positions(objs, table)[i];
                &&& 0 <= p < objs.len()
                &&& objs[p] is Chain
                &&& objs[p]->Chain_0.table@ == table
            },
        forall|i: int, j: int|
            0 <= i < j < chain_positions(objs, table).len() ==> #[trigger] chain_positions(
                objs,
                table,
            )[i] < #[trigger] chain_positions(objs, table)[j],
    decreases objs.len(),
{
    if objs.len() > 0 {
        lemma_chain_positions_sound(objs.drop_last(), table);
        assert(forall|k: int|
            0 <= k < objs.len() - 1 ==> objs.drop_last()[k] == #[trigger] objs[k]);
    }
}

/// Every rule position holds a rule object owned by the named chain of
/// the named table, and the positions strictly increase.
pub proof fn lemma_rule_positions_sound(objs: Seq<FlatObject>, table: Seq<char>, chain: Seq<char>)
    ensures
        forall|i: int|
            0 <= i < rule_positions(objs, table, chain).len() ==> {
                let p = #[trigger] rule_positions(objs, table, chain)[i];
                &&& 0 <= p < objs.len()
                &&& objs[p] is Rule
                &&& objs[p]->Rule_0.table@ == table
                &&& objs[p]->Rule_0.chain@ == chain
            },
        forall|i: int, j: int|
            0 <= i < j < rule_positions(objs, table, chain).len() ==> #[trigger] rule_positions(
                objs,
                table,
                chain,
            )[i] < #[trigger] rule_positions(objs, table, chain)[j],
    decreases objs.len(),
{
    if objs.len() > 0 {
        lemma_rule_positions_sound(objs.drop_last(), table, chain);
        assert(forall|k: int|
            0 <= k < objs.len() - 1 ==> objs.drop_last()[k] == #[trigger] objs[k]);
    }
}

} // verus!
