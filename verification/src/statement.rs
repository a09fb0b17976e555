//! Kernel-reported match expressions and statements, and their display text.
//!
//! The expression grammar the kernel reports is open and evolving, so each
//! union here is a closed set of known variants plus an explicit fallback:
//! any variant outside the known set renders to the fixed placeholder text
//! instead of failing, and introspection degrades gracefully.

use vstd::prelude::*;
use vstd::string::StringExecFns;
use crate::numfmt::{spec_dec, push_u64_dec};

verus! {

/// The comparison or arithmetic operator of a match statement.
#[derive(Debug, Clone, Copy, PartialEq, Eq, Structural)]
pub enum Operator {
    And,
    Or,
    Xor,
    Lshift,
    Rshift,
    Eq,
    Neq,
    Lt,
    Gt,
    Leq,
    Geq,
    In,
}

/// A routing expression key.
#[derive(Debug, Clone, Copy, PartialEq, Eq, Structural)]
pub enum RtKey {
    Mtu,
    ClassId,
    NextHop,
}

/// The address family qualifier of a routing or conntrack expression.
#[derive(Debug, Clone, Copy, PartialEq, Eq, Structural)]
pub enum IpFamily {
    Ip,
    Ip6,
}

/// The direction qualifier of a conntrack expression.
#[derive(Debug, Clone, Copy, PartialEq, Eq, Structural)]
pub enum CtDir {
    Original,
    Reply,
}

/// A packet metadata key, with a fallback for keys outside the known set.
#[derive(Debug, Clone, Copy, PartialEq, Eq, Structural)]
pub enum MetaKey {
    Iif,
    Oif,
    Iifname,
    Oifname,
    Iiftype,
    Oiftype,
    Skgid,
    Length,
    Pkttype,
    Nfproto,
    L4proto,
    Protocol,
    Unknown,
}

/// The base header a raw payload offset counts from.
#[derive(Debug, Clone, Copy, PartialEq, Eq, Structural)]
pub enum PayloadBase {
    LL,
    NH,
    TH,
    IH,
}

/// A payload reference: a named header field, or a raw offset and length.
#[derive(Debug)]
pub enum Payload {
    Field { protocol: String, field: String },
    Raw { base: PayloadBase, offset: u64, len: u64 },
}

/// A named sub-expression, with a fallback for kinds outside the known set.
#[derive(Debug)]
pub enum NamedExpression {
    Rt { key: RtKey, family: Option<IpFamily> },
    Ct { key: String, family: Option<IpFamily>, dir: Option<CtDir> },
    Meta { key: MetaKey },
    Payload(Payload),
    TcpOption { name: String, field: Option<String> },
    SetExpr(Vec<SetItem>),
    Unknown,
}

/// A verdict marker, with a fallback for kinds outside the known set.
#[derive(Debug, Clone, Copy, PartialEq, Eq, Structural)]
pub enum Verdict {
    Accept,
    Drop,
    Return,
    Unknown,
}

/// An expression tree leaf or node, with a fallback for kinds outside the
/// known set.
#[derive(Debug)]
pub enum Expression {
    Str(String),
    Number(u64),
    Named(NamedExpression),
    Verdict(Verdict),
    List(Vec<Expression>),
    Unknown,
}

/// One member of a finite set expression.
#[derive(Debug)]
pub enum SetItem {
    Element(Expression),
    Mapping(Expression, Expression),
    MappingStatement(Expression, Statement),
}

/// The tallies of an anonymous counter.
#[derive(Debug, Clone, Copy, PartialEq, Eq, Structural)]
pub struct CounterData {
    pub packets: Option<u64>,
    pub bytes: Option<u64>,
}

/// A named counter, or an anonymous one with optional tallies.
#[derive(Debug)]
pub enum Counter {
    Named(String),
    Anonymous(Option<CounterData>),
}

/// A match statement: a left expression, an operator, a right expression.
#[derive(Debug)]
pub struct Match {
    pub left: Expression,
    pub op: Operator,
    pub right: Expression,
}

/// A rule statement, with a fallback for kinds outside the known set.
#[derive(Debug)]
pub enum Statement {
    Match(Match),
    Counter(Counter),
    Unknown,
}

/// The fixed placeholder text for variants outside the known set.
pub open spec fn spec_placeholder() -> Seq<char> {
    "todo"@
}

pub open spec fn spec_op_text(op: Operator) -> Seq<char> {
    match op {
        Operator::Or => "or"@,
        Operator::And => "and"@,
        Operator::Eq => "equal to"@,
        Operator::Lt => "less than"@,
        Operator::Gt => "greater than"@,
        Operator::In => "is in"@,
        Operator::Xor => "xor"@,
        Operator::Neq => "not equal to"@,
        Operator::Leq => "less than or equal to"@,
        Operator::Geq => "greater than or equal to"@,
        Operator::Lshift => "<<"@,
        Operator::Rshift => ">>"@,
    }
}

pub open spec fn spec_verdict_text(v: Verdict) -> Seq<char> {
    match v {
        Verdict::Accept => "accept"@,
        Verdict::Drop => "drop"@,
        Verdict::Return => "return"@,
        Verdict::Unknown => spec_placeholder(),
    }
}

pub open spec fn spec_meta_text(k: MetaKey) -> Seq<char> {
    match k {
        MetaKey::Iif => "input interface index"@,
        MetaKey::Oif => "output interface index"@,
        MetaKey::Iifname => "input interface name"@,
        MetaKey::Oifname => "output interface name"@,
        MetaKey::Iiftype => "input interface type"@,
        MetaKey::Oiftype => "output interface type"@,
        MetaKey::Skgid => "GID"@,
        MetaKey::Length => "packet length"@,
        MetaKey::Pkttype => "packet type"@,
        MetaKey::Nfproto => "netfilter proto"@,
        MetaKey::L4proto => "L4 proto"@,
        MetaKey::Protocol => "proto"@,
        MetaKey::Unknown => spec_placeholder(),
    }
}

pub open spec fn spec_rt_key_text(k: RtKey) -> Seq<char> {
    match k {
        RtKey::Mtu => "MTU"@,
        RtKey::ClassId => "ClassID"@,
        RtKey::NextHop => "NextHop"@,
    }
}

pub open spec fn spec_rt_family_text(f: Option<IpFamily>) -> Seq<char> {
    match f {
        Some(IpFamily::Ip) => "ipv4"@,
        Some(IpFamily::Ip6) => "ipv6"@,
        None => ""@,
    }
}

pub open spec fn spec_ct_family_text(f: Option<IpFamily>) -> Seq<char> {
    match f {
        Some(IpFamily::Ip) => " ipv4"@,
        Some(IpFamily::Ip6) => " ipv6"@,
        None => ""@,
    }
}

pub open spec fn spec_ct_dir_text(d: Option<CtDir>) -> Seq<char> {
    match d {
        Some(CtDir::Reply) => " reply"@,
        Some(CtDir::Original) => " original"@,
        None => ""@,
    }
}

pub open spec fn spec_payload_base_text(b: PayloadBase) -> Seq<char> {
    match b {
        PayloadBase::LL => "LL"@,
        PayloadBase::NH => "NH"@,
        PayloadBase::TH => "TH"@,
        PayloadBase::IH => "IH"@,
    }
}

pub open spec fn spec_payload_text(p: Payload) -> Seq<char> {
    match p {
        Payload::Field { protocol, field } => field@ + " "@ + protocol@,
        Payload::Raw { base, offset, len } => "at "@ + spec_payload_base_text(base) + " + "@
            + spec_dec(offset as int) + " for "@ + spec_dec(len as int) + " bits"@,
    }
}

pub open spec fn spec_opt_tally_text(t: Option<u64>) -> Seq<char> {
    match t {
        Some(n) => spec_dec(n as int),
        None => "0"@,
    }
}

pub open spec fn spec_counter_text(c: Counter) -> Seq<char> {
    match c {
        Counter::Named(name) => "counter"@ + name@,
        Counter::Anonymous(data) => match data {
            Some(d) => "counter "@ + spec_opt_tally_text(d.packets) + " packets "@
                + spec_opt_tally_text(d.bytes) + " bytes"@,
            None => ""@,
        },
    }
}

pub open spec fn spec_expr_text(e: Expression) -> Seq<char>
    decreases e,
{
    match e {
        Expression::Str(s) => s@,
        Expression::Number(n) => spec_dec(n as int),
        Expression::Named(n) => spec_named_text(n),
        Expression::Verdict(v) => spec_verdict_text(v),
        Expression::List(items) => spec_expr_list_text(items@),
        Expression::Unknown => spec_placeholder(),
    }
}

/// Element renderings joined by single spaces.
pub open spec fn spec_expr_list_text(items: Seq<Expression>) -> Seq<char>
    decreases items,
{
    if items.len() == 0 {
        ""@
    } else if items.len() == 1 {
        spec_expr_text(items[0])
    } else {
        spec_expr_list_text(items.drop_last()) + " "@ + spec_expr_text(items.last())
    }
}

pub open spec fn spec_named_text(n: NamedExpression) -> Seq<char>
    decreases n,
{
    match n {
        NamedExpression::Rt { key, family } => spec_rt_key_text(key) + " "@ + spec_rt_family_text(
            family,
        ),
        NamedExpression::Ct { key, family, dir } => key@ + spec_ct_family_text(family)
            + spec_ct_dir_text(dir),
        NamedExpression::Meta { key } => spec_meta_text(key),
        NamedExpression::Payload(p) => spec_payload_text(p),
        NamedExpression::TcpOption { name, field } => match field {
            Some(f) => name@ + " "@ + f@,
            None => name@,
        },
        NamedExpression::SetExpr(items) => "{"@ + spec_set_items_text(items@) + "}"@,
        NamedExpression::Unknown => spec_placeholder(),
    }
}

/// Set member renderings joined by single spaces.
pub open spec fn spec_set_items_text(items: Seq<SetItem>) -> Seq<char>
    decreases items,
{
    if items.len() == 0 {
        ""@
    } else if items.len() == 1 {
        spec_set_item_text(items[0])
    } else {
        spec_set_items_text(items.drop_last()) + " "@ + spec_set_item_text(items.last())
    }
}

pub open spec fn spec_set_item_text(i: SetItem) -> Seq<char>
    decreases i,
{
    match i {
        SetItem::Element(e) => spec_expr_text(e),
        SetItem::Mapping(a, b) => "{"@ + spec_expr_text(a) + "}, {"@ + spec_expr_text(b) + "}"@,
        SetItem::MappingStatement(e, s) => spec_expr_text(e) + " -> "@ + spec_statement_text(s),
    }
}

pub open spec fn spec_match_text(m: Match) -> Seq<char>
    decreases m,
{
    spec_expr_text(m.left) + " "@ + spec_op_text(m.op) + " "@ + spec_expr_text(m.right)
}

pub open spec fn spec_statement_text(s: Statement) -> Seq<char>
    decreases s,
{
    match s {
        Statement::Match(m) => spec_match_text(m),
        Statement::Counter(c) => spec_counter_text(c),
        Statement::Unknown => spec_placeholder(),
    }
}

/// Appends a copy of `piece`.
fn push_string(out: &mut String, piece: &String)
    ensures
        final(out)@ == old(out)@ + piece@,
{
    out.append(piece.as_str());
}

/// Renders an expression.
pub fn render_expr(e: &Expression) -> (r: String)
    ensures
        r@ == spec_expr_text(*e),
    decreases *e,
{
    match e {
        Expression::Str(s) => {
            let r = s.clone();
            assert(r@ =~= spec_expr_text(*e));
            r
        },
        Expression::Number(n) => {
            let mut out = String::new();
            push_u64_dec(&mut out, *n);
            assert(out@ =~= spec_expr_text(*e));
            out
        },
        Expression::Named(n) => render_named_expr(n),
        Expression::Verdict(v) => render_verdict(v),
        Expression::List(items) => {
            let mut out = String::new();
            let mut j: usize = 0;
            proof {
                reveal_strlit("");
                assert(out@ =~= spec_expr_list_text(items@.take(0)));
            }
            while j < items.len()
                invariant
                    j <= items@.len(),
                    out@ == spec_expr_list_text(items@.take(j as int)),
                    *e == Expression::List(*items),
                decreases items@.len() - j,
            {
                if j > 0 {
                    out.append(" ");
                }
                proof {
                    assert(decreases_to!(*e => e->List_0));
                    assert(decreases_to!(e->List_0 => e->List_0@));
                    assert(decreases_to!(e->List_0@ => e->List_0@[j as int]));
                    assert(e->List_0@[j as int] == items@[j as int]);
                    assert(decreases_to!(*e => items@[j as int]));
                }
                let piece = render_expr(&items[j]);
                push_string(&mut out, &piece);
                proof {
                    reveal_strlit("");
                    let pre = items@.take(j as int);
                    let cur = items@.take(j as int + 1);
                    assert(cur.drop_last() =~= pre);
                    assert(cur.last() == items@[j as int]);
                    assert(out@ =~= spec_expr_list_text(cur));
                }
                j += 1;
            }
            proof {
                assert(items@.take(items@.len() as int) =~= items@);
            }
            out
        },
        Expression::Unknown => {
            let r = String::from_str("todo");
            r
        },
    }
}

/// Renders a named sub-expression.
pub fn render_named_expr(n: &NamedExpression) -> (r: String)
    ensures
        r@ == spec_named_text(*n),
    decreases *n,
{
    match n {
        NamedExpression::Rt { key, family } => {
            let mut out = match key {
                RtKey::Mtu => String::from_str("MTU"),
                RtKey::ClassId => String::from_str("ClassID"),
                RtKey::NextHop => String::from_str("NextHop"),
            };
            out.append(" ");
            match family {
                Some(IpFamily::Ip) => out.append("ipv4"),
                Some(IpFamily::Ip6) => out.append("ipv6"),
                None => (),
            }
            proof {
                reveal_strlit("");
                assert(out@ =~= spec_named_text(*n));
            }
            out
        },
        NamedExpression::Ct { key, family, dir } => {
            let mut out = key.clone();
            match family {
                Some(IpFamily::Ip) => out.append(" ipv4"),
                Some(IpFamily::Ip6) => out.append(" ipv6"),
                None => (),
            }
            match dir {
                Some(CtDir::Reply) => out.append(" reply"),
                Some(CtDir::Original) => out.append(" original"),
                None => (),
            }
            proof {
                reveal_strlit("");
                assert(out@ =~= spec_named_text(*n));
            }
            out
        },
        NamedExpression::Meta { key } => {
            let out = match key {
                MetaKey::Iif => String::from_str("input interface index"),
                MetaKey::Oif => String::from_str("output interface index"),
                MetaKey::Iifname => String::from_str("input interface name"),
                MetaKey::Oifname => String::from_str("output interface name"),
                MetaKey::Iiftype => String::from_str("input interface type"),
                MetaKey::Oiftype => String::from_str("output interface type"),
                MetaKey::Skgid => String::from_str("GID"),
                MetaKey::Length => String::from_str("packet length"),
                MetaKey::Pkttype => String::from_str("packet type"),
                MetaKey::Nfproto => String::from_str("netfilter proto"),
                MetaKey::L4proto => String::from_str("L4 proto"),
                MetaKey::Protocol => String::from_str("proto"),
                MetaKey::Unknown => String::from_str("todo"),
            };
            out
        },
        NamedExpression::Payload(p) => render_payload(p),
        NamedExpression::TcpOption { name, field } => {
            let mut out = name.clone();
            match field {
                Some(f) => {
                    out.append(" ");
                    push_string(&mut out, f);
                },
                None => (),
            }
            proof {
                reveal_strlit("");
                assert(out@ =~= spec_named_text(*n));
            }
            out
        },
        NamedExpression::SetExpr(items) => {
            let mut out = String::from_str("{");
            let mut j: usize = 0;
            proof {
                reveal_strlit("");
                assert(out@ =~= "{"@ + spec_set_items_text(items@.take(0)));
            }
            while j < items.len()
                invariant
                    j <= items@.len(),
                    out@ == "{"@ + spec_set_items_text(items@.take(j as int)),
                    *n == NamedExpression::SetExpr(*items),
                decreases items@.len() - j,
            {
                if j > 0 {
                    out.append(" ");
                }
                proof {
                    assert(decreases_to!(*n => n->SetExpr_0));
                    assert(decreases_to!(n->SetExpr_0 => n->SetExpr_0@));
                    assert(decreases_to!(n->SetExpr_0@ => n->SetExpr_0@[j as int]));
                    assert(n->SetExpr_0@[j as int] == items@[j as int]);
                    assert(decreases_to!(*n => items@[j as int]));
                }
                let piece = render_set_item(&items[j]);
                push_string(&mut out, &piece);
                proof {
                    let pre = items@.take(j as int);
                    let cur = items@.take(j as int + 1);
                    assert(cur.drop_last() =~= pre);
                    assert(cur.last() == items@[j as int]);
                    reveal_strlit("");
                    assert(out@ =~= "{"@ + spec_set_items_text(cur));
                }
                j += 1;
            }
            out.append("}");
            proof {
                assert(items@.take(items@.len() as int) =~= items@);
                assert(out@ =~= spec_named_text(*n));
            }
            out
        },
        NamedExpression::Unknown => String::from_str("todo"),
    }
}

/// Renders a payload reference.
fn render_payload(p: &Payload) -> (r: String)
    ensures
        r@ == spec_payload_text(*p),
{
    match p {
        Payload::Field { protocol, field } => {
            let mut out = field.clone();
            out.append(" ");
            push_string(&mut out, protocol);
            proof {
                assert(out@ =~= spec_payload_text(*p));
            }
            out
        },
        Payload::Raw { base, offset, len } => {
            let mut out = String::from_str("at ");
            match base {
                PayloadBase::LL => out.append("LL"),
                PayloadBase::NH => out.append("NH"),
                PayloadBase::TH => out.append("TH"),
                PayloadBase::IH => out.append("IH"),
            }
            out.append(" + ");
            push_u64_dec(&mut out, *offset);
            out.append(" for ");
            push_u64_dec(&mut out, *len);
            out.append(" bits");
            proof {
                assert(out@ =~= spec_payload_text(*p));
            }
            out
        },
    }
}

/// Renders one set member.
pub fn render_set_item(i: &SetItem) -> (r: String)
    ensures
        r@ == spec_set_item_text(*i),
    decreases *i,
{
    match i {
        SetItem::Element(e) => render_expr(e),
        SetItem::Mapping(a, b) => {
            let mut out = String::from_str("{");
            let left = render_expr(a);
            push_string(&mut out, &left);
            out.append("}, {");
            let right = render_expr(b);
            push_string(&mut out, &right);
            out.append("}");
            proof {
                assert(out@ =~= spec_set_item_text(*i));
            }
            out
        },
        SetItem::MappingStatement(e, s) => {
            let mut out = render_expr(e);
            out.append(" -> ");
            let stmt = render_statement(s);
            push_string(&mut out, &stmt);
            proof {
                assert(out@ =~= spec_set_item_text(*i));
            }
            out
        },
    }
}

/// Renders a verdict marker.
pub fn render_verdict(v: &Verdict) -> (r: String)
    ensures
        r@ == spec_verdict_text(*v),
{
    match v {
        Verdict::Accept => String::from_str("accept"),
        Verdict::Drop => String::from_str("drop"),
        Verdict::Return => String::from_str("return"),
        Verdict::Unknown => String::from_str("todo"),
    }
}

/// Renders a counter.
pub fn render_counter(c: &Counter) -> (r: String)
    ensures
        r@ == spec_counter_text(*c),
{
    match c {
        Counter::Named(name) => {
            let mut out = String::from_str("counter");
            push_string(&mut out, name);
            out
        },
        Counter::Anonymous(data) => match data {
            Some(d) => {
                let mut out = String::from_str("counter ");
                render_tally(&mut out, d.packets);
                out.append(" packets ");
                render_tally(&mut out, d.bytes);
                out.append(" bytes");
                proof {
                    assert(out@ =~= spec_counter_text(*c));
                }
                out
            },
            None => {
                let out = String::new();
                proof {
                    reveal_strlit("");
                    assert(out@ =~= spec_counter_text(*c));
                }
                out
            },
        },
    }
}

/// Appends a tally, with zero standing in for an absent one.
fn render_tally(out: &mut String, t: Option<u64>)
    ensures
        final(out)@ == old(out)@ + spec_opt_tally_text(t),
{
    match t {
        Some(n) => push_u64_dec(out, n),
        None => out.append("0"),
    }
}

/// Renders a statement.
pub fn render_statement(s: &Statement) -> (r: String)
    ensures
        r@ == spec_statement_text(*s),
    decreases *s,
{
    match s {
        Statement::Match(m) => {
            let mut out = render_expr(&m.left);
            out.append(" ");
            let op: &'static str = match m.op {
                Operator::Or => "or",
                Operator::And => "and",
                Operator::Eq => "equal to",
                Operator::Lt => "less than",
                Operator::Gt => "greater than",
                Operator::In => "is in",
                Operator::Xor => "xor",
                Operator::Neq => "not equal to",
                Operator::Leq => "less than or equal to",
                Operator::Geq => "greater than or equal to",
                Operator::Lshift => "<<",
                Operator::Rshift => ">>",
            };
            out.append(op);
            out.append(" ");
            let right = render_expr(&m.right);
            push_string(&mut out, &right);
            proof {
                assert(out@ =~= spec_statement_text(*s));
            }
            out
        },
        Statement::Counter(c) => render_counter(c),
        Statement::Unknown => String::from_str("todo"),
    }
}

/// Display text for an operator.
pub trait OpDisplay {
    /// The text `display_op` returns.
    spec fn op_text(&self) -> Seq<char>;

    fn display_op(&self) -> (r: &'static str)
        ensures
            r@ == self.op_text(),
    ;
}

impl OpDisplay for Operator {
    open spec fn op_text(&self) -> Seq<char> {
        spec_op_text(*self)
    }

    fn display_op(&self) -> (r: &'static str)
        ensures
            r@ == self.op_text(),
    {
        match self {
            Operator::Or => "or",
            Operator::And => "and",
            Operator::Eq => "equal to",
            Operator::Lt => "less than",
            Operator::Gt => "greater than",
            Operator::In => "is in",
            Operator::Xor => "xor",
            Operator::Neq => "not equal to",
            Operator::Leq => "less than or equal to",
            Operator::Geq => "greater than or equal to",
            Operator::Lshift => "<<",
            Operator::Rshift => ">>",
        }
    }
}

/// Display text for a named sub-expression.
pub trait NamedExprDisplay {
    /// The text `display_named_expr` returns.
    spec fn named_expr_text(&self) -> Seq<char>;

    fn display_named_expr(&self) -> (r: String)
        ensures
            r@ == self.named_expr_text(),
    ;
}

impl NamedExprDisplay for NamedExpression {
    open spec fn named_expr_text(&self) -> Seq<char> {
        spec_named_text(*self)
    }

    fn display_named_expr(&self) -> (r: String)
        ensures
            r@ == self.named_expr_text(),
    {
        render_named_expr(self)
    }
}

/// Display text for one set member.
pub trait SetItemDisplay {
    /// The text `display_set_item` returns.
    spec fn set_item_text(&self) -> Seq<char>;

    fn display_set_item(&self) -> (r: String)
        ensures
            r@ == self.set_item_text(),
    ;
}

impl SetItemDisplay for SetItem {
    open spec fn set_item_text(&self) -> Seq<char> {
        spec_set_item_text(*self)
    }

    fn display_set_item(&self) -> (r: String)
        ensures
            r@ == self.set_item_text(),
    {
        render_set_item(self)
    }
}

/// Display text for a verdict.
pub trait VerdictDisplay {
    /// The text `display_verdict` returns.
    spec fn verdict_text(&self) -> Seq<char>;

    fn display_verdict(&self) -> (r: String)
        ensures
            r@ == self.verdict_text(),
    ;
}

impl VerdictDisplay for Verdict {
    open spec fn verdict_text(&self) -> Seq<char> {
        spec_verdict_text(*self)
    }

    fn display_verdict(&self) -> (r: String)
        ensures
            r@ == self.verdict_text(),
    {
        render_verdict(self)
    }
}

/// Display text for a counter.
pub trait CounterDisplay {
    /// The text `display_counter` returns.
    spec fn counter_text(&self) -> Seq<char>;

    fn display_counter(&self) -> (r: String)
        ensures
            r@ == self.counter_text(),
    ;
}

impl CounterDisplay for Counter {
    open spec fn counter_text(&self) -> Seq<char> {
        spec_counter_text(*self)
    }

    fn display_counter(&self) -> (r: String)
        ensures
            r@ == self.counter_text(),
    {
        render_counter(self)
    }
}

/// Display text for an expression.
pub trait ExprDisplay {
    /// The text `display_expr` returns.
    spec fn expr_text(&self) -> Seq<char>;

    fn display_expr(&self) -> (r: String)
        ensures
            r@ == self.expr_text(),
    ;
}

impl ExprDisplay for Expression {
    open spec fn expr_text(&self) -> Seq<char> {
        spec_expr_text(*self)
    }

    fn display_expr(&self) -> (r: String)
        ensures
            r@ == self.expr_text(),
    {
        render_expr(self)
    }
}

/// Display text for a statement.
pub trait StatementDisplay {
    /// The text `display_statement` returns.
    spec fn statement_text(&self) -> Seq<char>;

    fn display_statement(&self) -> (r: String)
        ensures
            r@ == self.statement_text(),
    ;
}

impl StatementDisplay for Statement {
    open spec fn statement_text(&self) -> Seq<char> {
        spec_statement_text(*self)
    }

    fn display_statement(&self) -> (r: String)
        ensures
            r@ == self.statement_text(),
    {
        render_statement(self)
    }
}

/// Display text for a match statement taken on its own. No specific phrase
/// is assigned to this form, so it renders to the fixed placeholder.
pub trait MatchExprDisplay {
    /// The text `display_match_expr` returns.
    spec fn match_expr_text(&self) -> Seq<char>;

    fn display_match_expr(&self) -> (r: String)
        ensures
            r@ == self.match_expr_text(),
    ;
}

impl MatchExprDisplay for Match {
    open spec fn match_expr_text(&self) -> Seq<char> {
        spec_placeholder()
    }

    fn display_match_expr(&self) -> (r: String)
        ensures
            r@ == self.match_expr_text(),
    {
        String::from_str("todo")
    }
}

} // verus!
