//! Expressions and function clauses: their fixity table, their text, and the
//! renderers that produce it.

use crate::engine::{group_concat, in_position, PrettyEnv};
use crate::fixity::{Assoc, Demand, Fixity, Side};
use crate::leaves::{const_text, pattern_text};
use crate::syntax::{
    Clause, Expr, Op1, Op2, SClause, SExpr, SId, SLabel, SPattern, SessionOp, Spanned,
};
use crate::types::{end_text, list_sep, type_text};
use vstd::prelude::*;

verus! {

broadcast use group_concat;

/// The precedence of a unary operator. None of them chains.
pub open spec fn op1_prec(op: Op1) -> u8 {
    match op {
        Op1::Neg => 9,
        Op1::Not => 6,
        Op1::ToStr => 10,
        Op1::Print => 10,
    }
}

/// The token of a unary operator.
pub open spec fn op1_token(op: Op1) -> Seq<char> {
    match op {
        Op1::Neg => "!"@,
        Op1::Not => "!"@,
        Op1::ToStr => "str"@,
        Op1::Print => "print"@,
    }
}

/// The precedence of a binary operator.
pub open spec fn op2_prec(op: Op2) -> u8 {
    match op {
        Op2::Add => 8,
        Op2::Sub => 8,
        Op2::Mul => 9,
        Op2::Div => 9,
        Op2::Eq => 7,
        Op2::Neq => 7,
        Op2::Lt => 7,
        Op2::Le => 7,
        Op2::Gt => 7,
        Op2::Ge => 7,
        Op2::And => 5,
        Op2::Or => 4,
    }
}

/// The associativity of a binary operator.
pub open spec fn op2_assoc(op: Op2) -> Assoc {
    match op {
        Op2::Add => Assoc::Left,
        Op2::Sub => Assoc::Left,
        Op2::Mul => Assoc::Right,
        Op2::Div => Assoc::Right,
        Op2::Eq => Assoc::Neither,
        Op2::Neq => Assoc::Neither,
        Op2::Lt => Assoc::Neither,
        Op2::Le => Assoc::Neither,
        Op2::Gt => Assoc::Neither,
        Op2::Ge => Assoc::Neither,
        Op2::And => Assoc::Left,
        Op2::Or => Assoc::Left,
    }
}

/// The token of a binary operator.
pub open spec fn op2_token(op: Op2) -> Seq<char> {
    match op {
        Op2::Add => "+"@,
        Op2::Sub => "-"@,
        Op2::Mul => "*"@,
        Op2::Div => "/"@,
        Op2::Eq => "=="@,
        Op2::Neq => "!="@,
        Op2::Lt => "<"@,
        Op2::Le => "<="@,
        Op2::Gt => ">"@,
        Op2::Ge => ">="@,
        Op2::And => "&&"@,
        Op2::Or => "||"@,
    }
}

/// The fixity table of expressions.
pub open spec fn expr_fixity(e: Expr) -> Fixity {
    match e {
        Expr::New(..) => Fixity::Infix { prec: 3, assoc: Assoc::Left },
        Expr::Drop(..) => Fixity::Infix { prec: 2, assoc: Assoc::Left },
        Expr::Var(..) => Fixity::Atom,
        Expr::Abs(..) => Fixity::Infix { prec: 1, assoc: Assoc::Right },
        Expr::App(..) => Fixity::Infix { prec: 10, assoc: Assoc::Left },
        Expr::AppL(..) => Fixity::Infix { prec: 10, assoc: Assoc::Left },
        Expr::Inj(..) => Fixity::Infix { prec: 10, assoc: Assoc::Left },
        Expr::Fork(..) => Fixity::Infix { prec: 10, assoc: Assoc::Left },
        Expr::Send(..) => Fixity::Infix { prec: 10, assoc: Assoc::Left },
        Expr::Recv(..) => Fixity::Infix { prec: 10, assoc: Assoc::Left },
        Expr::End(..) => Fixity::Infix { prec: 10, assoc: Assoc::Left },
        Expr::Pair(..) => Fixity::Atom,
        Expr::LetPair(..) => Fixity::Infix { prec: 1, assoc: Assoc::Right },
        Expr::Let(..) => Fixity::Infix { prec: 1, assoc: Assoc::Right },
        Expr::If(..) => Fixity::Infix { prec: 1, assoc: Assoc::Right },
        Expr::CaseSum(..) => Fixity::Infix { prec: 1, assoc: Assoc::Right },
        Expr::Ann(..) => Fixity::Atom,
        Expr::Sequence(..) => Fixity::Infix { prec: 2, assoc: Assoc::Right },
        Expr::LetDecl(..) => Fixity::Infix { prec: 1, assoc: Assoc::Right },
        Expr::Borrow(..) => Fixity::Atom,
        Expr::Const(..) => Fixity::Atom,
        Expr::Op1(op, _) => Fixity::Infix { prec: op1_prec(op), assoc: Assoc::Neither },
        Expr::Op2(op, _, _) => Fixity::Infix { prec: op2_prec(op), assoc: op2_assoc(op) },
        Expr::Select(..) => Fixity::Infix { prec: 10, assoc: Assoc::Left },
        Expr::Offer(..) => Fixity::Infix { prec: 10, assoc: Assoc::Left },
    }
}

/// An expression in a position that demands `d`.
pub open spec fn expr_text(e: Expr, d: Demand) -> Seq<char>
    decreases e, 1int,
{
    in_position(expr_fixity(e), d, expr_inner(e))
}

/// An expression without parentheses of its own.
pub open spec fn expr_inner(e: Expr) -> Seq<char>
    decreases e, 0int,
{
    match e {
        Expr::New(r) => "new "@ + type_text(r.val, Demand::at(3)),
        Expr::Drop(e1) => "drop "@ + expr_text(e1.val, Demand::operand(Side::Right, 2, Assoc::Left)),
        Expr::Var(x) => x.val@,
        Expr::Abs(x, e1) => "λ"@ + x.val@ + ". "@ + expr_text(
            e1.val,
            Demand::operand(Side::Right, 1, Assoc::Right),
        ),
        Expr::App(e1, e2) => expr_text(e1.val, Demand::operand(Side::Left, 10, Assoc::Left)) + " "@
            + expr_text(e2.val, Demand::operand(Side::Right, 10, Assoc::Left)),
        Expr::AppL(e1, e2) => expr_text(e1.val, Demand::operand(Side::Left, 10, Assoc::Left))
            + " |> "@ + expr_text(e2.val, Demand::operand(Side::Right, 10, Assoc::Left)),
        Expr::Inj(l, e1) => "inj "@ + l.val@ + " "@ + expr_text(
            e1.val,
            Demand::operand(Side::Right, 10, Assoc::Left),
        ),
        Expr::Fork(e1) => "fork "@ + expr_text(
            e1.val,
            Demand::operand(Side::Right, 10, Assoc::Left),
        ),
        Expr::Send(e1, e2) => "send "@ + expr_text(
            e1.val,
            Demand::operand(Side::Right, 10, Assoc::Left),
        ) + " "@ + expr_text(e2.val, Demand::operand(Side::Right, 10, Assoc::Left)),
        Expr::Recv(e1) => "recv "@ + expr_text(
            e1.val,
            Demand::operand(Side::Right, 10, Assoc::Left),
        ),
        Expr::End(op, e1) => end_text(op) + " "@ + expr_text(
            e1.val,
            Demand::operand(Side::Right, 10, Assoc::Left),
        ),
        Expr::Pair(e1, e2) => "("@ + expr_text(e1.val, Demand::at(0)) + ", "@ + expr_text(
            e2.val,
            Demand::at(0),
        ) + ")"@,
        Expr::LetPair(x, y, e1, e2) => "let "@ + x.val@ + ", "@ + y.val@ + " = "@ + expr_text(
            e1.val,
            Demand::at(0),
        ) + " in "@ + expr_text(e2.val, Demand::at(1)),
        Expr::Let(x, e1, e2) => "let "@ + x.val@ + " = "@ + expr_text(e1.val, Demand::at(0))
            + " in "@ + expr_text(e2.val, Demand::at(1)),
        Expr::If(e1, e2, e3) => "if "@ + expr_text(e1.val, Demand::at(0)) + " then "@ + expr_text(
            e2.val,
            Demand::at(0),
        ) + " else "@ + expr_text(e3.val, Demand::operand(Side::Right, 1, Assoc::Right)),
        Expr::CaseSum(e1, cs) => "case "@ + expr_text(e1.val, Demand::at(1)) + " { "@
            + case_arms_text(cs@) + " }"@,
        Expr::Ann(e1, t) => expr_text(e1.val, Demand::at(0)) + " : "@ + type_text(
            t.val,
            Demand::at(0),
        ),
        Expr::Sequence(e1, e2) => expr_text(e1.val, Demand::operand(Side::Left, 2, Assoc::Right))
            + "; "@ + expr_text(e2.val, Demand::operand(Side::Right, 2, Assoc::Right)),
        Expr::LetDecl(x, t, cs, e1) => "let "@ + x.val@ + " : "@ + type_text(t.val, Demand::at(0))
            + "\n"@ + clauses_text(cs@) + "\n"@ + "in\n"@ + expr_text(e1.val, Demand::at(1)),
        Expr::Borrow(x) => "&"@ + x.val@,
        Expr::Const(c) => const_text(c),
        Expr::Op1(op, e1) => op1_token(op) + " "@ + expr_text(
            e1.val,
            Demand::operand(Side::Right, op1_prec(op), Assoc::Neither),
        ),
        Expr::Op2(op, e1, e2) => expr_text(
            e1.val,
            Demand::operand(Side::Left, op2_prec(op), op2_assoc(op)),
        ) + " "@ + op2_token(op) + " "@ + expr_text(
            e2.val,
            Demand::operand(Side::Right, op2_prec(op), op2_assoc(op)),
        ),
        Expr::Select(l, e1) => "select "@ + l.val@ + " "@ + expr_text(
            e1.val,
            Demand::operand(Side::Right, 10, Assoc::Left),
        ),
        Expr::Offer(e1) => "offer "@ + expr_text(
            e1.val,
            Demand::operand(Side::Right, 10, Assoc::Left),
        ),
    }
}

/// One arm of a case analysis: the label, the binder, and the body on its own.
pub open spec fn case_arm_text(c: (SLabel, SId, SExpr)) -> Seq<char>
    decreases c, 0int,
{
    "inj "@ + c.0.val@ + " "@ + c.1.val@ + " → "@ + expr_text(c.2.val, Demand::at(0))
}

/// The arms of a case analysis, in the order of the sequence.
pub open spec fn case_arms_text(cs: Seq<(SLabel, SId, SExpr)>) -> Seq<char>
    decreases cs, 1int,
{
    if cs.len() == 0 {
        Seq::empty()
    } else {
        case_arms_text(cs.drop_last()) + list_sep(cs.len() == 1) + case_arm_text(cs.last())
    }
}

/// The parameter patterns of a clause, each followed by a space.
pub open spec fn patterns_text(ps: Seq<SPattern>) -> Seq<char>
    decreases ps.len(),
{
    if ps.len() == 0 {
        Seq::empty()
    } else {
        patterns_text(ps.drop_last()) + pattern_text(ps.last().val) + " "@
    }
}

/// One clause: the name, the parameter patterns, the equals sign, the body on
/// its own, and a line break.
pub open spec fn clause_text(c: Clause) -> Seq<char>
    decreases c, 0int,
{
    c.id.val@ + " "@ + patterns_text(c.pats@) + "= "@ + expr_text(c.body.val, Demand::at(0))
        + "\n"@
}

/// The clauses of a declaration, in the order of the sequence.
pub open spec fn clauses_text(cs: Seq<SClause>) -> Seq<char>
    decreases cs, 1int,
{
    if cs.len() == 0 {
        Seq::empty()
    } else {
        clauses_text(cs.drop_last()) + clause_text(cs.last().val)
    }
}

impl Op1 {
    /// The precedence of the operator.
    pub fn prec(&self) -> (n: u8)
        ensures
            n == op1_prec(*self),
    {
        match self {
            Op1::Neg => 9,
            Op1::Not => 6,
            Op1::ToStr => 10,
            Op1::Print => 10,
        }
    }

    /// The token of the operator.
    pub fn token(&self) -> (s: &'static str)
        ensures
            s@ == op1_token(*self),
    {
        match self {
            Op1::Neg => "!",
            Op1::Not => "!",
            Op1::ToStr => "str",
            Op1::Print => "print",
        }
    }
}

impl Op2 {
    /// The precedence of the operator.
    pub fn prec(&self) -> (n: u8)
        ensures
            n == op2_prec(*self),
    {
        match self {
            Op2::Add => 8,
            Op2::Sub => 8,
            Op2::Mul => 9,
            Op2::Div => 9,
            Op2::Eq => 7,
            Op2::Neq => 7,
            Op2::Lt => 7,
            Op2::Le => 7,
            Op2::Gt => 7,
            Op2::Ge => 7,
            Op2::And => 5,
            Op2::Or => 4,
        }
    }

    /// The associativity of the operator.
    pub fn assoc(&self) -> (a: Assoc)
        ensures
            a == op2_assoc(*self),
    {
        match self {
            Op2::Add => Assoc::Left,
            Op2::Sub => Assoc::Left,
            Op2::Mul => Assoc::Right,
            Op2::Div => Assoc::Right,
            Op2::Eq => Assoc::Neither,
            Op2::Neq => Assoc::Neither,
            Op2::Lt => Assoc::Neither,
            Op2::Le => Assoc::Neither,
            Op2::Gt => Assoc::Neither,
            Op2::Ge => Assoc::Neither,
            Op2::And => Assoc::Left,
            Op2::Or => Assoc::Left,
        }
    }

    /// The token of the operator.
    pub fn token(&self) -> (s: &'static str)
        ensures
            s@ == op2_token(*self),
    {
        match self {
            Op2::Add => "+",
            Op2::Sub => "-",
            Op2::Mul => "*",
            Op2::Div => "/",
            Op2::Eq => "==",
            Op2::Neq => "!=",
            Op2::Lt => "<",
            Op2::Le => "<=",
            Op2::Gt => ">",
            Op2::Ge => ">=",
            Op2::And => "&&",
            Op2::Or => "||",
        }
    }
}

impl Expr {
    /// The entry of the fixity table for this expression.
    pub fn fixity(&self) -> (own: Fixity)
        ensures
            own == expr_fixity(*self),
    {
        match self {
            Expr::Abs(..)
            | Expr::LetPair(..)
            | Expr::Let(..)
            | Expr::If(..)
            | Expr::CaseSum(..)
            | Expr::LetDecl(..) => Fixity::Infix { prec: 1, assoc: Assoc::Right },
            Expr::Drop(..) => Fixity::Infix { prec: 2, assoc: Assoc::Left },
            Expr::Sequence(..) => Fixity::Infix { prec: 2, assoc: Assoc::Right },
            Expr::New(..) => Fixity::Infix { prec: 3, assoc: Assoc::Left },
            Expr::Op1(op, _) => Fixity::Infix { prec: op.prec(), assoc: Assoc::Neither },
            Expr::Op2(op, _, _) => Fixity::Infix { prec: op.prec(), assoc: op.assoc() },
            Expr::App(..)
            | Expr::AppL(..)
            | Expr::Inj(..)
            | Expr::Fork(..)
            | Expr::Send(..)
            | Expr::Recv(..)
            | Expr::End(..)
            | Expr::Select(..)
            | Expr::Offer(..) => Fixity::Infix { prec: 10, assoc: Assoc::Left },
            Expr::Var(..)
            | Expr::Pair(..)
            | Expr::Ann(..)
            | Expr::Borrow(..)
            | Expr::Const(..) => Fixity::Atom,
        }
    }

    /// Appends the expression as it reads in a position that demands `d`.
    pub fn pp(&self, p: &mut PrettyEnv, d: Demand)
        ensures
            final(p)@ == old(p)@ + expr_text(*self, d),
        decreases self, 1int,
    {
        let wrapped = p.open_infix(self.fixity(), d);
        self.pp_inner(p);
        p.close_infix(wrapped);
    }

    /// Appends the expression without parentheses of its own.
    pub fn pp_inner(&self, p: &mut PrettyEnv)
        ensures
            final(p)@ == old(p)@ + expr_inner(*self),
        decreases self, 0int,
    {
        match self {
            Expr::New(r) => {
                p.emit("new ");
                r.pp(p, Demand::at(3));
            },
            Expr::Drop(e) => {
                p.emit("drop ");
                e.pp(p, Demand::operand(Side::Right, 2, Assoc::Left));
            },
            Expr::Var(x) => p.emit(x.val.as_str()),
            Expr::Abs(x, e) => {
                p.emit("λ");
                p.emit(x.val.as_str());
                p.emit(". ");
                e.pp(p, Demand::operand(Side::Right, 1, Assoc::Right));
            },
            Expr::App(e1, e2) => {
                e1.pp(p, Demand::operand(Side::Left, 10, Assoc::Left));
                p.emit(" ");
                e2.pp(p, Demand::operand(Side::Right, 10, Assoc::Left));
            },
            Expr::AppL(e1, e2) => {
                e1.pp(p, Demand::operand(Side::Left, 10, Assoc::Left));
                p.emit(" |> ");
                e2.pp(p, Demand::operand(Side::Right, 10, Assoc::Left));
            },
            Expr::Inj(l, e) => {
                p.emit("inj ");
                p.emit(l.val.as_str());
                p.emit(" ");
                e.pp(p, Demand::operand(Side::Right, 10, Assoc::Left));
            },
            Expr::Fork(e) => {
                p.emit("fork ");
                e.pp(p, Demand::operand(Side::Right, 10, Assoc::Left));
            },
            Expr::Send(e1, e2) => {
                p.emit("send ");
                e1.pp(p, Demand::operand(Side::Right, 10, Assoc::Left));
                p.emit(" ");
                e2.pp(p, Demand::operand(Side::Right, 10, Assoc::Left));
            },
            Expr::Recv(e) => {
                p.emit("recv ");
                e.pp(p, Demand::operand(Side::Right, 10, Assoc::Left));
            },
            Expr::End(op, e) => {
                match op {
                    SessionOp::Send => p.emit("term"),
                    SessionOp::Recv => p.emit("wait"),
                }
                p.emit(" ");
                e.pp(p, Demand::operand(Side::Right, 10, Assoc::Left));
            },
            Expr::Pair(e1, e2) => {
                p.emit("(");
                e1.pp(p, Demand::at(0));
                p.emit(", ");
                e2.pp(p, Demand::at(0));
                p.emit(")");
            },
            Expr::LetPair(x, y, e1, e2) => {
                p.emit("let ");
                p.emit(x.val.as_str());
                p.emit(", ");
                p.emit(y.val.as_str());
                p.emit(" = ");
                e1.pp(p, Demand::at(0));
                p.emit(" in ");
                e2.pp(p, Demand::at(1));
            },
            Expr::Let(x, e1, e2) => {
                p.emit("let ");
                p.emit(x.val.as_str());
                p.emit(" = ");
                e1.pp(p, Demand::at(0));
                p.emit(" in ");
                e2.pp(p, Demand::at(1));
            },
            Expr::If(e1, e2, e3) => {
                p.emit("if ");
                e1.pp(p, Demand::at(0));
                p.emit(" then ");
                e2.pp(p, Demand::at(0));
                p.emit(" else ");
                e3.pp(p, Demand::operand(Side::Right, 1, Assoc::Right));
            },
            Expr::CaseSum(e, cs) => {
                p.emit("case ");
                e.pp(p, Demand::at(1));
                p.emit(" { ");
                proof {
                    assert(decreases_to!(*self => self->CaseSum_1));
                }
                pp_case_arms(cs, p);
                p.emit(" }");
            },
            Expr::Ann(e, t) => {
                e.pp(p, Demand::at(0));
                p.emit(" : ");
                t.pp(p, Demand::at(0));
            },
            Expr::Sequence(e1, e2) => {
                e1.pp(p, Demand::operand(Side::Left, 2, Assoc::Right));
                p.emit("; ");
                e2.pp(p, Demand::operand(Side::Right, 2, Assoc::Right));
            },
            Expr::LetDecl(x, t, cs, e) => {
                p.emit("let ");
                p.emit(x.val.as_str());
                p.emit(" : ");
                t.pp(p, Demand::at(0));
                p.emit("\n");
                proof {
                    assert(decreases_to!(*self => self->LetDecl_2));
                }
                pp_clauses(cs, p);
                p.emit("\n");
                p.emit("in\n");
                e.pp(p, Demand::at(1));
            },
            Expr::Borrow(x) => {
                p.emit("&");
                p.emit(x.val.as_str());
            },
            Expr::Const(c) => c.pp(p),
            Expr::Op1(op, e) => {
                p.emit(op.token());
                p.emit(" ");
                e.pp(p, Demand::operand(Side::Right, op.prec(), Assoc::Neither));
            },
            Expr::Op2(op, e1, e2) => {
                e1.pp(p, Demand::operand(Side::Left, op.prec(), op.assoc()));
                p.emit(" ");
                p.emit(op.token());
                p.emit(" ");
                e2.pp(p, Demand::operand(Side::Right, op.prec(), op.assoc()));
            },
            Expr::Select(l, e) => {
                p.emit("select ");
                p.emit(l.val.as_str());
                p.emit(" ");
                e.pp(p, Demand::operand(Side::Right, 10, Assoc::Left));
            },
            Expr::Offer(e) => {
                p.emit("offer ");
                e.pp(p, Demand::operand(Side::Right, 10, Assoc::Left));
            },
        }
    }

    /// The text of the expression on its own.
    pub fn render(&self) -> (s: String)
        ensures
            s@ == expr_text(*self, Demand::at(0)),
    {
        let mut p = PrettyEnv::new();
        self.pp(&mut p, Demand::at(0));
        p.finish()
    }
}

/// Appends one arm of a case analysis.
fn pp_case_arm(c: &(SLabel, SId, SExpr), p: &mut PrettyEnv)
    ensures
        final(p)@ == old(p)@ + case_arm_text(*c),
    decreases c, 0int,
{
    p.emit("inj ");
    p.emit(c.0.val.as_str());
    p.emit(" ");
    p.emit(c.1.val.as_str());
    p.emit(" → ");
    c.2.pp(p, Demand::at(0));
}

/// Appends the arms of a case analysis, in their order.
fn pp_case_arms(cs: &Vec<(SLabel, SId, SExpr)>, p: &mut PrettyEnv)
    ensures
        final(p)@ == old(p)@ + case_arms_text(cs@),
    decreases cs, 1int,
{
    let mut i: usize = 0;
    while i < cs.len()
        invariant
            i <= cs.len(),
            p@ == old(p)@ + case_arms_text(cs@.take(i as int)),
        decreases cs.len() - i,
    {
        if i != 0 {
            p.emit(", ");
        }
        proof {
            assert(decreases_to!(*cs => cs@[i as int]));
        }
        pp_case_arm(&cs[i], p);
        proof {
            assert(cs@.take(i + 1).drop_last() =~= cs@.take(i as int));
        }
        i = i + 1;
    }
    proof {
        assert(cs@.take(cs.len() as int) =~= cs@);
    }
}

/// Appends the clauses of a declaration, in their order.
fn pp_clauses(cs: &Vec<SClause>, p: &mut PrettyEnv)
    ensures
        final(p)@ == old(p)@ + clauses_text(cs@),
    decreases cs, 1int,
{
    let mut i: usize = 0;
    while i < cs.len()
        invariant
            i <= cs.len(),
            p@ == old(p)@ + clauses_text(cs@.take(i as int)),
        decreases cs.len() - i,
    {
        proof {
            assert(decreases_to!(*cs => cs@[i as int].val));
        }
        cs[i].pp(p);
        proof {
            assert(cs@.take(i + 1).drop_last() =~= cs@.take(i as int));
        }
        i = i + 1;
    }
    proof {
        assert(cs@.take(cs.len() as int) =~= cs@);
    }
}

/// Appends the parameter patterns of a clause, each followed by a space.
fn pp_patterns(ps: &Vec<SPattern>, p: &mut PrettyEnv)
    ensures
        final(p)@ == old(p)@ + patterns_text(ps@),
{
    let mut i: usize = 0;
    while i < ps.len()
        invariant
            i <= ps.len(),
            p@ == old(p)@ + patterns_text(ps@.take(i as int)),
        decreases ps.len() - i,
    {
        ps[i].pp(p);
        p.emit(" ");
        proof {
            assert(ps@.take(i + 1).drop_last() =~= ps@.take(i as int));
        }
        i = i + 1;
    }
    proof {
        assert(ps@.take(ps.len() as int) =~= ps@);
    }
}

impl Clause {
    /// Appends the clause on a line of its own.
    pub fn pp(&self, p: &mut PrettyEnv)
        ensures
            final(p)@ == old(p)@ + clause_text(*self),
        decreases self, 0int,
    {
        p.emit(self.id.val.as_str());
        p.emit(" ");
        pp_patterns(&self.pats, p);
        p.emit("= ");
        self.body.pp(p, Demand::at(0));
        p.emit("\n");
    }

    /// The text of the clause on its own.
    pub fn render(&self) -> (s: String)
        ensures
            s@ == clause_text(*self),
    {
        let mut p = PrettyEnv::new();
        self.pp(&mut p);
        p.finish()
    }
}

impl Spanned<Expr> {
    /// Appends the expression inside: where it came from is not looked at.
    pub fn pp(&self, p: &mut PrettyEnv, d: Demand)
        ensures
            final(p)@ == old(p)@ + expr_text(self.val, d),
        decreases self, 0int,
    {
        self.val.pp(p, d)
    }
}

impl Spanned<Clause> {
    /// Appends the clause inside: where it came from is not looked at.
    pub fn pp(&self, p: &mut PrettyEnv)
        ensures
            final(p)@ == old(p)@ + clause_text(self.val),
        decreases self, 0int,
    {
        self.val.pp(p)
    }
}

} // verus!
