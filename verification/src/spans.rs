//! Rendering is blind to where a node came from: two trees that agree in
//! everything but their spans render to the same text.

use crate::exprs::{
    case_arm_text, case_arms_text, clause_text, clauses_text, expr_fixity, expr_inner, expr_text,
    op1_prec, op2_assoc, op2_prec, patterns_text,
};
use crate::fixity::{Assoc, Demand, Side};
use crate::leaves::{const_text, pattern_text};
use crate::syntax::{
    Clause, Const, Expr, Pattern, SClause, SExpr, SId, SLabel, SPattern, SSession, SType,
    Session, Spanned, Type,
};
use crate::types::{
    choice_member_text, choice_members_text, session_fixity, session_inner, session_text,
    type_fixity, type_inner, type_text, variant_member_text, variant_members_text,
};
use vstd::prelude::*;

verus! {

/// Two names read the same, wherever they stand.
pub open spec fn same_name(a: Spanned<String>, b: Spanned<String>) -> bool {
    a.val@ == b.val@
}

/// Two constants agree.
pub open spec fn same_const(a: Const, b: Const) -> bool {
    match (a, b) {
        (Const::Unit, Const::Unit) => true,
        (Const::Int(v), Const::Int(w)) => v == w,
        (Const::Bool(v), Const::Bool(w)) => v == w,
        (Const::String(v), Const::String(w)) => v@ == w@,
        _ => false,
    }
}

/// Two patterns agree but for their spans.
pub open spec fn same_pattern(a: Pattern, b: Pattern) -> bool
    decreases a,
{
    match (a, b) {
        (Pattern::Var(x), Pattern::Var(y)) => same_name(x, y),
        (Pattern::Pair(a1, a2), Pattern::Pair(b1, b2)) => same_pattern(a1.val, b1.val)
            && same_pattern(a2.val, b2.val),
        _ => false,
    }
}

/// Two pattern lists agree, member by member, but for their spans.
pub open spec fn same_patterns(a: Seq<SPattern>, b: Seq<SPattern>) -> bool
    decreases a.len(),
{
    if a.len() == 0 {
        b.len() == 0
    } else {
        b.len() > 0 && same_patterns(a.drop_last(), b.drop_last()) && same_pattern(
            a.last().val,
            b.last().val,
        )
    }
}

/// Two types agree but for their spans.
pub open spec fn same_type(a: Type, b: Type) -> bool
    decreases a, 0int,
{
    match (a, b) {
        (Type::Arr(m1, e1, a1, a2), Type::Arr(m2, e2, b1, b2)) => m1.val == m2.val && e1.val
            == e2.val && same_type(a1.val, b1.val) && same_type(a2.val, b2.val),
        (Type::Prod(m1, a1, a2), Type::Prod(m2, b1, b2)) => m1.val == m2.val && same_type(
            a1.val,
            b1.val,
        ) && same_type(a2.val, b2.val),
        (Type::Chan(s1), Type::Chan(s2)) => same_session(s1.val, s2.val),
        (Type::Variant(cs1), Type::Variant(cs2)) => same_variant_members(cs1@, cs2@),
        (Type::Unit, Type::Unit) => true,
        (Type::Int, Type::Int) => true,
        (Type::Bool, Type::Bool) => true,
        (Type::String, Type::String) => true,
        _ => false,
    }
}

/// Two member lists of a labelled sum agree, member by member, but for their
/// spans.
pub open spec fn same_variant_members(a: Seq<(SLabel, SType)>, b: Seq<(SLabel, SType)>) -> bool
    decreases a, 0int,
{
    if a.len() == 0 {
        b.len() == 0
    } else {
        b.len() > 0 && same_variant_members(a.drop_last(), b.drop_last()) && same_name(
            a.last().0,
            b.last().0,
        ) && same_type(a.last().1.val, b.last().1.val)
    }
}

/// Two session protocols agree but for their spans.
pub open spec fn same_session(a: Session, b: Session) -> bool
    decreases a, 0int,
{
    match (a, b) {
        (Session::Op(op1, t1, s1), Session::Op(op2, t2, s2)) => op1 == op2 && same_type(
            t1.val,
            t2.val,
        ) && same_session(s1.val, s2.val),
        (Session::End(op1), Session::End(op2)) => op1 == op2,
        (Session::Var(x), Session::Var(y)) => same_name(x, y),
        (Session::Mu(x, s1), Session::Mu(y, s2)) => same_name(x, y) && same_session(
            s1.val,
            s2.val,
        ),
        (Session::Choice(op1, cs1), Session::Choice(op2, cs2)) => op1 == op2
            && same_choice_members(cs1@, cs2@),
        (Session::Return, Session::Return) => true,
        _ => false,
    }
}

/// Two branch lists of a choice agree, branch by branch, but for their spans.
pub open spec fn same_choice_members(
    a: Seq<(SLabel, SSession)>,
    b: Seq<(SLabel, SSession)>,
) -> bool
    decreases a, 0int,
{
    if a.len() == 0 {
        b.len() == 0
    } else {
        b.len() > 0 && same_choice_members(a.drop_last(), b.drop_last()) && same_name(
            a.last().0,
            b.last().0,
        ) && same_session(a.last().1.val, b.last().1.val)
    }
}

/// Two expressions agree but for their spans.
pub open spec fn same_expr(a: Expr, b: Expr) -> bool
    decreases a, 0int,
{
    match (a, b) {
        (Expr::New(r1), Expr::New(r2)) => same_type(r1.val, r2.val),
        (Expr::Drop(a1), Expr::Drop(b1)) => same_expr(a1.val, b1.val),
        (Expr::Var(x), Expr::Var(y)) => same_name(x, y),
        (Expr::Abs(x, a1), Expr::Abs(y, b1)) => same_name(x, y) && same_expr(a1.val, b1.val),
        (Expr::App(a1, a2), Expr::App(b1, b2)) => same_expr(a1.val, b1.val) && same_expr(
            a2.val,
            b2.val,
        ),
        (Expr::AppL(a1, a2), Expr::AppL(b1, b2)) => same_expr(a1.val, b1.val) && same_expr(
            a2.val,
            b2.val,
        ),
        (Expr::Inj(l1, a1), Expr::Inj(l2, b1)) => same_name(l1, l2) && same_expr(a1.val, b1.val),
        (Expr::Fork(a1), Expr::Fork(b1)) => same_expr(a1.val, b1.val),
        (Expr::Send(a1, a2), Expr::Send(b1, b2)) => same_expr(a1.val, b1.val) && same_expr(
            a2.val,
            b2.val,
        ),
        (Expr::Recv(a1), Expr::Recv(b1)) => same_expr(a1.val, b1.val),
        (Expr::End(op1, a1), Expr::End(op2, b1)) => op1 == op2 && same_expr(a1.val, b1.val),
        (Expr::Pair(a1, a2), Expr::Pair(b1, b2)) => same_expr(a1.val, b1.val) && same_expr(
            a2.val,
            b2.val,
        ),
        (Expr::LetPair(x1, y1, a1, a2), Expr::LetPair(x2, y2, b1, b2)) => same_name(x1, x2)
            && same_name(y1, y2) && same_expr(a1.val, b1.val) && same_expr(a2.val, b2.val),
        (Expr::Let(x1, a1, a2), Expr::Let(x2, b1, b2)) => same_name(x1, x2) && same_expr(
            a1.val,
            b1.val,
        ) && same_expr(a2.val, b2.val),
        (Expr::If(a1, a2, a3), Expr::If(b1, b2, b3)) => same_expr(a1.val, b1.val) && same_expr(
            a2.val,
            b2.val,
        ) && same_expr(a3.val, b3.val),
        (Expr::CaseSum(a1, cs1), Expr::CaseSum(b1, cs2)) => same_expr(a1.val, b1.val)
            && same_case_arms(cs1@, cs2@),
        (Expr::Ann(a1, t1), Expr::Ann(b1, t2)) => same_expr(a1.val, b1.val) && same_type(
            t1.val,
            t2.val,
        ),
        (Expr::Sequence(a1, a2), Expr::Sequence(b1, b2)) => same_expr(a1.val, b1.val)
            && same_expr(a2.val, b2.val),
        (Expr::LetDecl(x1, t1, cs1, a1), Expr::LetDecl(x2, t2, cs2, b1)) => same_name(x1, x2)
            && same_type(t1.val, t2.val) && same_clauses(cs1@, cs2@) && same_expr(a1.val, b1.val),
        (Expr::Borrow(x), Expr::Borrow(y)) => same_name(x, y),
        (Expr::Const(c1), Expr::Const(c2)) => same_const(c1, c2),
        (Expr::Op1(op1, a1), Expr::Op1(op2, b1)) => op1 == op2 && same_expr(a1.val, b1.val),
        (Expr::Op2(op1, a1, a2), Expr::Op2(op2, b1, b2)) => op1 == op2 && same_expr(
            a1.val,
            b1.val,
        ) && same_expr(a2.val, b2.val),
        (Expr::Select(l1, a1), Expr::Select(l2, b1)) => same_name(l1, l2) && same_expr(
            a1.val,
            b1.val,
        ),
        (Expr::Offer(a1), Expr::Offer(b1)) => same_expr(a1.val, b1.val),
        _ => false,
    }
}

/// Two arm lists of a case analysis agree, arm by arm, but for their spans.
pub open spec fn same_case_arms(
    a: Seq<(SLabel, SId, SExpr)>,
    b: Seq<(SLabel, SId, SExpr)>,
) -> bool
    decreases a, 0int,
{
    if a.len() == 0 {
        b.len() == 0
    } else {
        b.len() > 0 && same_case_arms(a.drop_last(), b.drop_last()) && same_name(
            a.last().0,
            b.last().0,
        ) && same_name(a.last().1, b.last().1) && same_expr(a.last().2.val, b.last().2.val)
    }
}

/// Two clauses agree but for their spans.
pub open spec fn same_clause(a: Clause, b: Clause) -> bool
    decreases a, 0int,
{
    same_name(a.id, b.id) && same_patterns(a.pats@, b.pats@) && same_expr(a.body.val, b.body.val)
}

/// Two clause lists agree, clause by clause, but for their spans.
pub open spec fn same_clauses(a: Seq<SClause>, b: Seq<SClause>) -> bool
    decreases a, 0int,
{
    if a.len() == 0 {
        b.len() == 0
    } else {
        b.len() > 0 && same_clauses(a.drop_last(), b.drop_last()) && same_clause(
            a.last().val,
            b.last().val,
        )
    }
}

/// Constants that agree render the same.
pub proof fn lemma_const_text_ignores_spans(a: Const, b: Const)
    requires
        same_const(a, b),
    ensures
        const_text(a) == const_text(b),
{
}

/// Patterns that agree but for their spans render the same.
pub proof fn lemma_pattern_text_ignores_spans(a: Pattern, b: Pattern)
    requires
        same_pattern(a, b),
    ensures
        pattern_text(a) == pattern_text(b),
    decreases a,
{
    match (a, b) {
        (Pattern::Pair(a1, a2), Pattern::Pair(b1, b2)) => {
            lemma_pattern_text_ignores_spans(a1.val, b1.val);
            lemma_pattern_text_ignores_spans(a2.val, b2.val);
        },
        _ => {},
    }
}

/// Pattern lists that agree but for their spans render the same.
pub proof fn lemma_patterns_text_ignores_spans(a: Seq<SPattern>, b: Seq<SPattern>)
    requires
        same_patterns(a, b),
    ensures
        patterns_text(a) == patterns_text(b),
    decreases a.len(),
{
    if a.len() > 0 {
        lemma_patterns_text_ignores_spans(a.drop_last(), b.drop_last());
        lemma_pattern_text_ignores_spans(a.last().val, b.last().val);
    }
}

/// Types that agree but for their spans render the same in every position.
pub proof fn lemma_type_text_ignores_spans(a: Type, b: Type, d: Demand)
    requires
        same_type(a, b),
    ensures
        type_fixity(a) == type_fixity(b),
        type_inner(a) == type_inner(b),
        type_text(a, d) == type_text(b, d),
    decreases a, 0int,
{
    match (a, b) {
        (Type::Arr(_, _, a1, a2), Type::Arr(_, _, b1, b2)) => {
            lemma_type_text_ignores_spans(a1.val, b1.val, Demand::operand(Side::Left, 2, Assoc::Right));
            lemma_type_text_ignores_spans(a2.val, b2.val, Demand::operand(Side::Right, 2, Assoc::Right));
        },
        (Type::Prod(_, a1, a2), Type::Prod(_, b1, b2)) => {
            lemma_type_text_ignores_spans(a1.val, b1.val, Demand::operand(Side::Left, 3, Assoc::Neither));
            lemma_type_text_ignores_spans(a2.val, b2.val, Demand::operand(Side::Right, 3, Assoc::Neither));
        },
        (Type::Chan(s1), Type::Chan(s2)) => {
            lemma_session_text_ignores_spans(s1.val, s2.val, Demand::operand(Side::Right, 4, Assoc::Neither));
        },
        (Type::Variant(cs1), Type::Variant(cs2)) => {
            lemma_variant_members_text_ignores_spans(cs1@, cs2@);
        },
        _ => {},
    }
}

/// Member lists that agree but for their spans render the same.
pub proof fn lemma_variant_members_text_ignores_spans(
    a: Seq<(SLabel, SType)>,
    b: Seq<(SLabel, SType)>,
)
    requires
        same_variant_members(a, b),
    ensures
        a.len() == b.len(),
        variant_members_text(a) == variant_members_text(b),
    decreases a, 0int,
{
    if a.len() > 0 {
        lemma_variant_members_text_ignores_spans(a.drop_last(), b.drop_last());
        lemma_type_text_ignores_spans(a.last().1.val, b.last().1.val, Demand::at(0));
        assert(variant_member_text(a.last()) == variant_member_text(b.last()));
    }
}

/// Session protocols that agree but for their spans render the same in every
/// position.
pub proof fn lemma_session_text_ignores_spans(a: Session, b: Session, d: Demand)
    requires
        same_session(a, b),
    ensures
        session_fixity(a) == session_fixity(b),
        session_inner(a) == session_inner(b),
        session_text(a, d) == session_text(b, d),
    decreases a, 0int,
{
    match (a, b) {
        (Session::Op(_, t1, s1), Session::Op(_, t2, s2)) => {
            lemma_type_text_ignores_spans(t1.val, t2.val, Demand::at(10));
            lemma_session_text_ignores_spans(s1.val, s2.val, Demand::at(0));
        },
        (Session::Mu(_, s1), Session::Mu(_, s2)) => {
            lemma_session_text_ignores_spans(s1.val, s2.val, Demand::operand(Side::Right, 0, Assoc::Right));
        },
        (Session::Choice(_, cs1), Session::Choice(_, cs2)) => {
            lemma_choice_members_text_ignores_spans(cs1@, cs2@);
        },
        _ => {},
    }
}

/// Branch lists that agree but for their spans render the same.
pub proof fn lemma_choice_members_text_ignores_spans(
    a: Seq<(SLabel, SSession)>,
    b: Seq<(SLabel, SSession)>,
)
    requires
        same_choice_members(a, b),
    ensures
        a.len() == b.len(),
        choice_members_text(a) == choice_members_text(b),
    decreases a, 0int,
{
    if a.len() > 0 {
        lemma_choice_members_text_ignores_spans(a.drop_last(), b.drop_last());
        lemma_session_text_ignores_spans(a.last().1.val, b.last().1.val, Demand::at(0));
        assert(choice_member_text(a.last()) == choice_member_text(b.last()));
    }
}

/// Expressions that agree but for their spans render the same in every
/// position.
pub proof fn lemma_expr_text_ignores_spans(a: Expr, b: Expr, d: Demand)
    requires
        same_expr(a, b),
    ensures
        expr_fixity(a) == expr_fixity(b),
        expr_inner(a) == expr_inner(b),
        expr_text(a, d) == expr_text(b, d),
    decreases a, 0int,
{
    let operand = Demand::operand(Side::Right, 10, Assoc::Left);
    match (a, b) {
        (Expr::New(r1), Expr::New(r2)) => {
            lemma_type_text_ignores_spans(r1.val, r2.val, Demand::at(3));
        },
        (Expr::Drop(a1), Expr::Drop(b1)) => {
            lemma_expr_text_ignores_spans(
                a1.val,
                b1.val,
                Demand::operand(Side::Right, 2, Assoc::Left),
            );
        },
        (Expr::Abs(_, a1), Expr::Abs(_, b1)) => {
            lemma_expr_text_ignores_spans(
                a1.val,
                b1.val,
                Demand::operand(Side::Right, 1, Assoc::Right),
            );
        },
        (Expr::App(a1, a2), Expr::App(b1, b2)) => {
            lemma_expr_text_ignores_spans(
                a1.val,
                b1.val,
                Demand::operand(Side::Left, 10, Assoc::Left),
            );
            lemma_expr_text_ignores_spans(a2.val, b2.val, operand);
        },
        (Expr::AppL(a1, a2), Expr::AppL(b1, b2)) => {
            lemma_expr_text_ignores_spans(
                a1.val,
                b1.val,
                Demand::operand(Side::Left, 10, Assoc::Left),
            );
            lemma_expr_text_ignores_spans(a2.val, b2.val, operand);
        },
        (Expr::Inj(_, a1), Expr::Inj(_, b1)) => {
            lemma_expr_text_ignores_spans(a1.val, b1.val, operand);
        },
        (Expr::Fork(a1), Expr::Fork(b1)) => {
            lemma_expr_text_ignores_spans(a1.val, b1.val, operand);
        },
        (Expr::Send(a1, a2), Expr::Send(b1, b2)) => {
            lemma_expr_text_ignores_spans(a1.val, b1.val, operand);
            lemma_expr_text_ignores_spans(a2.val, b2.val, operand);
        },
        (Expr::Recv(a1), Expr::Recv(b1)) => {
            lemma_expr_text_ignores_spans(a1.val, b1.val, operand);
        },
        (Expr::End(_, a1), Expr::End(_, b1)) => {
            lemma_expr_text_ignores_spans(a1.val, b1.val, operand);
        },
        (Expr::Pair(a1, a2), Expr::Pair(b1, b2)) => {
            lemma_expr_text_ignores_spans(a1.val, b1.val, Demand::at(0));
            lemma_expr_text_ignores_spans(a2.val, b2.val, Demand::at(0));
        },
        (Expr::LetPair(_, _, a1, a2), Expr::LetPair(_, _, b1, b2)) => {
            lemma_expr_text_ignores_spans(a1.val, b1.val, Demand::at(0));
            lemma_expr_text_ignores_spans(a2.val, b2.val, Demand::at(1));
        },
        (Expr::Let(_, a1, a2), Expr::Let(_, b1, b2)) => {
            lemma_expr_text_ignores_spans(a1.val, b1.val, Demand::at(0));
            lemma_expr_text_ignores_spans(a2.val, b2.val, Demand::at(1));
        },
        (Expr::If(a1, a2, a3), Expr::If(b1, b2, b3)) => {
            lemma_expr_text_ignores_spans(a1.val, b1.val, Demand::at(0));
            lemma_expr_text_ignores_spans(a2.val, b2.val, Demand::at(0));
            lemma_expr_text_ignores_spans(
                a3.val,
                b3.val,
                Demand::operand(Side::Right, 1, Assoc::Right),
            );
        },
        (Expr::CaseSum(a1, cs1), Expr::CaseSum(b1, cs2)) => {
            lemma_expr_text_ignores_spans(a1.val, b1.val, Demand::at(1));
            lemma_case_arms_text_ignores_spans(cs1@, cs2@);
        },
        (Expr::Ann(a1, t1), Expr::Ann(b1, t2)) => {
            lemma_expr_text_ignores_spans(a1.val, b1.val, Demand::at(0));
            lemma_type_text_ignores_spans(t1.val, t2.val, Demand::at(0));
        },
        (Expr::Sequence(a1, a2), Expr::Sequence(b1, b2)) => {
            lemma_expr_text_ignores_spans(
                a1.val,
                b1.val,
                Demand::operand(Side::Left, 2, Assoc::Right),
            );
            lemma_expr_text_ignores_spans(
                a2.val,
                b2.val,
                Demand::operand(Side::Right, 2, Assoc::Right),
            );
        },
        (Expr::LetDecl(_, t1, cs1, a1), Expr::LetDecl(_, t2, cs2, b1)) => {
            lemma_type_text_ignores_spans(t1.val, t2.val, Demand::at(0));
            lemma_clauses_text_ignores_spans(cs1@, cs2@);
            lemma_expr_text_ignores_spans(a1.val, b1.val, Demand::at(1));
        },
        (Expr::Const(c1), Expr::Const(c2)) => {
            lemma_const_text_ignores_spans(c1, c2);
        },
        (Expr::Op1(op, a1), Expr::Op1(_, b1)) => {
            lemma_expr_text_ignores_spans(
                a1.val,
                b1.val,
                Demand::operand(Side::Right, op1_prec(op), Assoc::Neither),
            );
        },
        (Expr::Op2(op, a1, a2), Expr::Op2(_, b1, b2)) => {
            lemma_expr_text_ignores_spans(
                a1.val,
                b1.val,
                Demand::operand(Side::Left, op2_prec(op), op2_assoc(op)),
            );
            lemma_expr_text_ignores_spans(
                a2.val,
                b2.val,
                Demand::operand(Side::Right, op2_prec(op), op2_assoc(op)),
            );
        },
        (Expr::Select(_, a1), Expr::Select(_, b1)) => {
            lemma_expr_text_ignores_spans(a1.val, b1.val, operand);
        },
        (Expr::Offer(a1), Expr::Offer(b1)) => {
            lemma_expr_text_ignores_spans(a1.val, b1.val, operand);
        },
        _ => {},
    }
}

/// Arm lists that agree but for their spans render the same.
pub proof fn lemma_case_arms_text_ignores_spans(
    a: Seq<(SLabel, SId, SExpr)>,
    b: Seq<(SLabel, SId, SExpr)>,
)
    requires
        same_case_arms(a, b),
    ensures
        a.len() == b.len(),
        case_arms_text(a) == case_arms_text(b),
    decreases a, 0int,
{
    if a.len() > 0 {
        lemma_case_arms_text_ignores_spans(a.drop_last(), b.drop_last());
        lemma_expr_text_ignores_spans(a.last().2.val, b.last().2.val, Demand::at(0));
        assert(case_arm_text(a.last()) == case_arm_text(b.last()));
    }
}

/// Clauses that agree but for their spans render the same.
pub proof fn lemma_clause_text_ignores_spans(a: Clause, b: Clause)
    requires
        same_clause(a, b),
    ensures
        clause_text(a) == clause_text(b),
    decreases a, 0int,
{
    lemma_patterns_text_ignores_spans(a.pats@, b.pats@);
    lemma_expr_text_ignores_spans(a.body.val, b.body.val, Demand::at(0));
}

/// Clause lists that agree but for their spans render the same.
pub proof fn lemma_clauses_text_ignores_spans(a: Seq<SClause>, b: Seq<SClause>)
    requires
        same_clauses(a, b),
    ensures
        a.len() == b.len(),
        clauses_text(a) == clauses_text(b),
    decreases a, 0int,
{
    if a.len() > 0 {
        lemma_clauses_text_ignores_spans(a.drop_last(), b.drop_last());
        lemma_clause_text_ignores_spans(a.last().val, b.last().val);
    }
}

} // verus!
