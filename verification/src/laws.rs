//! What holds of every rendering: parentheses stand exactly where the fixity
//! table asks for them, operator chains stay flat on the side they associate
//! to, lists keep their order, and no node renders to nothing.

use crate::decimal::int_text;
use crate::engine::{group_concat, in_position};
use crate::exprs::{
    case_arms_text, clause_text, clauses_text, expr_fixity, expr_inner, expr_text, op2_assoc,
    op2_prec, op2_token,
};
use crate::fixity::{needs_parens, Assoc, Demand, Fixity, Side};
use crate::leaves::{const_text, eff_text, mult_text, pattern_text};
use crate::syntax::{
    Clause, Const, Eff, Expr, Mult, Op2, Pattern, SClause, SExpr, SId, SLabel, SSession, SType,
    Session, Type,
};
use crate::types::{
    arrow_mark, choice_member_text, choice_members_text, list_sep, session_fixity, session_inner,
    session_text, type_fixity, type_inner, type_text, variant_member_text, variant_members_text,
};
use vstd::prelude::*;

verus! {

/// A node whose precedence is at least the minimum of its position, and
/// whose associativity fits the chain of the position where the two
/// precedences are equal, is rendered as its bare form: the engine puts no
/// parentheses around it.
pub proof fn lemma_no_redundant_parens(own: Fixity, d: Demand, body: Seq<char>)
    requires
        own.level() >= d.min_prec,
        !own.clashes_with(d),
    ensures
        !needs_parens(own, d),
        in_position(own, d, body) == body,
{
}

/// A node whose precedence is below the minimum of its position is rendered
/// as its bare form inside exactly one pair of parentheses.
pub proof fn lemma_no_missing_parens(own: Fixity, d: Demand, body: Seq<char>)
    requires
        own.level() < d.min_prec,
    ensures
        needs_parens(own, d),
        in_position(own, d, body) == "("@ + body + ")"@,
{
}

/// A node of exactly the precedence of its position whose associativity
/// cannot continue the chain of the position is parenthesized, once.
pub proof fn lemma_parens_on_clash(own: Fixity, d: Demand, body: Seq<char>)
    requires
        own.clashes_with(d),
    ensures
        own.level() == d.min_prec,
        needs_parens(own, d),
        in_position(own, d, body) == "("@ + body + ")"@,
{
}

/// An atom is never parenthesized, whatever its position demands.
pub proof fn lemma_atom_always_bare(d: Demand, body: Seq<char>)
    ensures
        !needs_parens(Fixity::Atom, d),
        in_position(Fixity::Atom, d, body) == body,
{
}

/// On the side that an operator associates to, an operand with the operator's
/// own precedence and associativity needs no parentheses: chains stay flat.
pub proof fn lemma_chain_side_admits_own_level(side: Side, prec: u8, assoc: Assoc)
    requires
        assoc.chains_on(side),
    ensures
        !needs_parens(Fixity::Infix { prec, assoc }, Demand::operand(side, prec, assoc)),
{
}

/// On the side that an operator does not associate to, and on both sides of
/// an operator that does not chain, an operand of the operator's precedence
/// or lower needs parentheses, whatever its own associativity.
pub proof fn lemma_other_side_rejects_own_level(
    side: Side,
    prec: u8,
    assoc: Assoc,
    operand_prec: u8,
    operand_assoc: Assoc,
)
    requires
        !assoc.chains_on(side),
        operand_prec <= prec,
    ensures
        needs_parens(
            Fixity::Infix { prec: operand_prec, assoc: operand_assoc },
            Demand::operand(side, prec, assoc),
        ),
{
}

/// An operand that binds tighter than its operator needs no parentheses on
/// either side.
pub proof fn lemma_tighter_operand_is_bare(
    side: Side,
    prec: u8,
    assoc: Assoc,
    operand_prec: u8,
    operand_assoc: Assoc,
)
    requires
        operand_prec > prec,
    ensures
        !needs_parens(
            Fixity::Infix { prec: operand_prec, assoc: operand_assoc },
            Demand::operand(side, prec, assoc),
        ),
{
}

/// In a position delimited by keywords or brackets that asks for precedence
/// 0, nothing is parenthesized.
pub proof fn lemma_bare_at_zero(own: Fixity, body: Seq<char>)
    ensures
        !needs_parens(own, Demand::at(0)),
        in_position(own, Demand::at(0), body) == body,
{
}

/// The law of redundant parentheses, for types.
pub proof fn lemma_type_no_redundant_parens(t: Type, d: Demand)
    requires
        type_fixity(t).level() >= d.min_prec,
        !type_fixity(t).clashes_with(d),
    ensures
        type_text(t, d) == type_inner(t),
        type_text(t, d) == type_text(t, Demand::at(0)),
{
}

/// The law of missing parentheses, for types.
pub proof fn lemma_type_no_missing_parens(t: Type, d: Demand)
    requires
        type_fixity(t).level() < d.min_prec,
    ensures
        type_text(t, d) == "("@ + type_inner(t) + ")"@,
        type_text(t, d) == "("@ + type_text(t, Demand::at(0)) + ")"@,
{
}

/// The law of redundant parentheses, for session protocols.
pub proof fn lemma_session_no_redundant_parens(s: Session, d: Demand)
    requires
        session_fixity(s).level() >= d.min_prec,
        !session_fixity(s).clashes_with(d),
    ensures
        session_text(s, d) == session_inner(s),
        session_text(s, d) == session_text(s, Demand::at(0)),
{
}

/// The law of missing parentheses, for session protocols.
pub proof fn lemma_session_no_missing_parens(s: Session, d: Demand)
    requires
        session_fixity(s).level() < d.min_prec,
    ensures
        session_text(s, d) == "("@ + session_inner(s) + ")"@,
        session_text(s, d) == "("@ + session_text(s, Demand::at(0)) + ")"@,
{
}

/// The law of redundant parentheses, for expressions.
pub proof fn lemma_expr_no_redundant_parens(e: Expr, d: Demand)
    requires
        expr_fixity(e).level() >= d.min_prec,
        !expr_fixity(e).clashes_with(d),
    ensures
        expr_text(e, d) == expr_inner(e),
        expr_text(e, d) == expr_text(e, Demand::at(0)),
{
}

/// The law of missing parentheses, for expressions.
pub proof fn lemma_expr_no_missing_parens(e: Expr, d: Demand)
    requires
        expr_fixity(e).level() < d.min_prec,
    ensures
        expr_text(e, d) == "("@ + expr_inner(e) + ")"@,
        expr_text(e, d) == "("@ + expr_text(e, Demand::at(0)) + ")"@,
{
}

/// A chain of three operands under two binary operators of one precedence
/// that associate to the left, grouped to the left, renders flat: the inner
/// operation stands in the left operand without parentheses.
pub proof fn lemma_left_chain_is_flat(e: Expr, outer: Op2, inner: Op2, a: Expr, b: Expr, c: Expr)
    requires
        e matches Expr::Op2(o, l, r) && o == outer && r.val == c && (l.val matches Expr::Op2(
            i,
            x,
            y,
        ) && i == inner && x.val == a && y.val == b),
        op2_assoc(outer) == Assoc::Left,
        op2_assoc(inner) == Assoc::Left,
        op2_prec(inner) == op2_prec(outer),
    ensures
        expr_inner(e) == expr_text(a, Demand::operand(Side::Left, op2_prec(outer), Assoc::Left))
            + " "@ + op2_token(inner) + " "@ + expr_text(
            b,
            Demand::operand(Side::Right, op2_prec(outer), Assoc::Left),
        ) + " "@ + op2_token(outer) + " "@ + expr_text(
            c,
            Demand::operand(Side::Right, op2_prec(outer), Assoc::Left),
        ),
{
    let chain = (e->Op2_1).val;
    lemma_expr_no_redundant_parens(
        chain,
        Demand::operand(Side::Left, op2_prec(outer), Assoc::Left),
    );
}

/// A chain of three operands under two binary operators of one precedence
/// that associate to the right, grouped to the right, renders flat: the inner
/// operation stands in the right operand without parentheses.
pub proof fn lemma_right_chain_is_flat(e: Expr, outer: Op2, inner: Op2, a: Expr, b: Expr, c: Expr)
    requires
        e matches Expr::Op2(o, l, r) && o == outer && l.val == a && (r.val matches Expr::Op2(
            i,
            x,
            y,
        ) && i == inner && x.val == b && y.val == c),
        op2_assoc(outer) == Assoc::Right,
        op2_assoc(inner) == Assoc::Right,
        op2_prec(inner) == op2_prec(outer),
    ensures
        expr_inner(e) == expr_text(a, Demand::operand(Side::Left, op2_prec(outer), Assoc::Right))
            + " "@ + op2_token(outer) + " "@ + expr_text(
            b,
            Demand::operand(Side::Left, op2_prec(outer), Assoc::Right),
        ) + " "@ + op2_token(inner) + " "@ + expr_text(
            c,
            Demand::operand(Side::Right, op2_prec(outer), Assoc::Right),
        ),
{
    let chain = (e->Op2_2).val;
    lemma_expr_no_redundant_parens(
        chain,
        Demand::operand(Side::Right, op2_prec(outer), Assoc::Right),
    );
}

/// Application associates to the left: a function applied to two arguments
/// in turn renders as the three of them side by side.
pub proof fn lemma_application_chain_is_flat(e: Expr, f: Expr, x: Expr, y: Expr)
    requires
        e matches Expr::App(l, r) && r.val == y && (l.val matches Expr::App(g, z) && g.val == f
            && z.val == x),
    ensures
        expr_inner(e) == expr_text(f, Demand::operand(Side::Left, 10, Assoc::Left)) + " "@
            + expr_text(x, Demand::operand(Side::Right, 10, Assoc::Left)) + " "@ + expr_text(
            y,
            Demand::operand(Side::Right, 10, Assoc::Left),
        ),
{
    let chain = (e->App_0).val;
    lemma_expr_no_redundant_parens(chain, Demand::operand(Side::Left, 10, Assoc::Left));
}

/// Sequencing associates to the right: three expressions in sequence,
/// grouped to the right, render flat.
pub proof fn lemma_sequence_chain_is_flat(e: Expr, a: Expr, b: Expr, c: Expr)
    requires
        e matches Expr::Sequence(l, r) && l.val == a && (r.val matches Expr::Sequence(x, y)
            && x.val == b && y.val == c),
    ensures
        expr_inner(e) == expr_text(a, Demand::operand(Side::Left, 2, Assoc::Right)) + "; "@
            + expr_text(b, Demand::operand(Side::Left, 2, Assoc::Right)) + "; "@ + expr_text(
            c,
            Demand::operand(Side::Right, 2, Assoc::Right),
        ),
{
    let chain = (e->Sequence_1).val;
    lemma_expr_no_redundant_parens(chain, Demand::operand(Side::Right, 2, Assoc::Right));
}

/// The function arrow associates to the right: an arrow whose range is an
/// arrow renders flat.
pub proof fn lemma_arrow_chain_is_flat(
    t: Type,
    m1: Mult,
    e1: Eff,
    m2: Mult,
    e2: Eff,
    a: Type,
    b: Type,
    c: Type,
)
    requires
        t matches Type::Arr(m, e, l, r) && m.val == m1 && e.val == e1 && l.val == a && (
        r.val matches Type::Arr(n, f, x, y) && n.val == m2 && f.val == e2 && x.val == b && y.val
            == c),
    ensures
        type_inner(t) == type_text(a, Demand::operand(Side::Left, 2, Assoc::Right)) + arrow_mark(
            m1,
            e1,
        ) + type_text(b, Demand::operand(Side::Left, 2, Assoc::Right)) + arrow_mark(m2, e2)
            + type_text(c, Demand::operand(Side::Right, 2, Assoc::Right)),
{
    let chain = (t->Arr_3).val;
    lemma_type_no_redundant_parens(chain, Demand::operand(Side::Right, 2, Assoc::Right));
}

/// The members of a labelled sum render in their order: the text of one
/// member list after another is the text of the first, the separator where
/// neither is empty, and the text of the second.
pub proof fn lemma_variant_members_in_order(a: Seq<(SLabel, SType)>, b: Seq<(SLabel, SType)>)
    ensures
        variant_members_text(a + b) == variant_members_text(a) + list_sep(
            a.len() == 0 || b.len() == 0,
        ) + variant_members_text(b),
    decreases b.len(),
{
    broadcast use group_concat;

    if b.len() > 0 {
        assert((a + b).drop_last() =~= a + b.drop_last());
        lemma_variant_members_in_order(a, b.drop_last());
    }
}

/// A list of one member renders as that member.
pub proof fn lemma_variant_member_alone(c: (SLabel, SType))
    ensures
        variant_members_text(seq![c]) == variant_member_text(c),
{
    broadcast use group_concat;

    assert(variant_members_text(seq![c].drop_last()) =~= Seq::<char>::empty());
}

/// The branches of a choice render in their order: the text of one branch
/// list after another is the text of the first, the separator where neither
/// is empty, and the text of the second.
pub proof fn lemma_choice_members_in_order(a: Seq<(SLabel, SSession)>, b: Seq<(SLabel, SSession)>)
    ensures
        choice_members_text(a + b) == choice_members_text(a) + list_sep(
            a.len() == 0 || b.len() == 0,
        ) + choice_members_text(b),
    decreases b.len(),
{
    broadcast use group_concat;

    if b.len() > 0 {
        assert((a + b).drop_last() =~= a + b.drop_last());
        lemma_choice_members_in_order(a, b.drop_last());
    }
}

/// A list of one branch renders as that branch.
pub proof fn lemma_choice_member_alone(c: (SLabel, SSession))
    ensures
        choice_members_text(seq![c]) == choice_member_text(c),
{
    broadcast use group_concat;

    assert(choice_members_text(seq![c].drop_last()) =~= Seq::<char>::empty());
}

/// The arms of a case analysis render in their order.
pub proof fn lemma_case_arms_in_order(a: Seq<(SLabel, SId, SExpr)>, b: Seq<(SLabel, SId, SExpr)>)
    ensures
        case_arms_text(a + b) == case_arms_text(a) + list_sep(a.len() == 0 || b.len() == 0)
            + case_arms_text(b),
    decreases b.len(),
{
    broadcast use group_concat;

    if b.len() > 0 {
        assert((a + b).drop_last() =~= a + b.drop_last());
        lemma_case_arms_in_order(a, b.drop_last());
    }
}

/// The clauses of a declaration render in their order, each on its line.
pub proof fn lemma_clauses_in_order(a: Seq<SClause>, b: Seq<SClause>)
    ensures
        clauses_text(a + b) == clauses_text(a) + clauses_text(b),
    decreases b.len(),
{
    broadcast use group_concat;

    if b.len() > 0 {
        assert((a + b).drop_last() =~= a + b.drop_last());
        lemma_clauses_in_order(a, b.drop_last());
    }
}

/// A multiplicity never renders to nothing.
pub proof fn lemma_mult_text_nonempty(m: Mult)
    ensures
        mult_text(m).len() > 0,
{
    reveal_strlit("unr");
    reveal_strlit("lin");
    reveal_strlit("right");
    reveal_strlit("left");
}

/// An effect never renders to nothing.
pub proof fn lemma_eff_text_nonempty(e: Eff)
    ensures
        eff_text(e).len() > 0,
{
    reveal_strlit("1");
    reveal_strlit("0");
}

/// An integer has at least one digit.
pub proof fn lemma_int_text_nonempty(v: int)
    ensures
        int_text(v).len() > 0,
{
}

/// A constant never renders to nothing: even the empty string has its quotes.
pub proof fn lemma_const_text_nonempty(c: Const)
    ensures
        const_text(c).len() > 0,
{
    reveal_strlit("unit");
    reveal_strlit("true");
    reveal_strlit("false");
    reveal_strlit("\"");
}

/// A pattern renders to nothing only where it is a variable whose name is
/// empty.
pub proof fn lemma_pattern_text_nonempty(pat: Pattern)
    ensures
        pattern_text(pat).len() == 0 <==> (pat matches Pattern::Var(x) && x.val@.len() == 0),
{
    reveal_strlit("(");
}

/// A type never renders to nothing.
pub proof fn lemma_type_text_nonempty(t: Type, d: Demand)
    ensures
        type_text(t, d).len() > 0,
{
    reveal_strlit(" –[");
    reveal_strlit(" ⊗ ");
    reveal_strlit(" ⊙ ");
    reveal_strlit(" *[");
    reveal_strlit("Chan ");
    reveal_strlit("<");
    reveal_strlit("Unit");
    reveal_strlit("Int");
    reveal_strlit("Bool");
    reveal_strlit("String");
}

/// A session protocol renders to nothing only where it is a variable whose
/// name is empty.
pub proof fn lemma_session_text_nonempty(s: Session, d: Demand)
    ensures
        session_text(s, d).len() == 0 <==> (s matches Session::Var(x) && x.val@.len() == 0),
{
    reveal_strlit(". ");
    reveal_strlit("term");
    reveal_strlit("wait");
    reveal_strlit("{");
    reveal_strlit("return");
}

/// An expression renders to nothing only where it is a variable whose name
/// is empty.
pub proof fn lemma_expr_text_nonempty(e: Expr, d: Demand)
    ensures
        expr_text(e, d).len() == 0 <==> (e matches Expr::Var(x) && x.val@.len() == 0),
{
    reveal_strlit("new ");
    reveal_strlit("drop ");
    reveal_strlit("λ");
    reveal_strlit(" ");
    reveal_strlit(" |> ");
    reveal_strlit("fork ");
    reveal_strlit("recv ");
    reveal_strlit("(");
    reveal_strlit("let ");
    reveal_strlit("if ");
    reveal_strlit("case ");
    reveal_strlit(" : ");
    reveal_strlit("; ");
    reveal_strlit("&");
    reveal_strlit("offer ");
    if let Expr::Const(c) = e {
        lemma_const_text_nonempty(c);
    }
}

/// A clause never renders to nothing.
pub proof fn lemma_clause_text_nonempty(c: Clause)
    ensures
        clause_text(c).len() > 0,
{
    reveal_strlit("= ");
}

} // verus!
