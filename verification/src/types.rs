//! Types and session protocols: their fixity table, their text, and the
//! renderers that produce it.

use crate::engine::{group_concat, in_position, PrettyEnv};
use crate::fixity::{Assoc, Demand, Fixity, Side};
use crate::leaves::{eff_text, mult_text};
use crate::syntax::{Eff, Mult, SLabel, SSession, SType, Session, SessionOp, Spanned, Type};
use vstd::prelude::*;

verus! {

broadcast use group_concat;

/// The separator in front of a list member: nothing before the first, a comma
/// and a space before the others.
pub open spec fn list_sep(first: bool) -> Seq<char> {
    if first {
        Seq::empty()
    } else {
        ", "@
    }
}

/// The fixity table of types.
pub open spec fn type_fixity(t: Type) -> Fixity {
    match t {
        Type::Arr(..) => Fixity::Infix { prec: 2, assoc: Assoc::Right },
        Type::Prod(..) => Fixity::Infix { prec: 3, assoc: Assoc::Neither },
        Type::Chan(..) => Fixity::Infix { prec: 4, assoc: Assoc::Neither },
        Type::Variant(..) => Fixity::Atom,
        Type::Unit => Fixity::Atom,
        Type::Int => Fixity::Atom,
        Type::Bool => Fixity::Atom,
        Type::String => Fixity::Atom,
    }
}

/// The fixity table of session protocols.
pub open spec fn session_fixity(s: Session) -> Fixity {
    match s {
        Session::Op(..) => Fixity::Infix { prec: 0, assoc: Assoc::Right },
        Session::Mu(..) => Fixity::Infix { prec: 0, assoc: Assoc::Right },
        Session::End(..) => Fixity::Atom,
        Session::Var(..) => Fixity::Atom,
        Session::Choice(..) => Fixity::Atom,
        Session::Return => Fixity::Atom,
    }
}

/// The arrow between domain and range, with its multiplicity and effect.
pub open spec fn arrow_mark(m: Mult, e: Eff) -> Seq<char> {
    " –["@ + mult_text(m) + "; "@ + eff_text(e) + "]→ "@
}

/// The operator between the two sides of a product, by its multiplicity.
pub open spec fn prod_mark(m: Mult) -> Seq<char> {
    match m {
        Mult::Lin => " ⊗ "@,
        Mult::OrdR => " ⊙ "@,
        _ => " *["@ + mult_text(m) + "] "@,
    }
}

/// The prefix of a communication, by its direction.
pub open spec fn op_mark(op: SessionOp) -> Seq<char> {
    match op {
        SessionOp::Send => "!"@,
        SessionOp::Recv => "?"@,
    }
}

/// The keyword that ends a protocol, by its direction.
pub open spec fn end_text(op: SessionOp) -> Seq<char> {
    match op {
        SessionOp::Send => "term"@,
        SessionOp::Recv => "wait"@,
    }
}

/// The prefix of a choice, by its direction.
pub open spec fn choice_mark(op: SessionOp) -> Seq<char> {
    match op {
        SessionOp::Send => "+"@,
        SessionOp::Recv => "&"@,
    }
}

/// A type in a position that demands `d`.
pub open spec fn type_text(t: Type, d: Demand) -> Seq<char>
    decreases t, 1int,
{
    in_position(type_fixity(t), d, type_inner(t))
}

/// A type without parentheses of its own.
pub open spec fn type_inner(t: Type) -> Seq<char>
    decreases t, 0int,
{
    match t {
        Type::Arr(m, e, t1, t2) => type_text(t1.val, Demand::operand(Side::Left, 2, Assoc::Right))
            + arrow_mark(m.val, e.val) + type_text(
            t2.val,
            Demand::operand(Side::Right, 2, Assoc::Right),
        ),
        Type::Prod(m, t1, t2) => type_text(
            t1.val,
            Demand::operand(Side::Left, 3, Assoc::Neither),
        ) + prod_mark(m.val) + type_text(t2.val, Demand::operand(Side::Right, 3, Assoc::Neither)),
        Type::Chan(s) => "Chan "@ + session_text(
            s.val,
            Demand::operand(Side::Right, 4, Assoc::Neither),
        ),
        Type::Variant(cs) => "<"@ + variant_members_text(cs@) + ">"@,
        Type::Unit => "Unit"@,
        Type::Int => "Int"@,
        Type::Bool => "Bool"@,
        Type::String => "String"@,
    }
}

/// One member of a labelled sum: the label, a colon, and the type on its own.
pub open spec fn variant_member_text(c: (SLabel, SType)) -> Seq<char>
    decreases c, 0int,
{
    c.0.val@ + ": "@ + type_text(c.1.val, Demand::at(0))
}

/// The members of a labelled sum, in the order of the sequence.
pub open spec fn variant_members_text(cs: Seq<(SLabel, SType)>) -> Seq<char>
    decreases cs, 1int,
{
    if cs.len() == 0 {
        Seq::empty()
    } else {
        variant_members_text(cs.drop_last()) + list_sep(cs.len() == 1) + variant_member_text(
            cs.last(),
        )
    }
}

/// A session protocol in a position that demands `d`.
pub open spec fn session_text(s: Session, d: Demand) -> Seq<char>
    decreases s, 1int,
{
    in_position(session_fixity(s), d, session_inner(s))
}

/// A session protocol without parentheses of its own.
pub open spec fn session_inner(s: Session) -> Seq<char>
    decreases s, 0int,
{
    match s {
        Session::Op(op, t, s1) => op_mark(op) + type_text(t.val, Demand::at(10)) + ". "@
            + session_text(s1.val, Demand::at(0)),
        Session::End(op) => end_text(op),
        Session::Var(x) => x.val@,
        Session::Mu(x, s1) => "µ"@ + x.val@ + ". "@ + session_text(
            s1.val,
            Demand::operand(Side::Right, 0, Assoc::Right),
        ),
        Session::Choice(op, cs) => choice_mark(op) + "{"@ + choice_members_text(cs@) + "}"@,
        Session::Return => "return"@,
    }
}

/// One branch of a choice: the label, a colon, and the protocol on its own.
pub open spec fn choice_member_text(c: (SLabel, SSession)) -> Seq<char>
    decreases c, 0int,
{
    c.0.val@ + ": "@ + session_text(c.1.val, Demand::at(0))
}

/// The branches of a choice, in the order of the sequence.
pub open spec fn choice_members_text(cs: Seq<(SLabel, SSession)>) -> Seq<char>
    decreases cs, 1int,
{
    if cs.len() == 0 {
        Seq::empty()
    } else {
        choice_members_text(cs.drop_last()) + list_sep(cs.len() == 1) + choice_member_text(
            cs.last(),
        )
    }
}

impl Type {
    /// The entry of the fixity table for this type.
    pub fn fixity(&self) -> (own: Fixity)
        ensures
            own == type_fixity(*self),
    {
        match self {
            Type::Arr(..) => Fixity::Infix { prec: 2, assoc: Assoc::Right },
            Type::Prod(..) => Fixity::Infix { prec: 3, assoc: Assoc::Neither },
            Type::Chan(..) => Fixity::Infix { prec: 4, assoc: Assoc::Neither },
            Type::Variant(..) | Type::Unit | Type::Int | Type::Bool | Type::String => Fixity::Atom,
        }
    }

    /// Appends the type as it reads in a position that demands `d`.
    pub fn pp(&self, p: &mut PrettyEnv, d: Demand)
        ensures
            final(p)@ == old(p)@ + type_text(*self, d),
        decreases self, 1int,
    {
        let wrapped = p.open_infix(self.fixity(), d);
        self.pp_inner(p);
        p.close_infix(wrapped);
    }

    /// Appends the type without parentheses of its own.
    pub fn pp_inner(&self, p: &mut PrettyEnv)
        ensures
            final(p)@ == old(p)@ + type_inner(*self),
        decreases self, 0int,
    {
        match self {
            Type::Arr(m, e, t1, t2) => {
                t1.pp(p, Demand::operand(Side::Left, 2, Assoc::Right));
                p.emit(" –[");
                m.pp(p);
                p.emit("; ");
                e.pp(p);
                p.emit("]→ ");
                t2.pp(p, Demand::operand(Side::Right, 2, Assoc::Right));
            },
            Type::Prod(m, t1, t2) => {
                t1.pp(p, Demand::operand(Side::Left, 3, Assoc::Neither));
                match m.val {
                    Mult::Lin => {
                        p.emit(" ⊗ ");
                    },
                    Mult::OrdR => {
                        p.emit(" ⊙ ");
                    },
                    _ => {
                        p.emit(" *[");
                        m.pp(p);
                        p.emit("] ");
                    },
                }
                t2.pp(p, Demand::operand(Side::Right, 3, Assoc::Neither));
            },
            Type::Chan(s) => {
                p.emit("Chan ");
                s.pp(p, Demand::operand(Side::Right, 4, Assoc::Neither));
            },
            Type::Variant(cs) => {
                p.emit("<");
                proof {
                    assert(decreases_to!(*self => self->Variant_0));
                }
                pp_variant_members(cs, p);
                p.emit(">");
            },
            Type::Unit => p.emit("Unit"),
            Type::Int => p.emit("Int"),
            Type::Bool => p.emit("Bool"),
            Type::String => p.emit("String"),
        }
    }

    /// The text of the type on its own.
    pub fn render(&self) -> (s: String)
        ensures
            s@ == type_text(*self, Demand::at(0)),
    {
        let mut p = PrettyEnv::new();
        self.pp(&mut p, Demand::at(0));
        p.finish()
    }
}

impl Session {
    /// The entry of the fixity table for this protocol.
    pub fn fixity(&self) -> (own: Fixity)
        ensures
            own == session_fixity(*self),
    {
        match self {
            Session::Op(..) | Session::Mu(..) => Fixity::Infix { prec: 0, assoc: Assoc::Right },
            Session::End(..) | Session::Var(..) | Session::Choice(..) | Session::Return => {
                Fixity::Atom
            },
        }
    }

    /// Appends the protocol as it reads in a position that demands `d`.
    pub fn pp(&self, p: &mut PrettyEnv, d: Demand)
        ensures
            final(p)@ == old(p)@ + session_text(*self, d),
        decreases self, 1int,
    {
        let wrapped = p.open_infix(self.fixity(), d);
        self.pp_inner(p);
        p.close_infix(wrapped);
    }

    /// Appends the protocol without parentheses of its own.
    pub fn pp_inner(&self, p: &mut PrettyEnv)
        ensures
            final(p)@ == old(p)@ + session_inner(*self),
        decreases self, 0int,
    {
        match self {
            Session::Op(op, t, s) => {
                match op {
                    SessionOp::Send => p.emit("!"),
                    SessionOp::Recv => p.emit("?"),
                }
                t.pp(p, Demand::at(10));
                p.emit(". ");
                s.pp(p, Demand::at(0));
            },
            Session::End(op) => {
                match op {
                    SessionOp::Send => p.emit("term"),
                    SessionOp::Recv => p.emit("wait"),
                }
            },
            Session::Var(x) => p.emit(x.val.as_str()),
            Session::Mu(x, s) => {
                p.emit("µ");
                p.emit(x.val.as_str());
                p.emit(". ");
                s.pp(p, Demand::operand(Side::Right, 0, Assoc::Right));
            },
            Session::Choice(op, cs) => {
                match op {
                    SessionOp::Send => p.emit("+"),
                    SessionOp::Recv => p.emit("&"),
                }
                p.emit("{");
                proof {
                    assert(decreases_to!(*self => self->Choice_1));
                }
                pp_choice_members(cs, p);
                p.emit("}");
            },
            Session::Return => p.emit("return"),
        }
    }

    /// The text of the protocol on its own.
    pub fn render(&self) -> (s: String)
        ensures
            s@ == session_text(*self, Demand::at(0)),
    {
        let mut p = PrettyEnv::new();
        self.pp(&mut p, Demand::at(0));
        p.finish()
    }
}

/// Appends one member of a labelled sum.
fn pp_variant_member(c: &(SLabel, SType), p: &mut PrettyEnv)
    ensures
        final(p)@ == old(p)@ + variant_member_text(*c),
    decreases c, 0int,
{
    p.emit(c.0.val.as_str());
    p.emit(": ");
    c.1.pp(p, Demand::at(0));
}

/// Appends the members of a labelled sum, in their order.
fn pp_variant_members(cs: &Vec<(SLabel, SType)>, p: &mut PrettyEnv)
    ensures
        final(p)@ == old(p)@ + variant_members_text(cs@),
    decreases cs, 1int,
{
    let mut i: usize = 0;
    while i < cs.len()
        invariant
            i <= cs.len(),
            p@ == old(p)@ + variant_members_text(cs@.take(i as int)),
        decreases cs.len() - i,
    {
        if i != 0 {
            p.emit(", ");
        }
        proof {
            assert(decreases_to!(*cs => cs@[i as int]));
        }
        pp_variant_member(&cs[i], p);
        proof {
            assert(cs@.take(i + 1).drop_last() =~= cs@.take(i as int));
        }
        i = i + 1;
    }
    proof {
        assert(cs@.take(cs.len() as int) =~= cs@);
    }
}

/// Appends one branch of a choice.
fn pp_choice_member(c: &(SLabel, SSession), p: &mut PrettyEnv)
    ensures
        final(p)@ == old(p)@ + choice_member_text(*c),
    decreases c, 0int,
{
    p.emit(c.0.val.as_str());
    p.emit(": ");
    c.1.pp(p, Demand::at(0));
}

/// Appends the branches of a choice, in their order.
fn pp_choice_members(cs: &Vec<(SLabel, SSession)>, p: &mut PrettyEnv)
    ensures
        final(p)@ == old(p)@ + choice_members_text(cs@),
    decreases cs, 1int,
{
    let mut i: usize = 0;
    while i < cs.len()
        invariant
            i <= cs.len(),
            p@ == old(p)@ + choice_members_text(cs@.take(i as int)),
        decreases cs.len() - i,
    {
        if i != 0 {
            p.emit(", ");
        }
        proof {
            assert(decreases_to!(*cs => cs@[i as int]));
        }
        pp_choice_member(&cs[i], p);
        proof {
            assert(cs@.take(i + 1).drop_last() =~= cs@.take(i as int));
        }
        i = i + 1;
    }
    proof {
        assert(cs@.take(cs.len() as int) =~= cs@);
    }
}

impl Spanned<Type> {
    /// Appends the type inside: where it came from is not looked at.
    pub fn pp(&self, p: &mut PrettyEnv, d: Demand)
        ensures
            final(p)@ == old(p)@ + type_text(self.val, d),
        decreases self, 0int,
    {
        self.val.pp(p, d)
    }
}

impl Spanned<Session> {
    /// Appends the protocol inside: where it came from is not looked at.
    pub fn pp(&self, p: &mut PrettyEnv, d: Demand)
        ensures
            final(p)@ == old(p)@ + session_text(self.val, d),
        decreases self, 0int,
    {
        self.val.pp(p, d)
    }
}

} // verus!
