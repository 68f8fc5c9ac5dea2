//! The sorts without precedence: multiplicities, effects, constants and
//! patterns.

use crate::decimal::int_text;
use crate::engine::{group_concat, PrettyEnv};
use crate::syntax::{Const, Eff, Mult, Pattern, SMult, Spanned};
use vstd::prelude::*;

verus! {

broadcast use group_concat;

/// The token of a multiplicity.
pub open spec fn mult_text(m: Mult) -> Seq<char> {
    match m {
        Mult::Unr => "unr"@,
        Mult::Lin => "lin"@,
        Mult::OrdR => "right"@,
        Mult::OrdL => "left"@,
    }
}

/// An optional multiplicity annotation: nothing where there is none, else the
/// token in square brackets.
pub open spec fn opt_mult_text(m: Option<SMult>) -> Seq<char> {
    match m {
        None => Seq::empty(),
        Some(m) => "["@ + mult_text(m.val) + "]"@,
    }
}

/// The token of an effect.
pub open spec fn eff_text(e: Eff) -> Seq<char> {
    match e {
        Eff::Yes => "1"@,
        Eff::No => "0"@,
    }
}

/// The literal of a truth value.
pub open spec fn bool_text(b: bool) -> Seq<char> {
    if b {
        "true"@
    } else {
        "false"@
    }
}

/// The literal of a constant. A string stands between two quote marks as it
/// is: nothing in it is escaped.
pub open spec fn const_text(c: Const) -> Seq<char> {
    match c {
        Const::Unit => "unit"@,
        Const::Int(v) => int_text(v as int),
        Const::Bool(v) => bool_text(v),
        Const::String(v) => "\""@ + v@ + "\""@,
    }
}

/// A pattern: a name, or a pair in parentheses.
pub open spec fn pattern_text(pat: Pattern) -> Seq<char>
    decreases pat,
{
    match pat {
        Pattern::Var(x) => x.val@,
        Pattern::Pair(p1, p2) => "("@ + pattern_text(p1.val) + ", "@ + pattern_text(p2.val) + ")"@,
    }
}

impl Mult {
    /// Appends the token of the multiplicity.
    pub fn pp(&self, p: &mut PrettyEnv)
        ensures
            final(p)@ == old(p)@ + mult_text(*self),
    {
        match self {
            Mult::Unr => p.emit("unr"),
            Mult::Lin => p.emit("lin"),
            Mult::OrdR => p.emit("right"),
            Mult::OrdL => p.emit("left"),
        }
    }

    /// The token of the multiplicity.
    pub fn render(&self) -> (s: String)
        ensures
            s@ == mult_text(*self),
    {
        let mut p = PrettyEnv::new();
        self.pp(&mut p);
        p.finish()
    }
}

/// Appends an optional multiplicity annotation.
pub fn pp_opt_mult(m: &Option<SMult>, p: &mut PrettyEnv)
    ensures
        final(p)@ == old(p)@ + opt_mult_text(*m),
{
    match m {
        None => {},
        Some(m) => {
            p.emit("[");
            m.pp(p);
            p.emit("]");
        },
    }
}

impl Eff {
    /// Appends the token of the effect.
    pub fn pp(&self, p: &mut PrettyEnv)
        ensures
            final(p)@ == old(p)@ + eff_text(*self),
    {
        match self {
            Eff::Yes => p.emit("1"),
            Eff::No => p.emit("0"),
        }
    }

    /// The token of the effect.
    pub fn render(&self) -> (s: String)
        ensures
            s@ == eff_text(*self),
    {
        let mut p = PrettyEnv::new();
        self.pp(&mut p);
        p.finish()
    }
}

impl Const {
    /// Appends the literal of the constant.
    pub fn pp(&self, p: &mut PrettyEnv)
        ensures
            final(p)@ == old(p)@ + const_text(*self),
    {
        match self {
            Const::Unit => p.emit("unit"),
            Const::Int(v) => p.emit_int(*v),
            Const::Bool(v) => {
                if *v {
                    p.emit("true");
                } else {
                    p.emit("false");
                }
            },
            Const::String(v) => {
                p.emit("\"");
                p.emit(v.as_str());
                p.emit("\"");
            },
        }
    }

    /// The literal of the constant.
    pub fn render(&self) -> (s: String)
        ensures
            s@ == const_text(*self),
    {
        let mut p = PrettyEnv::new();
        self.pp(&mut p);
        p.finish()
    }
}

impl Pattern {
    /// Appends the pattern.
    pub fn pp(&self, p: &mut PrettyEnv)
        ensures
            final(p)@ == old(p)@ + pattern_text(*self),
        decreases self,
    {
        match self {
            Pattern::Var(x) => p.emit(x.val.as_str()),
            Pattern::Pair(p1, p2) => {
                p.emit("(");
                p1.pp(p);
                p.emit(", ");
                p2.pp(p);
                p.emit(")");
            },
        }
    }

    /// The text of the pattern.
    pub fn render(&self) -> (s: String)
        ensures
            s@ == pattern_text(*self),
    {
        let mut p = PrettyEnv::new();
        self.pp(&mut p);
        p.finish()
    }
}

impl Spanned<Mult> {
    /// Appends the multiplicity inside: where it came from is not looked at.
    pub fn pp(&self, p: &mut PrettyEnv)
        ensures
            final(p)@ == old(p)@ + mult_text(self.val),
    {
        self.val.pp(p)
    }
}

impl Spanned<Eff> {
    /// Appends the effect inside: where it came from is not looked at.
    pub fn pp(&self, p: &mut PrettyEnv)
        ensures
            final(p)@ == old(p)@ + eff_text(self.val),
    {
        self.val.pp(p)
    }
}

impl Spanned<Pattern> {
    /// Appends the pattern inside: where it came from is not looked at.
    pub fn pp(&self, p: &mut PrettyEnv)
        ensures
            final(p)@ == old(p)@ + pattern_text(self.val),
        decreases self,
    {
        self.val.pp(p)
    }
}

} // verus!
