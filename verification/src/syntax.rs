//! The syntax trees of the calculus: types, session protocols, expressions,
//! patterns and function clauses, each node optionally carrying the place it
//! came from.

use vstd::prelude::*;

verus! {

/// A range of the source text.
#[derive(Clone, Copy, Debug, PartialEq, Eq)]
pub struct Span {
    pub start: usize,
    pub end: usize,
}

/// A node together with the place it came from. Rendering reads `val` only.
#[derive(Debug, PartialEq, Eq)]
pub struct Spanned<T> {
    pub val: T,
    pub span: Span,
}

impl<T> Spanned<T> {
    /// A node with the place it came from.
    pub fn new(val: T, span: Span) -> (s: Spanned<T>)
        ensures
            s.val == val,
            s.span == span,
    {
        Spanned { val, span }
    }
}

/// A name of a variable or binder.
pub type SId = Spanned<String>;

/// A label of a sum or of a choice.
pub type SLabel = Spanned<String>;

/// A multiplicity with its span.
pub type SMult = Spanned<Mult>;

/// An effect with its span.
pub type SEff = Spanned<Eff>;

/// A type with its span.
pub type SType = Spanned<Type>;

/// A session protocol with its span.
pub type SSession = Spanned<Session>;

/// An expression with its span.
pub type SExpr = Spanned<Expr>;

/// A pattern with its span.
pub type SPattern = Spanned<Pattern>;

/// A clause with its span.
pub type SClause = Spanned<Clause>;

/// How often a resource may be used.
#[derive(Clone, Copy, Debug, PartialEq, Eq)]
pub enum Mult {
    /// Unrestricted.
    Unr,
    /// Linear: exactly once.
    Lin,
    /// Ordered, to the right.
    OrdR,
    /// Ordered, to the left.
    OrdL,
}

/// Whether evaluating a function may have an effect.
#[derive(Clone, Copy, Debug, PartialEq, Eq)]
pub enum Eff {
    Yes,
    No,
}

/// The direction of a communication.
#[derive(Clone, Copy, Debug, PartialEq, Eq)]
pub enum SessionOp {
    Send,
    Recv,
}

/// A type of the calculus.
#[derive(Debug, PartialEq, Eq)]
pub enum Type {
    /// Function type with multiplicity, effect, domain and range.
    Arr(SMult, SEff, Box<SType>, Box<SType>),
    /// Product type with multiplicity.
    Prod(SMult, Box<SType>, Box<SType>),
    /// Channel that follows a protocol.
    Chan(SSession),
    /// Labelled sum, in declaration order.
    Variant(Vec<(SLabel, SType)>),
    Unit,
    Int,
    Bool,
    String,
}

/// A session protocol: what may be sent and received on a channel.
#[derive(Debug, PartialEq, Eq)]
pub enum Session {
    /// Send or receive a payload, then continue.
    Op(SessionOp, Box<SType>, Box<SSession>),
    /// The end of the protocol, by its direction.
    End(SessionOp),
    /// Reference to a recursion binder.
    Var(SId),
    /// Recursive protocol.
    Mu(SId, Box<SSession>),
    /// Labelled branches, in declaration order.
    Choice(SessionOp, Vec<(SLabel, SSession)>),
    Return,
}

/// A literal constant.
#[derive(Debug, PartialEq, Eq)]
pub enum Const {
    Unit,
    Int(i64),
    Bool(bool),
    String(String),
}

/// A unary operator.
#[derive(Clone, Copy, Debug, PartialEq, Eq)]
pub enum Op1 {
    Neg,
    Not,
    ToStr,
    Print,
}

/// A binary operator.
#[derive(Clone, Copy, Debug, PartialEq, Eq)]
pub enum Op2 {
    Add,
    Sub,
    Mul,
    Div,
    Eq,
    Neq,
    Lt,
    Le,
    Gt,
    Ge,
    And,
    Or,
}

/// A parameter pattern of a clause.
#[derive(Debug, PartialEq, Eq)]
pub enum Pattern {
    Var(SId),
    Pair(Box<SPattern>, Box<SPattern>),
}

/// One equation of a function definition.
#[derive(Debug, PartialEq, Eq)]
pub struct Clause {
    pub id: SId,
    pub pats: Vec<SPattern>,
    pub body: SExpr,
}

/// An expression of the calculus.
#[derive(Debug, PartialEq, Eq)]
pub enum Expr {
    /// Allocate a resource of a type.
    New(SType),
    /// Release a resource.
    Drop(Box<SExpr>),
    Var(SId),
    /// Abstraction over a name.
    Abs(SId, Box<SExpr>),
    /// Application by juxtaposition.
    App(Box<SExpr>, Box<SExpr>),
    /// Application written with the pipe operator.
    AppL(Box<SExpr>, Box<SExpr>),
    /// Injection into a labelled sum.
    Inj(SLabel, Box<SExpr>),
    Fork(Box<SExpr>),
    Send(Box<SExpr>, Box<SExpr>),
    Recv(Box<SExpr>),
    /// Close a channel, by direction.
    End(SessionOp, Box<SExpr>),
    Pair(Box<SExpr>, Box<SExpr>),
    /// Bind the two components of a pair.
    LetPair(SId, SId, Box<SExpr>, Box<SExpr>),
    Let(SId, Box<SExpr>, Box<SExpr>),
    If(Box<SExpr>, Box<SExpr>, Box<SExpr>),
    /// Case analysis over a sum: the arms hold a label, a binder and a body.
    CaseSum(Box<SExpr>, Vec<(SLabel, SId, SExpr)>),
    /// Type ascription.
    Ann(Box<SExpr>, SType),
    /// Sequencing.
    Sequence(Box<SExpr>, Box<SExpr>),
    /// Declaration of a function by its type and clauses, in scope of a body.
    LetDecl(SId, SType, Vec<SClause>, Box<SExpr>),
    Borrow(SId),
    Const(Const),
    Op1(Op1, Box<SExpr>),
    Op2(Op2, Box<SExpr>, Box<SExpr>),
    /// Select a branch of a choice.
    Select(SLabel, Box<SExpr>),
    /// Offer the branches of a choice.
    Offer(Box<SExpr>),
}

} // verus!
