//! Precedence and associativity: what a node is, what its position asks for,
//! and when the two disagree enough to need parentheses.

use vstd::prelude::*;

verus! {

/// How an operator groups with operators of its own precedence.
#[derive(Clone, Copy, Debug, PartialEq, Eq)]
pub enum Assoc {
    Left,
    Right,
    /// The operator does not chain with its own level on either side.
    Neither,
}

/// The operand position of a child below an operator.
#[derive(Clone, Copy, Debug, PartialEq, Eq)]
pub enum Side {
    Left,
    Right,
}

/// What a node reports about itself to the position it is rendered in.
#[derive(Clone, Copy, Debug, PartialEq, Eq)]
pub enum Fixity {
    /// A form that is never parenthesized: it ranks above every demand.
    Atom,
    /// An infix or prefix form with its precedence (0 binds loosest) and
    /// associativity.
    Infix { prec: u8, assoc: Assoc },
}

/// What a position asks of the node rendered in it.
#[derive(Clone, Copy, Debug, PartialEq, Eq)]
pub struct Demand {
    /// The least precedence that may stand in the position without parentheses.
    pub min_prec: u16,
    /// `Some(side)` where the position continues an operator chain on that
    /// side: a node of exactly `min_prec` must then associate to that side.
    pub chain: Option<Side>,
}

impl Assoc {
    /// An operator with this associativity chains with its own level on `side`.
    pub open spec fn spec_chains_on(self, side: Side) -> bool {
        match (self, side) {
            (Assoc::Left, Side::Left) => true,
            (Assoc::Right, Side::Right) => true,
            _ => false,
        }
    }

    /// Whether an operator with this associativity chains with its own level
    /// on `side`.
    #[verifier::when_used_as_spec(spec_chains_on)]
    pub fn chains_on(self, side: Side) -> (b: bool)
        ensures
            b == self.spec_chains_on(side),
    {
        match (self, side) {
            (Assoc::Left, Side::Left) => true,
            (Assoc::Right, Side::Right) => true,
            _ => false,
        }
    }
}

impl Fixity {
    /// The precedence a node reports; an atom ranks above every `u16` demand.
    pub open spec fn level(self) -> int {
        match self {
            Fixity::Atom => 0x1_0000,
            Fixity::Infix { prec, .. } => prec as int,
        }
    }

    /// At equal precedence, the node cannot continue the chain of `d`.
    pub open spec fn clashes_with(self, d: Demand) -> bool {
        match (self, d.chain) {
            (Fixity::Infix { prec, assoc }, Some(side)) => prec == d.min_prec && !assoc.chains_on(
                side,
            ),
            _ => false,
        }
    }
}

impl Demand {
    /// The demand of a position delimited by keywords or brackets: only the
    /// precedence counts.
    pub open spec fn spec_at(min_prec: u8) -> Demand {
        Demand { min_prec: min_prec as u16, chain: None }
    }

    /// The demand of a position delimited by keywords or brackets.
    #[verifier::when_used_as_spec(spec_at)]
    pub fn at(min_prec: u8) -> (d: Demand)
        ensures
            d == Demand::spec_at(min_prec),
    {
        Demand { min_prec: min_prec as u16, chain: None }
    }

    /// The demand of the operand on `side` of an operator with precedence
    /// `prec` and associativity `assoc`: the operator's own precedence on the
    /// side it chains on, one more on the other side and on both sides of an
    /// operator that does not chain.
    pub open spec fn spec_operand(side: Side, prec: u8, assoc: Assoc) -> Demand {
        if assoc.chains_on(side) {
            Demand { min_prec: prec as u16, chain: Some(side) }
        } else {
            Demand { min_prec: (prec + 1) as u16, chain: None }
        }
    }

    /// The demand of the operand on `side` of an operator.
    #[verifier::when_used_as_spec(spec_operand)]
    pub fn operand(side: Side, prec: u8, assoc: Assoc) -> (d: Demand)
        ensures
            d == Demand::spec_operand(side, prec, assoc),
    {
        if assoc.chains_on(side) {
            Demand { min_prec: prec as u16, chain: Some(side) }
        } else {
            Demand { min_prec: prec as u16 + 1, chain: None }
        }
    }
}

/// A node with fixity `own` must be parenthesized in a position that demands
/// `d`: its precedence is below the minimum, or equal to it while its
/// associativity cannot continue the chain of the position.
pub open spec fn spec_needs_parens(own: Fixity, d: Demand) -> bool {
    own.level() < d.min_prec || own.clashes_with(d)
}

/// Whether a node with fixity `own` must be parenthesized in a position that
/// demands `d`.
#[verifier::when_used_as_spec(spec_needs_parens)]
pub fn needs_parens(own: Fixity, d: Demand) -> (b: bool)
    ensures
        b == spec_needs_parens(own, d),
{
    match own {
        Fixity::Atom => false,
        Fixity::Infix { prec, assoc } => {
            let level: u16 = prec as u16;
            if level < d.min_prec {
                true
            } else if level == d.min_prec {
                match d.chain {
                    Some(side) => !assoc.chains_on(side),
                    None => false,
                }
            } else {
                false
            }
        },
    }
}

} // verus!
