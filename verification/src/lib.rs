//! Minimal-parenthesis rendering of a linear, session-typed lambda calculus.
//!
//! A node is rendered into a [`engine::PrettyEnv`] in a position that states
//! its [`fixity::Demand`]: a child that stands between keywords or brackets is
//! printed *at* a precedence ([`fixity::Demand::at`]), a child of an operator
//! is printed *as an operand* on one of its sides
//! ([`fixity::Demand::operand`]). The engine compares the demand with the
//! node's own [`fixity::Fixity`] and parenthesizes the node where the two
//! disagree ([`engine::PrettyEnv::open_infix`]); the renderers of the sorts
//! never decide that themselves.
//!
//! The contract of every renderer equates the text it appends with a `spec`
//! function of the syntax tree, and the laws in [`laws`] and [`spans`] are
//! proved of those functions.

pub mod fixity;
pub mod engine;
pub mod syntax;
pub mod decimal;
pub mod leaves;
pub mod types;
pub mod exprs;
pub mod laws;
pub mod spans;
