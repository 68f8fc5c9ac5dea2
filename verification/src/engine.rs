//! The printing context: the output buffer and the parenthesization decision.

use crate::fixity::{needs_parens, Demand, Fixity};
use vstd::prelude::*;
use vstd::string::StringExecFns;

verus! {

/// The text that opens a rendering that is `wrapped`.
pub open spec fn open_text(wrapped: bool) -> Seq<char> {
    if wrapped {
        "("@
    } else {
        Seq::empty()
    }
}

/// The text that closes a rendering that is `wrapped`.
pub open spec fn close_text(wrapped: bool) -> Seq<char> {
    if wrapped {
        ")"@
    } else {
        Seq::empty()
    }
}

/// `body`, inside one pair of parentheses if `wrapped`.
pub open spec fn enclose(wrapped: bool, body: Seq<char>) -> Seq<char> {
    open_text(wrapped) + body + close_text(wrapped)
}

/// The rendering in a position demanding `d` of a node whose fixity is `own`
/// and whose bare form is `body`.
pub open spec fn in_position(own: Fixity, d: Demand, body: Seq<char>) -> Seq<char> {
    enclose(needs_parens(own, d), body)
}

/// Concatenation may be regrouped: the renderers append piece by piece what
/// their contracts state as one text.
pub broadcast proof fn lemma_concat_assoc(a: Seq<char>, b: Seq<char>, c: Seq<char>)
    ensures
        #[trigger] (a + (b + c)) == (a + b) + c,
{
}

/// The empty text is neutral on the right.
pub broadcast proof fn lemma_concat_empty(a: Seq<char>)
    ensures
        #[trigger] (a + Seq::<char>::empty()) == a,
{
}

/// The empty text is neutral on the left.
pub broadcast proof fn lemma_empty_concat(a: Seq<char>)
    ensures
        #[trigger] (Seq::<char>::empty() + a) == a,
{
}

/// The facts about concatenation that the renderers' proofs rest on.
pub broadcast group group_concat {
    lemma_concat_assoc,
    lemma_concat_empty,
    lemma_empty_concat,
}

/// The output buffer that the renderers append to.
pub struct PrettyEnv {
    out: String,
}

impl View for PrettyEnv {
    type V = Seq<char>;

    /// The text accumulated so far.
    closed spec fn view(&self) -> Seq<char> {
        self.out@
    }
}

impl PrettyEnv {
    /// An empty buffer.
    pub fn new() -> (p: PrettyEnv)
        ensures
            p@ == Seq::<char>::empty(),
    {
        PrettyEnv { out: String::new() }
    }

    /// Appends literal text.
    pub fn emit(&mut self, text: &str)
        ensures
            final(self)@ == old(self)@ + text@,
    {
        self.out.append(text);
    }

    /// Enters the rendering of a node with fixity `own` in a position that
    /// demands `d`: decides whether the node is parenthesized and, if so,
    /// opens the parenthesis. The result goes to [`PrettyEnv::close_infix`]
    /// once the node's bare form has been appended.
    pub fn open_infix(&mut self, own: Fixity, d: Demand) -> (wrapped: bool)
        ensures
            wrapped == needs_parens(own, d),
            final(self)@ == old(self)@ + open_text(wrapped),
    {
        let wrapped = needs_parens(own, d);
        if wrapped {
            self.out.append("(");
        }
        wrapped
    }

    /// Leaves the rendering entered by [`PrettyEnv::open_infix`].
    pub fn close_infix(&mut self, wrapped: bool)
        ensures
            final(self)@ == old(self)@ + close_text(wrapped),
    {
        if wrapped {
            self.out.append(")");
        }
    }

    /// The accumulated text.
    pub fn as_str(&self) -> (s: &str)
        ensures
            s@ == self@,
    {
        self.out.as_str()
    }

    /// Gives up the buffer for the accumulated text.
    pub fn finish(self) -> (s: String)
        ensures
            s@ == self@,
    {
        self.out
    }
}

} // verus!
