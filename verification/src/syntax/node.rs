//! Content nodes.

use crate::pretty::Pretty;
use crate::pretty::Printer;
use crate::syntax::expr::bracket_call_text;
use crate::syntax::expr::pretty_bracket_call;
use crate::syntax::expr::Expr;
use crate::syntax::span::SpanVec;
use crate::syntax::span::Spanned;
use vstd::prelude::*;

verus! {

/// A piece of content: a sequence of nodes with their ranges.
pub type Tree = SpanVec<Node>;

/// A node of content.
#[derive(Debug, PartialEq)]
pub enum Node {
    /// Plain text.
    Text(String),
    /// Whitespace containing less than two newlines.
    Space,
    /// A forced line break: `\`.
    Linebreak,
    /// A paragraph break: two or more newlines.
    Parbreak,
    /// Strong text was switched on or off: `*`.
    Strong,
    /// Emphasized text was switched on or off: `_`.
    Emph,
    /// An expression.
    Expr(Expr),
}

/// The texts of the nodes, one after the other.
pub open spec fn tree_text(tree: Seq<Spanned<Node>>) -> Seq<char>
    decreases tree, 0nat,
{
    if tree.len() == 0 {
        Seq::empty()
    } else {
        tree_text(tree.drop_last()) + tree.last().v.text()
    }
}

/// The text of an expression that stands as a node of content: a call in
/// bracket form, content without braces of its own, and any other expression
/// in braces.
pub open spec fn expr_node_text(expr: Expr) -> Seq<char>
    decreases expr, 1nat,
{
    match expr {
        Expr::Call(call) => bracket_call_text(call, false),
        Expr::Content(content) => tree_text(content@),
        _ => "{"@ + expr.text() + "}"@,
    }
}

impl Pretty for Node {
    open spec fn text(&self) -> Seq<char>
        decreases self, 0nat,
    {
        match self {
            Node::Text(text) => text@,
            Node::Space => " "@,
            Node::Linebreak => "\\"@,
            Node::Parbreak => "\n\n"@,
            Node::Strong => "*"@,
            Node::Emph => "_"@,
            Node::Expr(expr) => expr_node_text(*expr),
        }
    }

    fn pretty(&self, p: &mut Printer)
        decreases self, 0nat,
    {
        match self {
            Node::Text(text) => p.push_str(text.as_str()),
            Node::Space => p.push_str(" "),
            Node::Linebreak => p.push_str("\\"),
            Node::Parbreak => p.push_str("\n\n"),
            Node::Strong => p.push_str("*"),
            Node::Emph => p.push_str("_"),
            Node::Expr(expr) => pretty_expr_node(expr, p),
        }
    }
}

impl Pretty for Tree {
    open spec fn text(&self) -> Seq<char>
        decreases self, 0nat,
    {
        tree_text(self@)
    }

    fn pretty(&self, p: &mut Printer)
        decreases self, 0nat,
    {
        let mut i: usize = 0;
        while i < self.len()
            invariant
                i <= self.len(),
                p@ == old(p)@ + tree_text(self@.take(i as int)),
            decreases self.len() - i,
        {
            assert(self@.take(i + 1).drop_last() == self@.take(i as int));
            self[i].v.pretty(p);
            i += 1;
        }
        assert(self@.take(i as int) == self@);
    }
}

/// Prints an expression that stands as a node of content.
pub fn pretty_expr_node(expr: &Expr, p: &mut Printer)
    ensures
        final(p)@ == old(p)@ + expr_node_text(*expr),
    decreases expr, 1nat,
{
    match expr {
        Expr::Call(call) => pretty_bracket_call(call, p, false),
        Expr::Content(content) => content.pretty(p),
        _ => {
            p.push_str("{");
            expr.pretty(p);
            p.push_str("}");
        },
    }
}

} // verus!
