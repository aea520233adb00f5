//! Structural sameness of syntax trees, and copies of them.
//!
//! Two vectors that hold the same items are not thereby known to be the same
//! value, so a copy of a tree is described as a tree of the same structure:
//! the same variants, names, literals and ranges, and children of the same
//! structure in the same order.

use crate::pretty::Pretty;
use crate::syntax::expr::args_text;
use crate::syntax::expr::array_text;
use crate::syntax::expr::bracket_call_text;
use crate::syntax::expr::content_expr_text;
use crate::syntax::expr::dict_text;
use crate::syntax::expr::items_text;
use crate::syntax::expr::pairs_text;
use crate::syntax::expr::sole_call;
use crate::syntax::expr::trailing_content;
use crate::syntax::expr::Argument;
use crate::syntax::expr::Expr;
use crate::syntax::expr::ExprArgs;
use crate::syntax::expr::ExprArray;
use crate::syntax::expr::ExprBinary;
use crate::syntax::expr::ExprCall;
use crate::syntax::expr::ExprDict;
use crate::syntax::expr::ExprUnary;
use crate::syntax::expr::Named;
use crate::syntax::ident::Ident;
use crate::syntax::node::expr_node_text;
use crate::syntax::node::tree_text;
use crate::syntax::node::Node;
use crate::syntax::node::Tree;
use crate::syntax::span::Spanned;
use vstd::prelude::*;

verus! {

/// Whether two expressions have the same structure.
pub open spec fn same_expr(a: Expr, b: Expr) -> bool
    decreases a,
{
    match a {
        Expr::Call(x) => b matches Expr::Call(y) && same_call(x, y),
        Expr::Unary(x) => b matches Expr::Unary(y) && same_unary(x, y),
        Expr::Binary(x) => b matches Expr::Binary(y) && same_binary(x, y),
        Expr::Array(x) => b matches Expr::Array(y) && same_items(x@, y@),
        Expr::Dict(x) => b matches Expr::Dict(y) && same_pairs(x@, y@),
        Expr::Content(x) => b matches Expr::Content(y) && same_tree(x@, y@),
        _ => a == b,
    }
}

/// Whether two expressions with their ranges have the same structure.
pub open spec fn same_spanned_expr(a: Spanned<Expr>, b: Spanned<Expr>) -> bool
    decreases a,
{
    a.span == b.span && same_expr(a.v, b.v)
}

/// Whether two calls have the same structure.
pub open spec fn same_call(a: ExprCall, b: ExprCall) -> bool
    decreases a,
{
    a.name == b.name && a.args.span == b.args.span && same_args(a.args.v@, b.args.v@)
}

/// Whether two lists of arguments have the same structure.
pub open spec fn same_args(a: Seq<Argument>, b: Seq<Argument>) -> bool
    decreases a,
{
    a.len() == b.len() && forall|i: int| 0 <= i < a.len() ==> same_argument(a[i], #[trigger] b[i])
}

/// Whether two arguments have the same structure.
pub open spec fn same_argument(a: Argument, b: Argument) -> bool
    decreases a,
{
    match a {
        Argument::Pos(x) => b matches Argument::Pos(y) && same_spanned_expr(x, y),
        Argument::Named(x) => b matches Argument::Named(y) && same_named(x, y),
    }
}

/// Whether two pairs of a name and an expression have the same structure.
pub open spec fn same_named(a: Named, b: Named) -> bool
    decreases a,
{
    a.name == b.name && same_spanned_expr(a.expr, b.expr)
}

/// Whether two unary operations have the same structure.
pub open spec fn same_unary(a: ExprUnary, b: ExprUnary) -> bool
    decreases a,
{
    a.op == b.op && same_spanned_expr(*a.expr, *b.expr)
}

/// Whether two binary operations have the same structure.
pub open spec fn same_binary(a: ExprBinary, b: ExprBinary) -> bool
    decreases a,
{
    a.op == b.op && same_spanned_expr(*a.lhs, *b.lhs) && same_spanned_expr(*a.rhs, *b.rhs)
}

/// Whether the items of two arrays have the same structure.
pub open spec fn same_items(a: Seq<Spanned<Expr>>, b: Seq<Spanned<Expr>>) -> bool
    decreases a,
{
    a.len() == b.len() && forall|i: int|
        0 <= i < a.len() ==> same_spanned_expr(a[i], #[trigger] b[i])
}

/// Whether the pairs of two dictionaries have the same structure.
pub open spec fn same_pairs(a: Seq<Named>, b: Seq<Named>) -> bool
    decreases a,
{
    a.len() == b.len() && forall|i: int| 0 <= i < a.len() ==> same_named(a[i], #[trigger] b[i])
}

/// Whether two pieces of content have the same structure.
pub open spec fn same_tree(a: Seq<Spanned<Node>>, b: Seq<Spanned<Node>>) -> bool
    decreases a,
{
    a.len() == b.len() && forall|i: int|
        0 <= i < a.len() ==> a[i].span == (#[trigger] b[i]).span && same_node(a[i].v, b[i].v)
}

/// Whether two nodes have the same structure.
pub open spec fn same_node(a: Node, b: Node) -> bool
    decreases a,
{
    match a {
        Node::Expr(x) => b matches Node::Expr(y) && same_expr(x, y),
        _ => a == b,
    }
}

impl Clone for Ident {
    fn clone(&self) -> (copy: Ident)
        ensures
            copy == *self,
    {
        Ident(self.0.clone())
    }
}

/// Copies an expression with its range.
fn clone_spanned_expr(expr: &Spanned<Expr>) -> (copy: Spanned<Expr>)
    ensures
        same_spanned_expr(*expr, copy),
    decreases expr,
{
    Spanned { v: expr.v.clone(), span: expr.span }
}

/// Copies a name with its range.
fn clone_name(name: &Spanned<Ident>) -> (copy: Spanned<Ident>)
    ensures
        copy == *name,
{
    Spanned { v: name.v.clone(), span: name.span }
}

/// Copies a list of arguments.
fn clone_args(args: &ExprArgs) -> (copy: ExprArgs)
    ensures
        same_args(args@, copy@),
    decreases args,
{
    let mut copy: ExprArgs = Vec::new();
    let mut i: usize = 0;
    while i < args.len()
        invariant
            i <= args.len(),
            copy@.len() == i,
            forall|j: int| 0 <= j < i ==> same_argument(args@[j], #[trigger] copy@[j]),
        decreases args.len() - i,
    {
        let item = args[i].clone();
        copy.push(item);
        i += 1;
    }
    copy
}

/// Copies the items of an array.
fn clone_items(items: &ExprArray) -> (copy: ExprArray)
    ensures
        same_items(items@, copy@),
    decreases items,
{
    let mut copy: ExprArray = Vec::new();
    let mut i: usize = 0;
    while i < items.len()
        invariant
            i <= items.len(),
            copy@.len() == i,
            forall|j: int| 0 <= j < i ==> same_spanned_expr(items@[j], #[trigger] copy@[j]),
        decreases items.len() - i,
    {
        let item = clone_spanned_expr(&items[i]);
        copy.push(item);
        i += 1;
    }
    copy
}

/// Copies the pairs of a dictionary.
fn clone_pairs(pairs: &ExprDict) -> (copy: ExprDict)
    ensures
        same_pairs(pairs@, copy@),
    decreases pairs,
{
    let mut copy: ExprDict = Vec::new();
    let mut i: usize = 0;
    while i < pairs.len()
        invariant
            i <= pairs.len(),
            copy@.len() == i,
            forall|j: int| 0 <= j < i ==> same_named(pairs@[j], #[trigger] copy@[j]),
        decreases pairs.len() - i,
    {
        let item = pairs[i].clone();
        copy.push(item);
        i += 1;
    }
    copy
}

/// Copies a piece of content.
fn clone_tree(tree: &Tree) -> (copy: Tree)
    ensures
        same_tree(tree@, copy@),
    decreases tree,
{
    let mut copy: Tree = Vec::new();
    let mut i: usize = 0;
    while i < tree.len()
        invariant
            i <= tree.len(),
            copy@.len() == i,
            forall|j: int|
                0 <= j < i ==> tree@[j].span == (#[trigger] copy@[j]).span && same_node(
                    tree@[j].v,
                    copy@[j].v,
                ),
        decreases tree.len() - i,
    {
        let item = Spanned { v: tree[i].v.clone(), span: tree[i].span };
        copy.push(item);
        i += 1;
    }
    copy
}

impl Clone for Expr {
    fn clone(&self) -> (copy: Expr)
        ensures
            same_expr(*self, copy),
        decreases self,
    {
        match self {
            Expr::NoneLit => Expr::NoneLit,
            Expr::Ident(v) => Expr::Ident(v.clone()),
            Expr::Bool(v) => Expr::Bool(*v),
            Expr::Int(v) => Expr::Int(*v),
            Expr::Float(v) => Expr::Float(*v),
            Expr::Length(v, u) => Expr::Length(*v, *u),
            Expr::Percent(v) => Expr::Percent(*v),
            Expr::Color(v) => Expr::Color(*v),
            Expr::Str(s) => Expr::Str(s.clone()),
            Expr::Call(call) => Expr::Call(call.clone()),
            Expr::Unary(unary) => Expr::Unary(unary.clone()),
            Expr::Binary(binary) => Expr::Binary(binary.clone()),
            Expr::Array(array) => Expr::Array(clone_items(array)),
            Expr::Dict(dict) => Expr::Dict(clone_pairs(dict)),
            Expr::Content(content) => Expr::Content(clone_tree(content)),
        }
    }
}

impl Clone for ExprCall {
    fn clone(&self) -> (copy: ExprCall)
        ensures
            same_call(*self, copy),
        decreases self,
    {
        ExprCall {
            name: clone_name(&self.name),
            args: Spanned { v: clone_args(&self.args.v), span: self.args.span },
        }
    }
}

impl Clone for Argument {
    fn clone(&self) -> (copy: Argument)
        ensures
            same_argument(*self, copy),
        decreases self,
    {
        match self {
            Argument::Pos(expr) => Argument::Pos(clone_spanned_expr(expr)),
            Argument::Named(named) => Argument::Named(named.clone()),
        }
    }
}

impl Clone for Named {
    fn clone(&self) -> (copy: Named)
        ensures
            same_named(*self, copy),
        decreases self,
    {
        Named { name: clone_name(&self.name), expr: clone_spanned_expr(&self.expr) }
    }
}

impl Clone for ExprUnary {
    fn clone(&self) -> (copy: ExprUnary)
        ensures
            same_unary(*self, copy),
        decreases self,
    {
        ExprUnary { op: self.op, expr: Box::new(clone_spanned_expr(&*self.expr)) }
    }
}

impl Clone for ExprBinary {
    fn clone(&self) -> (copy: ExprBinary)
        ensures
            same_binary(*self, copy),
        decreases self,
    {
        ExprBinary {
            lhs: Box::new(clone_spanned_expr(&*self.lhs)),
            op: self.op,
            rhs: Box::new(clone_spanned_expr(&*self.rhs)),
        }
    }
}

impl Clone for Node {
    fn clone(&self) -> (copy: Node)
        ensures
            same_node(*self, copy),
        decreases self,
    {
        match self {
            Node::Text(text) => Node::Text(text.clone()),
            Node::Space => Node::Space,
            Node::Linebreak => Node::Linebreak,
            Node::Parbreak => Node::Parbreak,
            Node::Strong => Node::Strong,
            Node::Emph => Node::Emph,
            Node::Expr(expr) => Node::Expr(expr.clone()),
        }
    }
}

/// Expressions of the same structure have the same text, as an expression
/// and as a node of content.
pub proof fn lemma_same_expr_text(a: Expr, b: Expr)
    requires
        same_expr(a, b),
    ensures
        a.text() == b.text(),
        expr_node_text(a) == expr_node_text(b),
    decreases a,
{
    match a {
        Expr::Call(x) => {
            let y = b->Call_0;
            lemma_same_call_text(x, y, false);
        },
        Expr::Unary(x) => {
            let y = b->Unary_0;
            lemma_same_expr_text(x.expr.v, y.expr.v);
        },
        Expr::Binary(x) => {
            let y = b->Binary_0;
            lemma_same_expr_text(x.lhs.v, y.lhs.v);
            lemma_same_expr_text(x.rhs.v, y.rhs.v);
        },
        Expr::Array(x) => {
            let y = b->Array_0;
            lemma_same_items_text(x@, y@);
        },
        Expr::Dict(x) => {
            let y = b->Dict_0;
            lemma_same_pairs_text(x@, y@);
        },
        Expr::Content(x) => {
            let y = b->Content_0;
            lemma_same_tree_text(x@, y@);
        },
        _ => {},
    }
}

/// Calls of the same structure have the same text, in generic form and in
/// bracket form.
pub proof fn lemma_same_call_text(a: ExprCall, b: ExprCall, chained: bool)
    requires
        same_call(a, b),
    ensures
        a.text() == b.text(),
        bracket_call_text(a, chained) == bracket_call_text(b, chained),
    decreases a,
{
    let x = a.args.v@;
    let y = b.args.v@;
    lemma_same_args_text(x, y);
    match trailing_content(x) {
        Some(content) => {
            let other = trailing_content(y)->0;
            assert(same_argument(x.last(), y.last()));
            assert(trailing_content(y) == Some(other));
            assert(same_tree(content@, other@));
            assert(same_args(x.drop_last(), y.drop_last()));
            lemma_same_args_text(x.drop_last(), y.drop_last());
            lemma_same_tree_text(content@, other@);
            match sole_call(content@) {
                Some(inner) => {
                    let inner_other = sole_call(other@)->0;
                    assert(same_node(content@[0].v, other@[0].v));
                    lemma_same_call_text(inner, inner_other, true);
                },
                None => {
                    if other@.len() == 1 {
                        assert(same_node(content@[0].v, other@[0].v));
                    }
                },
            }
        },
        None => {
            if x.len() > 0 {
                assert(same_argument(x.last(), y.last()));
            }
        },
    }
}

/// Lists of arguments of the same structure have the same text.
pub proof fn lemma_same_args_text(a: Seq<Argument>, b: Seq<Argument>)
    requires
        same_args(a, b),
    ensures
        args_text(a) == args_text(b),
    decreases a,
{
    if a.len() > 0 {
        assert(same_argument(a.last(), b.last()));
        match a.last() {
            Argument::Pos(x) => {
                let y = b.last()->Pos_0;
                lemma_same_expr_text(x.v, y.v);
            },
            Argument::Named(x) => {
                let y = b.last()->Named_0;
                lemma_same_expr_text(x.expr.v, y.expr.v);
                assert(x.text() == y.text());
            },
        }
        assert(a.last().text() == b.last().text());
        if a.len() > 1 {
            assert(same_args(a.drop_last(), b.drop_last()));
            lemma_same_args_text(a.drop_last(), b.drop_last());
        } else {
            assert(a[0] == a.last() && b[0] == b.last());
        }
    }
}

/// Arrays whose items have the same structure have the same text.
pub proof fn lemma_same_items_text(a: Seq<Spanned<Expr>>, b: Seq<Spanned<Expr>>)
    requires
        same_items(a, b),
    ensures
        items_text(a) == items_text(b),
        array_text(a) == array_text(b),
    decreases a,
{
    if a.len() > 0 {
        assert(same_spanned_expr(a.last(), b.last()));
        lemma_same_expr_text(a.last().v, b.last().v);
        if a.len() > 1 {
            assert(same_items(a.drop_last(), b.drop_last()));
            lemma_same_items_text(a.drop_last(), b.drop_last());
        } else {
            assert(a[0] == a.last() && b[0] == b.last());
        }
    }
}

/// Dictionaries whose pairs have the same structure have the same text.
pub proof fn lemma_same_pairs_text(a: Seq<Named>, b: Seq<Named>)
    requires
        same_pairs(a, b),
    ensures
        pairs_text(a) == pairs_text(b),
        dict_text(a) == dict_text(b),
    decreases a,
{
    if a.len() > 0 {
        assert(same_named(a.last(), b.last()));
        lemma_same_expr_text(a.last().expr.v, b.last().expr.v);
        assert(a.last().text() == b.last().text());
        if a.len() > 1 {
            assert(same_pairs(a.drop_last(), b.drop_last()));
            lemma_same_pairs_text(a.drop_last(), b.drop_last());
        } else {
            assert(a[0] == a.last() && b[0] == b.last());
        }
    }
}

/// Pieces of content of the same structure have the same text, as content
/// and where an expression is expected.
pub proof fn lemma_same_tree_text(a: Seq<Spanned<Node>>, b: Seq<Spanned<Node>>)
    requires
        same_tree(a, b),
    ensures
        tree_text(a) == tree_text(b),
        content_expr_text(a) == content_expr_text(b),
    decreases a,
{
    if a.len() > 0 {
        assert(same_node(a.last().v, b.last().v));
        match a.last().v {
            Node::Expr(x) => {
                let y = b.last().v->Expr_0;
                lemma_same_expr_text(x, y);
            },
            _ => {},
        }
        assert(a.last().v.text() == b.last().v.text());
        assert(same_tree(a.drop_last(), b.drop_last()));
        lemma_same_tree_text(a.drop_last(), b.drop_last());
        assert(tree_text(a) == tree_text(b));
        if a.len() == 1 {
            assert(a[0] == a.last() && b[0] == b.last());
            match sole_call(a) {
                Some(x) => {
                    let y = sole_call(b)->0;
                    lemma_same_call_text(x, y, false);
                },
                None => {},
            }
        }
    }
}

} // verus!
