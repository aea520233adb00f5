//! Expressions.

use crate::color::RgbaColor;
use crate::geom::Unit;
use crate::number::Number;
use crate::pretty::Pretty;
use crate::pretty::Printer;
use crate::syntax::ident::Ident;
use crate::syntax::node::tree_text;
use crate::syntax::node::Node;
use crate::syntax::node::Tree;
use crate::syntax::span::SpanVec;
use crate::syntax::span::Spanned;
use vstd::prelude::*;

verus! {

/// An expression.
#[derive(Debug, PartialEq)]
pub enum Expr {
    /// The none literal: `none`.
    NoneLit,
    /// An identifier: `left`.
    Ident(Ident),
    /// A boolean literal: `true`, `false`.
    Bool(bool),
    /// An integer literal: `120`.
    Int(i64),
    /// A number literal with a fraction or an exponent: `1.2`, `10e-4`.
    Float(Number),
    /// A length literal: `12pt`, `3cm`.
    Length(Number, Unit),
    /// A percent literal: `50%`. The number is the one written before the
    /// percent sign.
    Percent(Number),
    /// A color literal: `#ffccee`.
    Color(RgbaColor),
    /// A string literal: `"hello!"`.
    Str(String),
    /// An invocation of a function: `[foo ...]`, `foo(...)`.
    Call(ExprCall),
    /// A unary operation: `-x`.
    Unary(ExprUnary),
    /// A binary operation: `a + b`, `a / b`.
    Binary(ExprBinary),
    /// An array expression: `(1, "hi", 12cm)`.
    Array(ExprArray),
    /// A dictionary expression: `(color: #f79143, pattern: dashed)`.
    Dict(ExprDict),
    /// A content expression: `{*Hello* there!}`.
    Content(ExprContent),
}

/// An invocation of a function: `[foo ...]`, `foo(...)`.
#[derive(Debug, PartialEq)]
pub struct ExprCall {
    /// The name of the function.
    pub name: Spanned<Ident>,
    /// The arguments to the function.
    pub args: Spanned<ExprArgs>,
}

/// The arguments to a function: `12, draw: false`.
pub type ExprArgs = Vec<Argument>;

/// An argument to a function call: `12` or `draw: false`.
#[derive(Debug, PartialEq)]
pub enum Argument {
    /// A positional argument.
    Pos(Spanned<Expr>),
    /// A named argument.
    Named(Named),
}

/// A pair of a name and an expression: `pattern: dashed`.
#[derive(Debug, PartialEq)]
pub struct Named {
    /// The name: `pattern`.
    pub name: Spanned<Ident>,
    /// The right-hand side of the pair: `dashed`.
    pub expr: Spanned<Expr>,
}

/// A unary operation: `-x`.
#[derive(Debug, PartialEq)]
pub struct ExprUnary {
    /// The operator: `-`.
    pub op: Spanned<UnOp>,
    /// The expression to operate on: `x`.
    pub expr: Box<Spanned<Expr>>,
}

/// A unary operator.
#[derive(Debug, Copy, Clone, Eq, PartialEq)]
pub enum UnOp {
    /// The negation operator: `-`.
    Neg,
}

/// A binary operation: `a + b`, `a / b`.
#[derive(Debug, PartialEq)]
pub struct ExprBinary {
    /// The left-hand side of the operation: `a`.
    pub lhs: Box<Spanned<Expr>>,
    /// The operator: `+`.
    pub op: Spanned<BinOp>,
    /// The right-hand side of the operation: `b`.
    pub rhs: Box<Spanned<Expr>>,
}

/// A binary operator.
#[derive(Debug, Copy, Clone, Eq, PartialEq)]
pub enum BinOp {
    /// The addition operator: `+`.
    Add,
    /// The subtraction operator: `-`.
    Sub,
    /// The multiplication operator: `*`.
    Mul,
    /// The division operator: `/`.
    Div,
}

/// An array expression: `(1, "hi", 12cm)`.
pub type ExprArray = SpanVec<Expr>;

/// A dictionary expression: `(color: #f79143, pattern: dashed)`.
pub type ExprDict = Vec<Named>;

/// A content expression: `{*Hello* there!}`.
pub type ExprContent = Tree;

/// The source text of the string literal that denotes the string `s`: the
/// string in double quotes, with the characters that cannot stand for
/// themselves in a literal written as escape sequences.
pub uninterp spec fn string_literal_text(s: Seq<char>) -> Seq<char>;

/// Writes a string as a string literal, by the `Debug` formatting of `str`
/// in the standard library. Nothing is proved of it: the result is named
/// [`string_literal_text`], which rests on that formatting being a function
/// of the characters alone.
#[verifier::external_body]
fn string_literal(s: &str) -> (literal: String)
    ensures
        literal@ == string_literal_text(s@),
{
    format!("{:?}", s)
}

/// The call that is the one and only node of a piece of content, if the
/// content is of that shape.
pub open spec fn sole_call(tree: Seq<Spanned<Node>>) -> Option<ExprCall> {
    if tree.len() == 1 {
        match tree[0].v {
            Node::Expr(Expr::Call(call)) => Some(call),
            _ => None,
        }
    } else {
        None
    }
}

/// The content that is the last argument, if the last argument is
/// positional and is content.
pub open spec fn trailing_content(args: Seq<Argument>) -> Option<Tree> {
    if args.len() > 0 {
        match args.last() {
            Argument::Pos(Spanned { v: Expr::Content(content), .. }) => Some(content),
            _ => None,
        }
    } else {
        None
    }
}

/// The texts of the arguments, separated by `, `.
pub open spec fn args_text(args: Seq<Argument>) -> Seq<char>
    decreases args, 0nat,
{
    if args.len() == 0 {
        Seq::empty()
    } else if args.len() == 1 {
        args[0].text()
    } else {
        args_text(args.drop_last()) + ", "@ + args.last().text()
    }
}

/// The texts of the items of an array, separated by `, `.
pub open spec fn items_text(items: Seq<Spanned<Expr>>) -> Seq<char>
    decreases items, 0nat,
{
    if items.len() == 0 {
        Seq::empty()
    } else if items.len() == 1 {
        items[0].v.text()
    } else {
        items_text(items.drop_last()) + ", "@ + items.last().v.text()
    }
}

/// The texts of the pairs of a dictionary, separated by `, `.
pub open spec fn pairs_text(pairs: Seq<Named>) -> Seq<char>
    decreases pairs, 0nat,
{
    if pairs.len() == 0 {
        Seq::empty()
    } else if pairs.len() == 1 {
        pairs[0].text()
    } else {
        pairs_text(pairs.drop_last()) + ", "@ + pairs.last().text()
    }
}

/// The text of an array: its items in parentheses, with a trailing comma
/// where there is exactly one item.
pub open spec fn array_text(items: Seq<Spanned<Expr>>) -> Seq<char>
    decreases items, 1nat,
{
    if items.len() == 1 {
        "("@ + items_text(items) + ","@ + ")"@
    } else {
        "("@ + items_text(items) + ")"@
    }
}

/// The text of a dictionary: its pairs in parentheses, and a lone colon in
/// parentheses where there is no pair.
pub open spec fn dict_text(pairs: Seq<Named>) -> Seq<char>
    decreases pairs, 1nat,
{
    if pairs.len() == 0 {
        "("@ + ":"@ + ")"@
    } else {
        "("@ + pairs_text(pairs) + ")"@
    }
}

/// The text of content that stands where an expression is expected: the bare
/// bracket call where the content is one call and nothing else, and the
/// content in braces otherwise.
pub open spec fn content_expr_text(tree: Seq<Spanned<Node>>) -> Seq<char>
    decreases tree, 1nat,
{
    match sole_call(tree) {
        Some(call) => bracket_call_text(call, false),
        None => "{"@ + tree_text(tree) + "}"@,
    }
}

/// What a call in bracket form opens with: ` | ` where it continues a
/// chain, `[` where it does not.
pub open spec fn bracket_open(chained: bool) -> Seq<char> {
    if chained {
        " | "@
    } else {
        "["@
    }
}

/// The text of a call in bracket form.
///
/// The call opens with ` | ` or `[`, then its name follows. Where the last
/// argument is positional content, the arguments before it follow the name
/// after a space; then, where that content is one call and nothing else, that
/// call follows as the next link of the chain, and otherwise the content
/// follows as a body between `][` and `]`. Where the last argument is
/// anything else, all arguments follow the name after a space, and `]` ends
/// the call.
pub open spec fn bracket_call_text(call: ExprCall, chained: bool) -> Seq<char>
    decreases call, 0nat,
{
    let args = call.args.v@;
    let name = bracket_open(chained) + call.name.v.text();
    match trailing_content(args) {
        Some(content) => {
            let head = args.drop_last();
            let header = if head.len() > 0 {
                name + " "@ + args_text(head)
            } else {
                name
            };
            match sole_call(content@) {
                Some(inner) => header + bracket_call_text(inner, true),
                None => header + "]["@ + tree_text(content@) + "]"@,
            }
        },
        None => {
            if args.len() > 0 {
                name + " "@ + args_text(args) + "]"@
            } else {
                name + "]"@
            }
        },
    }
}

impl Pretty for Expr {
    open spec fn text(&self) -> Seq<char>
        decreases self, 0nat,
    {
        match self {
            Expr::NoneLit => "none"@,
            Expr::Ident(v) => v.text(),
            Expr::Bool(v) => v.text(),
            Expr::Int(v) => v.text(),
            Expr::Float(v) => v.text(),
            Expr::Length(v, u) => v.text() + u.text(),
            Expr::Percent(v) => v.text() + "%"@,
            Expr::Color(v) => v.text(),
            Expr::Str(s) => string_literal_text(s@),
            Expr::Call(call) => call.text(),
            Expr::Unary(unary) => unary.text(),
            Expr::Binary(binary) => binary.text(),
            Expr::Array(array) => array_text(array@),
            Expr::Dict(dict) => dict_text(dict@),
            Expr::Content(content) => content_expr_text(content@),
        }
    }

    fn pretty(&self, p: &mut Printer)
        decreases self, 0nat,
    {
        match self {
            Expr::NoneLit => p.push_str("none"),
            Expr::Ident(v) => v.pretty(p),
            Expr::Bool(v) => v.pretty(p),
            Expr::Int(v) => v.pretty(p),
            Expr::Float(v) => v.pretty(p),
            Expr::Length(v, u) => {
                v.pretty(p);
                u.pretty(p);
            },
            Expr::Percent(v) => {
                v.pretty(p);
                p.push_str("%");
            },
            Expr::Color(v) => v.pretty(p),
            Expr::Str(s) => {
                let literal = string_literal(s.as_str());
                p.push_str(literal.as_str());
            },
            Expr::Call(call) => call.pretty(p),
            Expr::Unary(unary) => unary.pretty(p),
            Expr::Binary(binary) => binary.pretty(p),
            Expr::Array(array) => array.pretty(p),
            Expr::Dict(dict) => dict.pretty(p),
            Expr::Content(content) => pretty_content_expr(content, p),
        }
    }
}

/// Finds the call that is the one and only node of a piece of content.
pub fn find_sole_call(tree: &Tree) -> (found: Option<&ExprCall>)
    ensures
        sole_call(tree@) == match found {
            Some(call) => Some(*call),
            None => None,
        },
{
    if tree.len() == 1 {
        match &tree[0].v {
            Node::Expr(Expr::Call(call)) => Some(call),
            _ => None,
        }
    } else {
        None
    }
}

/// Finds the content that is the last argument.
pub fn find_trailing_content(args: &ExprArgs) -> (found: Option<&Tree>)
    ensures
        trailing_content(args@) == match found {
            Some(content) => Some(*content),
            None => None,
        },
{
    if args.len() > 0 {
        match &args[args.len() - 1] {
            Argument::Pos(Spanned { v: Expr::Content(content), .. }) => Some(content),
            _ => None,
        }
    } else {
        None
    }
}

/// Pretty prints content in an expression context.
pub fn pretty_content_expr(tree: &Tree, p: &mut Printer)
    ensures
        final(p)@ == old(p)@ + content_expr_text(tree@),
    decreases tree, 1nat,
{
    match find_sole_call(tree) {
        Some(call) => pretty_bracket_call(call, p, false),
        None => {
            p.push_str("{");
            tree.pretty(p);
            p.push_str("}");
        },
    }
}

impl Pretty for ExprCall {
    /// The generic form of a call: the name, then the arguments in
    /// parentheses.
    open spec fn text(&self) -> Seq<char>
        decreases self, 0nat,
    {
        self.name.v.text() + "("@ + args_text(self.args.v@) + ")"@
    }

    fn pretty(&self, p: &mut Printer)
        decreases self, 0nat,
    {
        self.name.v.pretty(p);
        p.push_str("(");
        self.args.v.pretty(p);
        p.push_str(")");
    }
}

/// Prints the first `n` arguments, separated by `, `.
fn pretty_leading_args(args: &ExprArgs, n: usize, p: &mut Printer)
    requires
        n <= args.len(),
    ensures
        final(p)@ == old(p)@ + args_text(args@.take(n as int)),
    decreases args, 0nat,
{
    let mut i: usize = 0;
    while i < n
        invariant
            i <= n <= args.len(),
            p@ == old(p)@ + args_text(args@.take(i as int)),
        decreases n - i,
    {
        assert(args@.take(i + 1).drop_last() == args@.take(i as int));
        if i > 0 {
            p.push_str(", ");
        }
        args[i].pretty(p);
        i += 1;
    }
}

/// Pretty prints a bracketed function call, with body or chaining when
/// possible.
pub fn pretty_bracket_call(call: &ExprCall, p: &mut Printer, chained: bool)
    ensures
        final(p)@ == old(p)@ + bracket_call_text(*call, chained),
    decreases call, 0nat,
{
    if chained {
        p.push_str(" | ");
    } else {
        p.push_str("[");
    }
    call.name.v.pretty(p);

    let args = &call.args.v;
    match find_trailing_content(args) {
        Some(content) => {
            let n = args.len() - 1;
            if n > 0 {
                p.push_str(" ");
                pretty_leading_args(args, n, p);
            }
            match find_sole_call(content) {
                Some(inner) => {
                    pretty_bracket_call(inner, p, true);
                    return ;
                },
                None => {
                    p.push_str("][");
                    content.pretty(p);
                },
            }
        },
        None => {
            if args.len() > 0 {
                p.push_str(" ");
                args.pretty(p);
            }
        },
    }
    p.push_str("]");
}

impl Pretty for ExprArgs {
    open spec fn text(&self) -> Seq<char>
        decreases self, 0nat,
    {
        args_text(self@)
    }

    fn pretty(&self, p: &mut Printer)
        decreases self, 1nat,
    {
        pretty_leading_args(self, self.len(), p);
        assert(self@.take(self.len() as int) == self@);
    }
}

impl Pretty for Argument {
    open spec fn text(&self) -> Seq<char>
        decreases self, 0nat,
    {
        match self {
            Argument::Pos(expr) => expr.v.text(),
            Argument::Named(named) => named.text(),
        }
    }

    fn pretty(&self, p: &mut Printer)
        decreases self, 0nat,
    {
        match self {
            Argument::Pos(expr) => expr.v.pretty(p),
            Argument::Named(named) => named.pretty(p),
        }
    }
}

impl Pretty for Named {
    open spec fn text(&self) -> Seq<char>
        decreases self, 0nat,
    {
        self.name.v.text() + ": "@ + self.expr.v.text()
    }

    fn pretty(&self, p: &mut Printer)
        decreases self, 0nat,
    {
        self.name.v.pretty(p);
        p.push_str(": ");
        self.expr.v.pretty(p);
    }
}

impl Pretty for ExprUnary {
    open spec fn text(&self) -> Seq<char>
        decreases self, 0nat,
    {
        self.op.v.text() + self.expr.v.text()
    }

    fn pretty(&self, p: &mut Printer)
        decreases self, 0nat,
    {
        self.op.v.pretty(p);
        self.expr.v.pretty(p);
    }
}

impl Pretty for UnOp {
    open spec fn text(&self) -> Seq<char> {
        match self {
            UnOp::Neg => "-"@,
        }
    }

    fn pretty(&self, p: &mut Printer) {
        p.push_str(
            match self {
                UnOp::Neg => "-",
            },
        );
    }
}

impl Pretty for ExprBinary {
    open spec fn text(&self) -> Seq<char>
        decreases self, 0nat,
    {
        self.lhs.v.text() + " "@ + self.op.v.text() + " "@ + self.rhs.v.text()
    }

    fn pretty(&self, p: &mut Printer)
        decreases self, 0nat,
    {
        self.lhs.v.pretty(p);
        p.push_str(" ");
        self.op.v.pretty(p);
        p.push_str(" ");
        self.rhs.v.pretty(p);
    }
}

impl Pretty for BinOp {
    open spec fn text(&self) -> Seq<char> {
        match self {
            BinOp::Add => "+"@,
            BinOp::Sub => "-"@,
            BinOp::Mul => "*"@,
            BinOp::Div => "/"@,
        }
    }

    fn pretty(&self, p: &mut Printer) {
        p.push_str(
            match self {
                BinOp::Add => "+",
                BinOp::Sub => "-",
                BinOp::Mul => "*",
                BinOp::Div => "/",
            },
        );
    }
}

impl Pretty for ExprArray {
    open spec fn text(&self) -> Seq<char>
        decreases self, 0nat,
    {
        array_text(self@)
    }

    fn pretty(&self, p: &mut Printer)
        decreases self, 0nat,
    {
        p.push_str("(");
        let ghost start = p@;
        let mut i: usize = 0;
        while i < self.len()
            invariant
                i <= self.len(),
                p@ == start + items_text(self@.take(i as int)),
            decreases self.len() - i,
        {
            assert(self@.take(i + 1).drop_last() == self@.take(i as int));
            if i > 0 {
                p.push_str(", ");
            }
            self[i].v.pretty(p);
            i += 1;
        }
        assert(self@.take(i as int) == self@);
        if self.len() == 1 {
            p.push_str(",");
        }
        p.push_str(")");
    }
}

impl Pretty for ExprDict {
    open spec fn text(&self) -> Seq<char>
        decreases self, 0nat,
    {
        dict_text(self@)
    }

    fn pretty(&self, p: &mut Printer)
        decreases self, 0nat,
    {
        p.push_str("(");
        if self.len() == 0 {
            p.push_str(":");
        } else {
            let ghost start = p@;
            let mut i: usize = 0;
            while i < self.len()
                invariant
                    i <= self.len(),
                    p@ == start + pairs_text(self@.take(i as int)),
                decreases self.len() - i,
            {
                assert(self@.take(i + 1).drop_last() == self@.take(i as int));
                if i > 0 {
                    p.push_str(", ");
                }
                self[i].pretty(p);
                i += 1;
            }
            assert(self@.take(i as int) == self@);
        }
        p.push_str(")");
    }
}

/// The arguments as they follow the name of a call in bracket form:
/// nothing where there is none, and a space and their texts, separated by
/// `, `, where there are some.
pub open spec fn header_args_text(args: Seq<Argument>) -> Seq<char> {
    if args.len() > 0 {
        seq![' '] + args_text(args)
    } else {
        Seq::empty()
    }
}

/// The symbol of a binary operator.
pub open spec fn bin_op_char(op: BinOp) -> char {
    match op {
        BinOp::Add => '+',
        BinOp::Sub => '-',
        BinOp::Mul => '*',
        BinOp::Div => '/',
    }
}

/// A call in bracket form whose last argument is content that holds one call
/// and nothing else is a chain: after its name and the arguments before the
/// last one, the inner call follows behind ` | `, and no bracket of the outer
/// call comes after it.
pub proof fn lemma_chain_form(call: ExprCall, chained: bool, content: Tree, inner: ExprCall)
    requires
        trailing_content(call.args.v@) == Some(content),
        sole_call(content@) == Some(inner),
    ensures
        bracket_call_text(call, chained) == bracket_open(chained) + call.name.v@
            + header_args_text(call.args.v@.drop_last()) + bracket_call_text(inner, true),
        bracket_call_text(inner, true).take(3) == seq![' ', '|', ' '],
{
    reveal_strlit(" | ");
    reveal_strlit(" ");
    let rest = bracket_call_text(inner, true);
    assert(rest.take(3) =~= " | "@) by {
        let name = bracket_open(true) + inner.name.v.text();
        assert(name.take(3) =~= " | "@);
        assert(rest.len() >= name.len());
        assert(rest.take(name.len() as int) =~= name);
    }
    let name = bracket_open(chained) + call.name.v@;
    let head = call.args.v@.drop_last();
    assert(name + header_args_text(head) =~= if head.len() > 0 {
        name + " "@ + args_text(head)
    } else {
        name
    });
}

/// The call of `v` whose one argument is content that holds the call of `f`
/// without arguments, and nothing else, is `[v | f]` in bracket form.
pub proof fn lemma_chain_of_two(v: ExprCall, content: Tree, f: ExprCall)
    requires
        v.args.v@.len() == 1,
        trailing_content(v.args.v@) == Some(content),
        sole_call(content@) == Some(f),
        f.args.v@.len() == 0,
    ensures
        bracket_call_text(v, false) == seq!['['] + v.name.v@ + seq![' ', '|', ' '] + f.name.v@
            + seq![']'],
{
    reveal_strlit(" | ");
    reveal_strlit("[");
    reveal_strlit("]");
    assert(header_args_text(v.args.v@.drop_last()) =~= Seq::<char>::empty());
    assert(bracket_call_text(f, true) =~= seq![' ', '|', ' '] + f.name.v@ + seq![']']);
    assert(bracket_call_text(v, false) =~= seq!['['] + v.name.v@ + seq![' ', '|', ' ']
        + f.name.v@ + seq![']']);
}

/// An array of exactly one item is printed with a comma behind the item.
pub proof fn lemma_single_item_array(items: Seq<Spanned<Expr>>)
    requires
        items.len() == 1,
    ensures
        array_text(items) == seq!['('] + items[0].v.text() + seq![',', ')'],
{
    reveal_strlit("(");
    reveal_strlit(",");
    reveal_strlit(")");
    assert(array_text(items) =~= seq!['('] + items[0].v.text() + seq![',', ')']);
}

/// An array of any other length is printed without a comma behind its last
/// item, and the empty dictionary is told from the empty array by a colon.
pub proof fn lemma_array_and_dict_shapes(items: Seq<Spanned<Expr>>, pairs: Seq<Named>)
    ensures
        items.len() != 1 ==> array_text(items) == seq!['('] + items_text(items) + seq![')'],
        pairs.len() > 0 ==> dict_text(pairs) == seq!['('] + pairs_text(pairs) + seq![')'],
        pairs.len() == 0 ==> dict_text(pairs) == seq!['(', ':', ')'],
        items.len() == 0 ==> array_text(items) == seq!['(', ')'],
{
    reveal_strlit("(");
    reveal_strlit(":");
    reveal_strlit(")");
    if pairs.len() == 0 {
        assert(dict_text(pairs) =~= seq!['(', ':', ')']);
    }
    if items.len() == 0 {
        assert(array_text(items) =~= seq!['(', ')']);
    }
}

/// Content that is one call and nothing else, standing where an expression
/// is expected, is printed as that call in bracket form, with no braces
/// around it.
pub proof fn lemma_content_brace_elision(tree: Seq<Spanned<Node>>, call: ExprCall)
    requires
        sole_call(tree) == Some(call),
    ensures
        content_expr_text(tree) == bracket_call_text(call, false),
        content_expr_text(tree).first() == '[',
{
    reveal_strlit("[");
    let text = bracket_call_text(call, false);
    let name = bracket_open(false) + call.name.v.text();
    assert(name.first() == '[');
    assert(text.len() >= name.len());
    assert(text.take(name.len() as int) =~= name);
    assert(text.first() == text.take(name.len() as int).first());
}

/// Any other content, standing where an expression is expected, is printed
/// in braces.
pub proof fn lemma_content_in_braces(tree: Seq<Spanned<Node>>)
    requires
        sole_call(tree) is None,
    ensures
        content_expr_text(tree) == seq!['{'] + tree_text(tree) + seq!['}'],
{
    reveal_strlit("{");
    reveal_strlit("}");
}

/// A negation is printed as a minus sign directly followed by the operand.
pub proof fn lemma_unary_text(unary: ExprUnary)
    ensures
        unary.text() == seq!['-'] + unary.expr.v.text(),
{
    reveal_strlit("-");
}

/// A binary operation is printed as the left operand, a space, the symbol of
/// the operator, a space, and the right operand, whatever the operands are.
pub proof fn lemma_binary_text(binary: ExprBinary)
    ensures
        binary.text() == binary.lhs.v.text() + seq![' ', bin_op_char(binary.op.v), ' ']
            + binary.rhs.v.text(),
{
    reveal_strlit(" ");
    reveal_strlit("+");
    reveal_strlit("-");
    reveal_strlit("*");
    reveal_strlit("/");
    assert(binary.text() =~= binary.lhs.v.text() + seq![' ', bin_op_char(binary.op.v), ' ']
        + binary.rhs.v.text());
}

/// A call whose last argument is not positional content has neither a chain
/// nor a body: in bracket form it is its name and all its arguments between
/// the brackets, and as an expression it is in generic form, its arguments
/// in parentheses behind the name.
pub proof fn lemma_call_without_trailing_content(call: ExprCall, chained: bool)
    requires
        call.args.v@.len() > 0,
        trailing_content(call.args.v@) is None,
    ensures
        bracket_call_text(call, chained) == bracket_open(chained) + call.name.v@ + seq![' ']
            + args_text(call.args.v@) + seq![']'],
        Expr::Call(call).text() == call.name.v@ + seq!['('] + args_text(call.args.v@) + seq![
            ')',
        ],
{
    reveal_strlit(" ");
    reveal_strlit("]");
    reveal_strlit("(");
    reveal_strlit(")");
    assert(bracket_call_text(call, chained) =~= bracket_open(chained) + call.name.v@ + seq![' ']
        + args_text(call.args.v@) + seq![']']);
}

/// As an expression, every call is in generic form, whatever its arguments
/// are.
pub proof fn lemma_call_expression_is_generic(call: ExprCall)
    ensures
        Expr::Call(call).text() == call.name.v@ + seq!['('] + args_text(call.args.v@) + seq![
            ')',
        ],
{
    reveal_strlit("(");
    reveal_strlit(")");
}

} // verus!
