use typst::color::RgbaColor;
use typst::geom::Unit;
use typst::number::Number;
use typst::pretty::pretty;
use typst::pretty::Pretty;
use typst::pretty::Printer;
use typst::syntax::pretty_bracket_call;
use typst::syntax::pretty_content_expr;
use typst::syntax::pretty_expr_node;
use typst::syntax::Argument;
use typst::syntax::BinOp;
use typst::syntax::Expr;
use typst::syntax::ExprBinary;
use typst::syntax::ExprCall;
use typst::syntax::ExprUnary;
use typst::syntax::Ident;
use typst::syntax::Named;
use typst::syntax::Node;
use typst::syntax::Span;
use typst::syntax::Spanned;
use typst::syntax::Tree;
use typst::syntax::UnOp;

fn s<T>(v: T) -> Spanned<T> {
    Spanned::zero(v)
}

fn ident(name: &str) -> Spanned<Ident> {
    s(Ident::new(name.to_string()))
}

fn call(name: &str, args: Vec<Argument>) -> ExprCall {
    ExprCall { name: ident(name), args: s(args) }
}

fn pos(expr: Expr) -> Argument {
    Argument::Pos(s(expr))
}

fn named(name: &str, expr: Expr) -> Named {
    Named { name: ident(name), expr: s(expr) }
}

fn neg(expr: Expr) -> Expr {
    Expr::Unary(ExprUnary { op: s(UnOp::Neg), expr: Box::new(s(expr)) })
}

fn binary(lhs: Expr, op: BinOp, rhs: Expr) -> Expr {
    Expr::Binary(ExprBinary { lhs: Box::new(s(lhs)), op: s(op), rhs: Box::new(s(rhs)) })
}

fn array(items: Vec<Expr>) -> Expr {
    Expr::Array(items.into_iter().map(s).collect())
}

fn tree(nodes: Vec<Node>) -> Tree {
    nodes.into_iter().map(s).collect()
}

/// Content that holds one expression and nothing else.
fn content(expr: Expr) -> Expr {
    Expr::Content(tree(vec![Node::Expr(expr)]))
}

fn finite(coefficient: u64, exponent: i32) -> Number {
    Number::Finite { negative: false, coefficient, exponent }
}

/// Prints the tree whose only node is the expression.
fn pretty_node(expr: Expr) -> String {
    pretty(&tree(vec![Node::Expr(expr)]))
}

fn bracket(call: &ExprCall, chained: bool) -> String {
    let mut p = Printer::new();
    pretty_bracket_call(call, &mut p, chained);
    p.finish()
}

/// The tree of `[v [f]]`, of `[v {[f]}]`, of `[v][[f]]` and of `[v | f]`:
/// the call of `v` with one argument, the content that holds the call of `f`.
fn chain_of_v_and_f() -> Expr {
    Expr::Call(call("v", vec![pos(content(Expr::Call(call("f", vec![]))))]))
}

#[test]
fn test_pretty_print_chaining() {
    // All equivalent.
    assert_eq!(pretty_node(chain_of_v_and_f()), "[v | f]");

    // An argument that is a bracketed call: `[v [f]]`.
    let inner = Expr::Content(tree(vec![Node::Expr(Expr::Call(call("f", vec![])))]));
    assert_eq!(pretty_node(Expr::Call(call("v", vec![pos(inner)]))), "[v | f]");

    // An argument that is content in braces: `[v {[f]}]`.
    let braced = Expr::Content(tree(vec![Node::Expr(Expr::Call(call("f", vec![])))]));
    assert_eq!(pretty_node(Expr::Call(call("v", vec![Argument::Pos(s(braced))]))), "[v | f]");

    // A body that is a bracketed call: `[v][[f]]`.
    let body = tree(vec![Node::Expr(Expr::Call(call("f", vec![])))]);
    let mut outer = call("v", vec![]);
    outer.args.v.push(pos(Expr::Content(body)));
    assert_eq!(pretty_node(Expr::Call(outer)), "[v | f]");

    // A chain: `[v | f]`.
    let mut outer = call("v", vec![]);
    let last = call("f", vec![]);
    outer.args.v.push(pos(content(Expr::Call(last))));
    assert_eq!(pretty_node(Expr::Call(outer)), "[v | f]");
}

#[test]
fn test_pretty_print_expressions() {
    // Unary and binary operations.
    assert_eq!(pretty_node(Expr::Int(1)), "{1}");
    let sum = binary(Expr::Int(1), BinOp::Add, Expr::Call(call("func", vec![pos(neg(Expr::Int(2)))])));
    assert_eq!(pretty_node(sum), "{1 + func(-2)}");

    // Array.
    assert_eq!(pretty(&array(vec![neg(Expr::Int(5))])), "(-5,)");
    assert_eq!(pretty(&array(vec![Expr::Int(1), Expr::Int(2), Expr::Int(3)])), "(1, 2, 3)");
    assert_eq!(pretty(&tree(vec![Node::Text("(-5,)".to_string())])), "(-5,)");
    assert_eq!(
        pretty(&tree(vec![
            Node::Text("(1,".to_string()),
            Node::Space,
            Node::Text("2,".to_string()),
            Node::Space,
            Node::Text("3)".to_string()),
        ])),
        "(1, 2, 3)"
    );

    // Dictionary.
    assert_eq!(pretty_node(Expr::Dict(vec![])), "{(:)}");
    assert_eq!(
        pretty_node(Expr::Dict(vec![named("percent", Expr::Percent(finite(5, 0)))])),
        "{(percent: 5%)}"
    );

    // Content expression without unnecessary braces.
    let v = call("v", vec![pos(content(Expr::Call(call("f", vec![])))), pos(Expr::Int(1))]);
    assert_eq!(pretty_node(Expr::Call(v)), "[v [f], 1]");
    let dict = Expr::Dict(vec![named("func", content(Expr::Call(call("f", vec![]))))]);
    assert_eq!(pretty(&dict), "(func: [f])");
    assert_eq!(
        pretty(&tree(vec![
            Node::Text("(func:".to_string()),
            Node::Space,
            Node::Expr(content(Expr::Call(call("f", vec![])))),
            Node::Text(")".to_string()),
        ])),
        "(func: [f])"
    );
}

#[test]
fn test_pretty_print_literals() {
    assert_eq!(pretty_node(Expr::NoneLit), "{none}");
    assert_eq!(pretty_node(Expr::Bool(true)), "{true}");
    assert_eq!(pretty_node(Expr::Int(25)), "{25}");
    assert_eq!(pretty_node(Expr::Float(finite(250, -2))), "{2.5}");
    assert_eq!(pretty_node(Expr::Float(finite(1, 2))), "{100}");
    assert_eq!(pretty_node(Expr::Length(finite(12, 0), Unit::Pt)), "{12pt}");
    assert_eq!(pretty_node(Expr::Percent(finite(50, 0))), "{50%}");
    assert_eq!(pretty_node(Expr::Color(RgbaColor::new(0xff, 0xff, 0xff, 0xff))), "{#ffffff}");
    assert_eq!(pretty_node(Expr::Str("hi\n".to_string())), r#"{"hi\n"}"#);
}

#[test]
fn test_pretty_print_identifier_and_false() {
    assert_eq!(pretty(&Expr::Ident(Ident::new("left".to_string()))), "left");
    assert_eq!(pretty(&Expr::Bool(false)), "false");
    assert_eq!(pretty(&Expr::NoneLit), "none");
}

#[test]
fn test_string_literal_is_quoted_and_escaped() {
    assert_eq!(pretty(&Expr::Str("hello".to_string())), "\"hello\"");
    assert_eq!(pretty(&Expr::Str("a\"b\\c\td".to_string())), "\"a\\\"b\\\\c\\td\"");
    assert_eq!(pretty(&Expr::Str(String::new())), "\"\"");
}

#[test]
fn test_unary_has_no_space_and_binary_has_one_on_each_side() {
    assert_eq!(pretty(&neg(Expr::Ident(Ident::new("x".to_string())))), "-x");
    assert_eq!(pretty(&neg(neg(Expr::Int(1)))), "--1");
    assert_eq!(pretty(&binary(Expr::Int(1), BinOp::Add, Expr::Int(2))), "1 + 2");
    assert_eq!(pretty(&binary(Expr::Int(1), BinOp::Sub, Expr::Int(2))), "1 - 2");
    assert_eq!(pretty(&binary(Expr::Int(1), BinOp::Mul, Expr::Int(2))), "1 * 2");
    assert_eq!(pretty(&binary(Expr::Int(1), BinOp::Div, Expr::Int(2))), "1 / 2");
}

#[test]
fn test_binary_is_printed_as_structured() {
    // No parentheses are added, whatever the shape of the tree.
    let left = binary(binary(Expr::Int(1), BinOp::Add, Expr::Int(2)), BinOp::Mul, Expr::Int(3));
    let right = binary(Expr::Int(1), BinOp::Add, binary(Expr::Int(2), BinOp::Mul, Expr::Int(3)));
    assert_eq!(pretty(&left), "1 + 2 * 3");
    assert_eq!(pretty(&right), "1 + 2 * 3");
}

#[test]
fn test_array_shapes() {
    assert_eq!(pretty(&array(vec![])), "()");
    assert_eq!(pretty(&array(vec![Expr::Int(7)])), "(7,)");
    assert_eq!(pretty(&array(vec![Expr::Int(7), Expr::Bool(true)])), "(7, true)");
    assert_eq!(pretty(&array(vec![array(vec![Expr::Int(1)])])), "((1,),)");
}

#[test]
fn test_dictionary_shapes() {
    assert_eq!(pretty(&Expr::Dict(vec![])), "(:)");
    assert_eq!(pretty(&Expr::Dict(vec![named("a", Expr::Int(1))])), "(a: 1)");
    assert_eq!(
        pretty(&Expr::Dict(vec![named("a", Expr::Int(1)), named("a", Expr::Int(2))])),
        "(a: 1, a: 2)"
    );
}

#[test]
fn test_generic_call_form() {
    assert_eq!(pretty(&Expr::Call(call("f", vec![]))), "f()");
    let args = vec![pos(Expr::Int(12)), Argument::Named(named("draw", Expr::Bool(false)))];
    assert_eq!(pretty(&Expr::Call(call("rect", args))), "rect(12, draw: false)");
    // In an expression, a call is in generic form even where its last
    // argument is content.
    let with_body = call("v", vec![pos(Expr::Content(tree(vec![Node::Text("Hi".to_string())])))]);
    assert_eq!(pretty(&Expr::Call(with_body)), "v({Hi})");
}

#[test]
fn test_bracket_call_without_trailing_content() {
    assert_eq!(bracket(&call("f", vec![]), false), "[f]");
    assert_eq!(bracket(&call("f", vec![]), true), " | f]");
    let c = call("v", vec![pos(Expr::Int(1)), Argument::Named(named("k", Expr::Int(2)))]);
    assert_eq!(bracket(&c, false), "[v 1, k: 2]");
    // A named argument that holds content is no body.
    let c = call("v", vec![Argument::Named(named("k", content(Expr::Call(call("f", vec![])))))]);
    assert_eq!(bracket(&c, false), "[v k: [f]]");
    // Content followed by another argument is no body.
    let c = call("v", vec![pos(content(Expr::Call(call("f", vec![])))), pos(Expr::Int(1))]);
    assert_eq!(bracket(&c, false), "[v [f], 1]");
    assert_eq!(pretty(&Expr::Call(c)), "v([f], 1)");
}

#[test]
fn test_bracket_call_with_body() {
    let body = Expr::Content(tree(vec![Node::Text("Hi".to_string())]));
    assert_eq!(bracket(&call("v", vec![pos(body)]), false), "[v][Hi]");
    let body = Expr::Content(tree(vec![Node::Text("Hi".to_string())]));
    let c = call("v", vec![pos(Expr::Int(1)), pos(Expr::Int(2)), pos(body)]);
    assert_eq!(bracket(&c, false), "[v 1, 2][Hi]");
    // An empty body.
    assert_eq!(bracket(&call("v", vec![pos(Expr::Content(vec![]))]), false), "[v][]");
    // Two calls in the body are no chain.
    let two = tree(vec![
        Node::Expr(Expr::Call(call("f", vec![]))),
        Node::Expr(Expr::Call(call("g", vec![]))),
    ]);
    assert_eq!(bracket(&call("v", vec![pos(Expr::Content(two))]), false), "[v][[f][g]]");
    // An expression in the body that is no call is no chain.
    let one = tree(vec![Node::Expr(Expr::Int(1))]);
    assert_eq!(bracket(&call("v", vec![pos(Expr::Content(one))]), false), "[v][{1}]");
}

#[test]
fn test_bracket_call_chains() {
    let f = call("f", vec![pos(Expr::Int(2))]);
    let v = call("v", vec![pos(Expr::Int(1)), pos(content(Expr::Call(f)))]);
    assert_eq!(bracket(&v, false), "[v 1 | f 2]");
    let h = call("h", vec![pos(Expr::Content(tree(vec![Node::Text("x".to_string())])))]);
    let g = call("g", vec![pos(content(Expr::Call(h)))]);
    let f = call("f", vec![pos(content(Expr::Call(g)))]);
    assert_eq!(bracket(&f, false), "[f | g | h][x]");
    assert_eq!(bracket(&f, true), " | f | g | h][x]");
}

#[test]
fn test_content_expression() {
    let mut p = Printer::new();
    pretty_content_expr(&tree(vec![Node::Expr(Expr::Call(call("f", vec![])))]), &mut p);
    assert_eq!(p.finish(), "[f]");

    let mut p = Printer::new();
    p.push_str("x = ");
    pretty_content_expr(&tree(vec![Node::Text("Hello".to_string())]), &mut p);
    assert_eq!(p.finish(), "x = {Hello}");

    let mut p = Printer::new();
    pretty_content_expr(&tree(vec![]), &mut p);
    assert_eq!(p.finish(), "{}");

    assert_eq!(pretty(&array(vec![content(Expr::Int(1))])), "({{1}},)");
}

#[test]
fn test_expression_as_node() {
    let mut p = Printer::new();
    pretty_expr_node(&Expr::Call(call("v", vec![])), &mut p);
    assert_eq!(p.finish(), "[v]");

    let mut p = Printer::new();
    pretty_expr_node(&Expr::Content(tree(vec![Node::Text("Hi".to_string())])), &mut p);
    assert_eq!(p.finish(), "Hi");

    let mut p = Printer::new();
    pretty_expr_node(&binary(Expr::Int(1), BinOp::Add, Expr::Int(2)), &mut p);
    assert_eq!(p.finish(), "{1 + 2}");
}

#[test]
fn test_markup_nodes() {
    let nodes = tree(vec![
        Node::Strong,
        Node::Text("Hello".to_string()),
        Node::Strong,
        Node::Space,
        Node::Emph,
        Node::Text("there".to_string()),
        Node::Emph,
        Node::Linebreak,
        Node::Parbreak,
        Node::Expr(Expr::Int(1)),
    ]);
    assert_eq!(pretty(&nodes), "*Hello* _there_\\\n\n{1}");
    assert_eq!(pretty(&tree(vec![])), "");
}

#[test]
fn test_spans_are_not_printed() {
    let far = Span::new(10, 20);
    let a = ExprCall {
        name: Spanned::new(Ident::new("f".to_string()), far),
        args: Spanned::new(vec![Argument::Pos(Spanned::new(Expr::Int(1), far))], far),
    };
    let b = call("f", vec![pos(Expr::Int(1))]);
    assert_eq!(pretty(&a), pretty(&b));
    assert_eq!(pretty(&a), "f(1)");
    assert_eq!(Span::zero(), Span::new(0, 0));
}

#[test]
fn test_printer_appends() {
    let mut p = Printer::new();
    p.push_str("a");
    Expr::Int(1).pretty(&mut p);
    p.push_str("b");
    assert_eq!(p.finish(), "a1b");
    assert_eq!(Printer::new().finish(), "");
}

#[test]
fn test_clone_has_the_same_structure_and_text() {
    let h = call("h", vec![pos(Expr::Content(tree(vec![Node::Text("x".to_string())])))]);
    let g = call(
        "g",
        vec![
            pos(Expr::Str("a\nb".to_string())),
            Argument::Named(named("k", array(vec![Expr::Int(1), neg(Expr::Bool(true))]))),
            pos(content(Expr::Call(h))),
        ],
    );
    let dict = Expr::Dict(vec![
        named("f", content(Expr::Call(g))),
        named("n", binary(Expr::Float(finite(25, -1)), BinOp::Div, Expr::NoneLit)),
    ]);
    let copy = dict.clone();
    assert_eq!(copy, dict);
    assert_eq!(pretty(&copy), pretty(&dict));
    assert_eq!(pretty(&copy), "(f: [g \"a\\nb\", k: (1, -true) | h][x], n: 2.5 / none)");

    let nodes = tree(vec![Node::Strong, Node::Text("Hi".to_string()), Node::Expr(dict)]);
    let copy = nodes.clone();
    assert_eq!(copy, nodes);
    assert_eq!(pretty(&copy), pretty(&nodes));

    let far = Spanned::new(Ident::new("f".to_string()), Span::new(3, 4));
    assert_eq!(far.clone(), far);
    assert_eq!(far.clone().span, Span::new(3, 4));
}
