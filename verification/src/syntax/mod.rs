//! Syntax trees.

pub mod expr;
pub mod ident;
pub mod node;
pub mod same;
pub mod span;

pub use expr::pretty_bracket_call;
pub use expr::pretty_content_expr;
pub use expr::Argument;
pub use expr::BinOp;
pub use expr::Expr;
pub use expr::ExprArgs;
pub use expr::ExprArray;
pub use expr::ExprBinary;
pub use expr::ExprCall;
pub use expr::ExprContent;
pub use expr::ExprDict;
pub use expr::ExprUnary;
pub use expr::Named;
pub use expr::UnOp;
pub use ident::Ident;
pub use node::pretty_expr_node;
pub use node::Node;
pub use node::Tree;
pub use span::Span;
pub use span::SpanVec;
pub use span::Spanned;
