//! Expression syntax trees of a small markup language, and the printer that
//! turns such a tree back into canonical source text.
//!
//! Every printing function appends to a [`pretty::Printer`] and states, as its
//! postcondition, exactly which characters it appends. The text of each syntax
//! node is given by the `text` function of [`pretty::Pretty`].

pub mod color;
pub mod geom;
pub mod number;
pub mod pretty;
pub mod syntax;
