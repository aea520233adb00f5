//! The text buffer that printing appends to, and the trait of printable items.

use vstd::prelude::*;
use vstd::string::StringExecFns;

verus! {

/// An append-only text buffer.
pub struct Printer {
    buf: String,
}

impl View for Printer {
    type V = Seq<char>;

    /// The text written so far.
    closed spec fn view(&self) -> Seq<char> {
        self.buf@
    }
}

impl Printer {
    /// Creates an empty printer.
    pub fn new() -> (p: Printer)
        ensures
            p@ == Seq::<char>::empty(),
    {
        Printer { buf: String::new() }
    }

    /// Appends a string slice.
    pub fn push_str(&mut self, s: &str)
        ensures
            final(self)@ == old(self)@ + s@,
    {
        self.buf.append(s);
    }

    /// Hands out the text written so far.
    pub fn finish(self) -> (text: String)
        ensures
            text@ == self@,
    {
        self.buf
    }
}

/// An item with a canonical source text.
pub trait Pretty {
    /// The canonical source text of the item.
    spec fn text(&self) -> Seq<char>;

    /// Appends the canonical source text of the item to the printer.
    fn pretty(&self, p: &mut Printer)
        ensures
            final(p)@ == old(p)@ + self.text(),
    ;
}

/// Renders an item to its canonical source text.
pub fn pretty<T: Pretty>(item: &T) -> (text: String)
    ensures
        text@ == item.text(),
{
    let mut p = Printer::new();
    item.pretty(&mut p);
    p.finish()
}

impl Pretty for bool {
    open spec fn text(&self) -> Seq<char> {
        if *self {
            "true"@
        } else {
            "false"@
        }
    }

    fn pretty(&self, p: &mut Printer) {
        if *self {
            p.push_str("true");
        } else {
            p.push_str("false");
        }
    }
}

} // verus!
