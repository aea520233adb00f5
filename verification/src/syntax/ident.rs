//! Identifiers.

use crate::pretty::Pretty;
use crate::pretty::Printer;
use vstd::prelude::*;

verus! {

/// An identifier: the name of a function, of a named argument or of a
/// dictionary key.
#[derive(Debug, PartialEq, Eq)]
pub struct Ident(pub String);

impl View for Ident {
    type V = Seq<char>;

    /// The characters of the identifier.
    open spec fn view(&self) -> Seq<char> {
        self.0@
    }
}

impl Ident {
    /// Makes an identifier of a name.
    pub fn new(name: String) -> (ident: Ident)
        ensures
            ident@ == name@,
    {
        Ident(name)
    }

    /// The identifier as a string slice.
    pub fn as_str(&self) -> (s: &str)
        ensures
            s@ == self@,
    {
        self.0.as_str()
    }
}

impl Pretty for Ident {
    /// An identifier is printed verbatim.
    open spec fn text(&self) -> Seq<char> {
        self@
    }

    fn pretty(&self, p: &mut Printer) {
        p.push_str(self.as_str());
    }
}

} // verus!
