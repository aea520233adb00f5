//! Physical units.

use crate::pretty::Pretty;
use crate::pretty::Printer;
use vstd::prelude::*;

verus! {

/// A unit of length.
#[derive(Debug, Clone, Copy, PartialEq, Eq)]
pub enum Unit {
    /// Points.
    Pt,
    /// Millimeters.
    Mm,
    /// Centimeters.
    Cm,
    /// Inches.
    In,
}

impl Pretty for Unit {
    open spec fn text(&self) -> Seq<char> {
        match self {
            Unit::Pt => "pt"@,
            Unit::Mm => "mm"@,
            Unit::Cm => "cm"@,
            Unit::In => "in"@,
        }
    }

    fn pretty(&self, p: &mut Printer) {
        p.push_str(
            match self {
                Unit::Pt => "pt",
                Unit::Mm => "mm",
                Unit::Cm => "cm",
                Unit::In => "in",
            },
        );
    }
}

} // verus!
