//! Colors.

use crate::number::digit_char;
use crate::number::digit_str;
use crate::pretty::Pretty;
use crate::pretty::Printer;
use vstd::prelude::*;

verus! {

/// An 8-bit RGBA color.
#[derive(Debug, Clone, Copy, PartialEq, Eq)]
pub struct RgbaColor {
    /// Red channel.
    pub r: u8,
    /// Green channel.
    pub g: u8,
    /// Blue channel.
    pub b: u8,
    /// Alpha channel.
    pub a: u8,
}

/// The two lower-case hexadecimal digits of a byte.
pub open spec fn hex_byte(v: u8) -> Seq<char> {
    seq![digit_char((v / 16) as nat), digit_char((v % 16) as nat)]
}

impl RgbaColor {
    /// Constructs a new color.
    pub fn new(r: u8, g: u8, b: u8, a: u8) -> (color: RgbaColor)
        ensures
            color == (RgbaColor { r, g, b, a }),
    {
        RgbaColor { r, g, b, a }
    }
}

/// Appends the two lower-case hexadecimal digits of a byte.
fn push_hex_byte(p: &mut Printer, v: u8)
    ensures
        final(p)@ == old(p)@ + hex_byte(v),
{
    p.push_str(digit_str(v / 16));
    p.push_str(digit_str(v % 16));
    assert(p@ =~= old(p)@ + hex_byte(v));
}

impl Pretty for RgbaColor {
    /// The canonical hex form: `#rrggbb` for an opaque color, `#rrggbbaa` for
    /// any other.
    open spec fn text(&self) -> Seq<char> {
        let rgb = seq!['#'] + hex_byte(self.r) + hex_byte(self.g) + hex_byte(self.b);
        if self.a != 255 {
            rgb + hex_byte(self.a)
        } else {
            rgb
        }
    }

    fn pretty(&self, p: &mut Printer) {
        proof {
            reveal_strlit("#");
        }
        p.push_str("#");
        push_hex_byte(p, self.r);
        push_hex_byte(p, self.g);
        push_hex_byte(p, self.b);
        if self.a != 255 {
            push_hex_byte(p, self.a);
        }
        assert(p@ =~= old(p)@ + self.text());
    }
}

} // verus!
