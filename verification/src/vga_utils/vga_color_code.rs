//! The attribute byte of a cell: background in the high four bits,
//! foreground in the low four.

use vstd::prelude::*;
use super::vga_colors::Color;

verus! {

/// A foreground and a background colour packed into one attribute byte.
///
/// Every byte is a valid attribute: it holds exactly one palette index in
/// each half.
#[derive(Debug, Clone, Copy, PartialEq, Eq, Structural)]
pub struct ColorCode(pub u8);

impl ColorCode {
    /// The attribute that shows `foreground` on `background`:
    /// sixteen times the background's index plus the foreground's.
    pub open spec fn spec_new(foreground: Color, background: Color) -> ColorCode {
        ColorCode((background.index() * 16 + foreground.index()) as u8)
    }

    /// The colour in the low half of the attribute.
    pub open spec fn spec_foreground(self) -> Color {
        Color::at(self.0 as int % 16)
    }

    /// The colour in the high half of the attribute.
    pub open spec fn spec_background(self) -> Color {
        Color::at(self.0 as int / 16)
    }

    /// Packs a foreground and a background colour.
    pub fn new(foreground: Color, background: Color) -> (code: ColorCode)
        ensures
            code == ColorCode::spec_new(foreground, background),
            code.0 == background.index() * 16 + foreground.index(),
    {
        let fg: u8 = foreground.to_u8();
        let bg: u8 = background.to_u8();
        assert((bg << 4 | fg) == bg * 16 + fg) by (bit_vector)
            requires
                bg < 16,
                fg < 16,
        ;
        ColorCode(bg << 4 | fg)
    }

    /// The foreground colour of the attribute.
    pub fn foreground(&self) -> (c: Color)
        ensures
            c == self.spec_foreground(),
    {
        let byte: u8 = self.0;
        let low: u8 = byte & 0x0F;
        assert(low == byte % 16) by (bit_vector)
            requires
                low == byte & 0x0F,
        ;
        match Color::from_u8(low) {
            Some(c) => c,
            None => Color::White,
        }
    }

    /// The background colour of the attribute.
    pub fn background(&self) -> (c: Color)
        ensures
            c == self.spec_background(),
    {
        let byte: u8 = self.0;
        let high: u8 = byte >> 4;
        assert(high == byte / 16) by (bit_vector)
            requires
                high == byte >> 4,
        ;
        match Color::from_u8(high) {
            Some(c) => c,
            None => Color::White,
        }
    }

    /// Packing two colours and unpacking the attribute gives the two
    /// colours back, each in its own place.
    pub proof fn lemma_pack_unpack(foreground: Color, background: Color)
        ensures
            ColorCode::spec_new(foreground, background).spec_foreground() == foreground,
            ColorCode::spec_new(foreground, background).spec_background() == background,
    {
        Color::lemma_index_at(foreground, 0);
        Color::lemma_index_at(background, 0);
    }

    /// Every attribute byte is the packing of the two colours it unpacks to.
    pub proof fn lemma_unpack_pack(code: ColorCode)
        ensures
            ColorCode::spec_new(code.spec_foreground(), code.spec_background()) == code,
    {
        Color::lemma_index_at(Color::White, code.0 as int % 16);
        Color::lemma_index_at(Color::White, code.0 as int / 16);
    }
}

} // verus!
