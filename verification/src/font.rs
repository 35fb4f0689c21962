//! Fonts: parsed font sources, the glyph tables built from them, and their handles.
use vstd::prelude::*;

use crate::geom::Point;
use rusttype::Font as TtfFont;

verus! {

#[verifier::external_type_specification]
#[verifier::external_body]
pub struct ExTtfFont<'a>(TtfFont<'a>);

/// Whether `data` is a font file that the TrueType/OpenType parser accepts as a
/// single font face (collection index `0`).
pub uninterp spec fn font_data_parses(data: Seq<u8>) -> bool;

/// Parses owned font data with `rusttype::Font::try_from_vec`.
///
/// Claims of the call: it returns a font exactly when the data parses, which depends
/// on the bytes alone; and data shorter than four bytes, too short for the font file
/// signature that the parser reads first, never parses.  Nothing is claimed about
/// the font that is returned.
#[verifier::external_body]
pub(crate) fn parse_font_data(data: Vec<u8>) -> (r: Option<TtfFont<'static>>)
    ensures
        r is Some <==> font_data_parses(data@),
        data@.len() < 4 ==> r is None,
{
    TtfFont::try_from_vec(data)
}

/// A parsed font file, from which fonts of particular sizes are built.
pub struct FontSource {
    pub font: TtfFont<'static>,
}

/// Identifies a font built for drawing.
#[derive(Clone, Copy, Debug, PartialEq, Eq, Structural)]
pub struct FontHandle {
    pub id: usize,
}

/// The metrics of one glyph of a font, in the bit patterns of `f32` values.
#[derive(Clone, Copy, Debug)]
pub struct FontChar {
    /// The size of the glyph's quad.
    pub size: Point,
    /// The texture coordinates of the glyph's two opposite corners.
    pub tex_coords: [Point; 2],
    /// How far the pen moves after the glyph.
    pub x_advance: u32,
    /// The glyph's offset from the baseline.
    pub y_offset: u32,
}

impl FontChar {
    /// The glyph with no extent, no advance and no offset.
    pub open spec fn is_empty(self) -> bool {
        &&& self.size == Point::zero()
        &&& self.tex_coords@ == seq![Point::zero(), Point::zero()]
        &&& self.x_advance == 0
        &&& self.y_offset == 0
    }
}

impl Default for FontChar {
    fn default() -> (c: FontChar)
        ensures
            c.is_empty(),
    {
        let c = FontChar {
            size: Point::default(),
            tex_coords: [Point::new(0, 0), Point::new(0, 0)],
            x_advance: 0,
            y_offset: 0,
        };
        assert(c.tex_coords@ =~= seq![Point::zero(), Point::zero()]);
        c
    }
}

/// The handle of a font and the height of its lines.
#[derive(Clone, Copy, Debug)]
pub struct FontSummary {
    pub handle: FontHandle,
    /// The bit pattern of the line height.
    pub line_height: u32,
}

/// A font built for drawing: the glyph of each character it covers, indexed by the
/// character's code point, and its vertical metrics.
pub struct Font {
    handle: FontHandle,
    characters: Vec<FontChar>,
    line_height: u32,
    ascent: u32,
}

impl Font {
    pub closed spec fn spec_handle(&self) -> FontHandle {
        self.handle
    }

    /// The glyphs, by code point.
    pub closed spec fn glyphs(&self) -> Seq<FontChar> {
        self.characters@
    }

    pub closed spec fn spec_line_height(&self) -> u32 {
        self.line_height
    }

    pub closed spec fn spec_ascent(&self) -> u32 {
        self.ascent
    }

    /// A font with the given handle, glyphs and metrics.
    pub fn new(handle: FontHandle, characters: Vec<FontChar>, line_height: u32, ascent: u32) -> (f:
        Font)
        ensures
            f.spec_handle() == handle,
            f.glyphs() == characters@,
            f.spec_line_height() == line_height,
            f.spec_ascent() == ascent,
    {
        Font { handle, characters, line_height, ascent }
    }

    /// The glyph of `c`, if the font covers its code point.
    pub fn char(&self, c: char) -> (r: Option<&FontChar>)
        ensures
            (c as int) < self.glyphs().len() ==> r == Some(&self.glyphs()[c as int]),
            (c as int) >= self.glyphs().len() ==> r is None,
    {
        let index = c as u32 as usize;
        if index < self.characters.len() {
            Some(&self.characters[index])
        } else {
            None
        }
    }

    /// The bit pattern of the height of a line of text.
    pub fn line_height(&self) -> (r: u32)
        ensures
            r == self.spec_line_height(),
    {
        self.line_height
    }

    /// The bit pattern of the distance from the top of a line to its baseline.
    pub fn ascent(&self) -> (r: u32)
        ensures
            r == self.spec_ascent(),
    {
        self.ascent
    }

    /// The font's handle.
    pub fn handle(&self) -> (r: FontHandle)
        ensures
            r == self.spec_handle(),
    {
        self.handle
    }
}

} // verus!
