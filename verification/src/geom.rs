//! Geometry values shared by widgets, text layout and the context.
//!
//! Coordinates are logical pixels held as `f32` values by callers.  The library
//! itself never computes with them: it stores, copies and hands them back, so each
//! coordinate is carried here as the IEEE-754 bit pattern of its `f32` value
//! (`f32::to_bits` / `f32::from_bits`), which is an exact, reversible stand-in.
use vstd::prelude::*;

verus! {

/// A position or an extent in logical pixels, each coordinate held as the bit
/// pattern of its `f32` value.  The all-zero pattern is `0.0`.
#[derive(Clone, Copy, Debug)]
pub struct Point {
    pub x: u32,
    pub y: u32,
}

impl Point {
    /// The point `(0.0, 0.0)`.
    pub open spec fn zero() -> Point {
        Point { x: 0, y: 0 }
    }

    /// Builds a point from the bit patterns of its two coordinates.
    pub fn new(x: u32, y: u32) -> (p: Point)
        ensures
            p.x == x,
            p.y == y,
    {
        Point { x, y }
    }
}

impl Default for Point {
    fn default() -> (p: Point)
        ensures
            p == Point::zero(),
    {
        Point { x: 0, y: 0 }
    }
}

/// An axis aligned rectangle: its top left corner and its size.
#[derive(Clone, Copy, Debug)]
pub struct Rect {
    pub pos: Point,
    pub size: Point,
}

impl Rect {
    /// The rectangle at the origin with no extent.
    pub open spec fn zero() -> Rect {
        Rect { pos: Point::zero(), size: Point::zero() }
    }

    /// Builds a rectangle from its corner and size.
    pub fn new(pos: Point, size: Point) -> (r: Rect)
        ensures
            r.pos == pos,
            r.size == size,
    {
        Rect { pos, size }
    }
}

impl Default for Rect {
    fn default() -> (r: Rect)
        ensures
            r == Rect::zero(),
    {
        Rect { pos: Point { x: 0, y: 0 }, size: Point { x: 0, y: 0 } }
    }
}

/// The widths of the four edges of a widget's border, in logical pixels.
#[derive(Clone, Copy, Debug)]
pub struct Border {
    pub top: u32,
    pub bot: u32,
    pub left: u32,
    pub right: u32,
}

impl Border {
    /// The border of width `0.0` on every edge.
    pub open spec fn zero() -> Border {
        Border { top: 0, bot: 0, left: 0, right: 0 }
    }
}

impl Default for Border {
    fn default() -> (b: Border)
        ensures
            b == Border::zero(),
    {
        Border { top: 0, bot: 0, left: 0, right: 0 }
    }
}

/// An RGBA color, one byte per channel.
#[derive(Clone, Copy, Debug, PartialEq, Eq, Structural)]
pub struct Color {
    pub r: u8,
    pub g: u8,
    pub b: u8,
    pub a: u8,
}

impl Color {
    /// Opaque white, the default text color.
    pub open spec fn white() -> Color {
        Color { r: 255, g: 255, b: 255, a: 255 }
    }
}

impl Default for Color {
    fn default() -> (c: Color)
        ensures
            c == Color::white(),
    {
        Color { r: 255, g: 255, b: 255, a: 255 }
    }
}

/// Where along one axis something is attached: at the start (left or top), in the
/// middle, or at the end (right or bottom).
#[derive(Clone, Copy, Debug, PartialEq, Eq, Structural)]
pub enum Anchor {
    Start,
    Middle,
    End,
}

impl Anchor {
    /// The direction, `1`, `0` or `-1`, in which content attached at this anchor
    /// grows: away from the start, not at all from the middle, back from the end.
    pub open spec fn growth(self) -> int {
        match self {
            Anchor::Start => 1,
            Anchor::Middle => 0,
            Anchor::End => -1,
        }
    }
}

/// The alignment of a widget within its parent, or of text within a widget.
#[derive(Clone, Copy, Debug, PartialEq, Eq, Structural)]
pub enum Align {
    Left,
    Right,
    Bot,
    Top,
    Center,
    BotLeft,
    BotRight,
    TopLeft,
    TopRight,
}

impl Default for Align {
    fn default() -> (a: Align)
        ensures
            a == Align::TopLeft,
    {
        Align::TopLeft
    }
}

impl Align {
    /// The horizontal anchor of the alignment.
    pub open spec fn horizontal(self) -> Anchor {
        match self {
            Align::Left | Align::BotLeft | Align::TopLeft => Anchor::Start,
            Align::Right | Align::BotRight | Align::TopRight => Anchor::End,
            Align::Bot | Align::Top | Align::Center => Anchor::Middle,
        }
    }

    /// The vertical anchor of the alignment.
    pub open spec fn vertical(self) -> Anchor {
        match self {
            Align::Top | Align::TopLeft | Align::TopRight => Anchor::Start,
            Align::Bot | Align::BotLeft | Align::BotRight => Anchor::End,
            Align::Left | Align::Right | Align::Center => Anchor::Middle,
        }
    }

    /// The alignment whose anchors are `x` horizontally and `y` vertically.
    pub open spec fn with_anchors(x: Anchor, y: Anchor) -> Align {
        match (x, y) {
            (Anchor::Start, Anchor::Start) => Align::TopLeft,
            (Anchor::Middle, Anchor::Start) => Align::Top,
            (Anchor::End, Anchor::Start) => Align::TopRight,
            (Anchor::Start, Anchor::Middle) => Align::Left,
            (Anchor::Middle, Anchor::Middle) => Align::Center,
            (Anchor::End, Anchor::Middle) => Align::Right,
            (Anchor::Start, Anchor::End) => Align::BotLeft,
            (Anchor::Middle, Anchor::End) => Align::Bot,
            (Anchor::End, Anchor::End) => Align::BotRight,
        }
    }

    /// The horizontal anchor that widget placement and text layout use for this
    /// alignment: a left alignment measures from the left edge of the inner area,
    /// a right one from its right edge, the others from its middle.
    pub fn x_anchor(self) -> (a: Anchor)
        ensures
            a == self.horizontal(),
    {
        match self {
            Align::Left | Align::BotLeft | Align::TopLeft => Anchor::Start,
            Align::Right | Align::BotRight | Align::TopRight => Anchor::End,
            Align::Bot | Align::Top | Align::Center => Anchor::Middle,
        }
    }

    /// The vertical anchor that widget placement and text layout use for this
    /// alignment: top alignments measure from the top edge, bottom ones from the
    /// bottom edge, the others from the middle.
    pub fn y_anchor(self) -> (a: Anchor)
        ensures
            a == self.vertical(),
    {
        match self {
            Align::Top | Align::TopLeft | Align::TopRight => Anchor::Start,
            Align::Bot | Align::BotLeft | Align::BotRight => Anchor::End,
            Align::Left | Align::Right | Align::Center => Anchor::Middle,
        }
    }

    /// The signs by which a parent's layout cursor moves past a child of the given
    /// size when the parent aligns its children this way: `(sx, sy)` means the
    /// cursor moves by `sx * width` horizontally or `sy * height` vertically.
    /// Children aligned left or top push the cursor forward, those aligned right or
    /// bottom push it back, and centered axes do not move it.
    pub fn child_advance(self) -> (s: (i8, i8))
        ensures
            s.0 as int == self.horizontal().growth(),
            s.1 as int == self.vertical().growth(),
    {
        match self {
            Align::Left => (1, 0),
            Align::Right => (-1, 0),
            Align::Bot => (0, -1),
            Align::Top => (0, 1),
            Align::Center => (0, 0),
            Align::BotLeft => (1, -1),
            Align::BotRight => (-1, -1),
            Align::TopLeft => (1, 1),
            Align::TopRight => (-1, 1),
        }
    }
}

/// An alignment is determined by its two anchors, and every pair of anchors is the
/// pair of exactly one alignment: the nine alignments are the nine combinations of
/// start, middle and end along the two axes.
pub proof fn lemma_align_is_anchor_pair(a: Align, x: Anchor, y: Anchor)
    ensures
        Align::with_anchors(a.horizontal(), a.vertical()) == a,
        Align::with_anchors(x, y).horizontal() == x,
        Align::with_anchors(x, y).vertical() == y,
{
}

/// Two alignments with the same horizontal and vertical anchors are the same
/// alignment.
pub proof fn lemma_anchors_determine_align(a: Align, b: Align)
    requires
        a.horizontal() == b.horizontal(),
        a.vertical() == b.vertical(),
    ensures
        a == b,
{
    lemma_align_is_anchor_pair(a, Anchor::Start, Anchor::Start);
    lemma_align_is_anchor_pair(b, Anchor::Start, Anchor::Start);
}

/// How the children of a widget are laid out.
#[derive(Clone, Copy, Debug, PartialEq, Eq, Structural)]
pub enum Layout {
    Horizontal,
    Vertical,
    Free,
}

/// One of the two axes of the plane.
#[derive(Clone, Copy, Debug, PartialEq, Eq, Structural)]
pub enum Axis {
    X,
    Y,
}

impl Layout {
    /// The axis along which the layout cursor moves past children and gaps: across
    /// for a horizontal layout, down for a vertical one, none for a free layout.
    pub fn advance_axis(self) -> (a: Option<Axis>)
        ensures
            self == Layout::Horizontal ==> a == Some(Axis::X),
            self == Layout::Vertical ==> a == Some(Axis::Y),
            self == Layout::Free ==> a is None,
    {
        match self {
            Layout::Horizontal => Some(Axis::X),
            Layout::Vertical => Some(Axis::Y),
            Layout::Free => None,
        }
    }
}

impl Default for Layout {
    fn default() -> (l: Layout)
        ensures
            l == Layout::Horizontal,
    {
        Layout::Horizontal
    }
}

/// How a widget's width is computed from its specified size.
#[derive(Clone, Copy, Debug, PartialEq, Eq, Structural)]
pub enum WidthRelative {
    /// The width is the specified width.
    Normal,
    /// The width is the specified width plus the parent's inner width.
    Parent,
}

impl Default for WidthRelative {
    fn default() -> (w: WidthRelative)
        ensures
            w == WidthRelative::Normal,
    {
        WidthRelative::Normal
    }
}

/// How a widget's height is computed from its specified size.
#[derive(Clone, Copy, Debug, PartialEq, Eq, Structural)]
pub enum HeightRelative {
    /// The height is the specified height.
    Normal,
    /// The height is the specified height plus the parent's inner height.
    Parent,
    /// The height is the specified height plus one line of the widget's font plus
    /// its own vertical border.
    FontLine,
}

impl Default for HeightRelative {
    fn default() -> (h: HeightRelative)
        ensures
            h == HeightRelative::Normal,
    {
        HeightRelative::Normal
    }
}

} // verus!
