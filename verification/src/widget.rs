//! Widgets and the builder that configures a widget before it is added to a frame.
use vstd::prelude::*;

use crate::anim::{AnimState, AnimStateKey, WidgetState};
use crate::context::{state_initialized, ContextInternal, RendGroup};
use crate::font::FontSummary;
use crate::state::{opt_str_view, PersistentStateData};
use crate::geom::{Align, Border, Color, HeightRelative, Layout, Point, Rect, WidthRelative};

verus! {

/// Identifies an image of the theme.
#[derive(Clone, Copy, Debug, PartialEq, Eq, Structural)]
pub struct ImageHandle {
    pub id: usize,
}

/// The abstract value of a [`Widget`].
pub struct WidgetView {
    pub id: Seq<char>,
    pub rend_group: RendGroup,
    pub scroll: Point,
    pub cursor: Point,
    pub theme_id: Seq<char>,
    pub child_align: Align,
    pub layout: Layout,
    pub layout_spacing: Point,
    pub clip: Rect,
    pub text: Option<Seq<char>>,
    pub text_color: Color,
    pub text_align: Align,
    pub font: Option<FontSummary>,
    pub background: Option<ImageHandle>,
    pub foreground: Option<ImageHandle>,
    pub pos: Point,
    pub size: Point,
    pub border: Border,
    pub anim_state: AnimState,
    pub visible: bool,
}

/// A widget of the frame's widget tree.
pub struct Widget {
    id: String,
    rend_group: RendGroup,
    scroll: Point,
    cursor: Point,
    theme_id: String,
    child_align: Align,
    layout: Layout,
    layout_spacing: Point,
    clip: Rect,
    text: Option<String>,
    text_color: Color,
    text_align: Align,
    font: Option<FontSummary>,
    background: Option<ImageHandle>,
    foreground: Option<ImageHandle>,
    pos: Point,
    size: Point,
    border: Border,
    anim_state: AnimState,
    visible: bool,
}

impl View for Widget {
    type V = WidgetView;

    closed spec fn view(&self) -> WidgetView {
        WidgetView {
            id: self.id@,
            rend_group: self.rend_group,
            scroll: self.scroll,
            cursor: self.cursor,
            theme_id: self.theme_id@,
            child_align: self.child_align,
            layout: self.layout,
            layout_spacing: self.layout_spacing,
            clip: self.clip,
            text: opt_str_view(self.text),
            text_color: self.text_color,
            text_align: self.text_align,
            font: self.font,
            background: self.background,
            foreground: self.foreground,
            pos: self.pos,
            size: self.size,
            border: self.border,
            anim_state: self.anim_state,
            visible: self.visible,
        }
    }
}

/// The root widget of a frame covering a display of the given size: at the
/// origin, clipped to the display, visible, in the normal state, with default
/// alignment, layout and colors and nothing else.
pub open spec fn root_view(size: Point) -> WidgetView {
    WidgetView {
        id: Seq::empty(),
        rend_group: RendGroup { index: 0 },
        scroll: Point::zero(),
        cursor: Point::zero(),
        theme_id: Seq::empty(),
        child_align: Align::TopLeft,
        layout: Layout::Horizontal,
        layout_spacing: Point::zero(),
        clip: Rect { pos: Point::zero(), size },
        text: None,
        text_color: Color::white(),
        text_align: Align::TopLeft,
        font: None,
        background: None,
        foreground: None,
        pos: Point::zero(),
        size,
        border: Border::zero(),
        anim_state: AnimState::normal_spec(),
        visible: true,
    }
}

/// The root widget takes the defaults of every setting: it lays its children out
/// horizontally, aligned at the top left, with no spacing; its text is white and
/// aligned at the top left; it has no border and no scroll; it sits at the origin,
/// is as large as the display and clipped to it, and is visible.
pub proof fn lemma_root_defaults(size: Point)
    ensures
        root_view(size).layout == Layout::Horizontal,
        root_view(size).child_align == Align::TopLeft,
        root_view(size).layout_spacing == Point::zero(),
        root_view(size).text_align == Align::TopLeft,
        root_view(size).text_color == Color::white(),
        root_view(size).border == Border::zero(),
        root_view(size).scroll == Point::zero(),
        root_view(size).cursor == Point::zero(),
        root_view(size).pos == Point::zero(),
        root_view(size).size == size,
        root_view(size).clip == (Rect { pos: Point::zero(), size }),
        root_view(size).visible,
        root_view(size).text is None,
        root_view(size).font is None,
{
}

impl Widget {
    /// The root widget of a frame for a display of `size` logical pixels.
    pub fn root(size: Point) -> (w: Widget)
        ensures
            w@ == root_view(size),
            w@.layout == Layout::Horizontal,
            w@.child_align == Align::TopLeft,
    {
        let w = Widget {
            theme_id: String::new(),
            text: None,
            text_align: Align::default(),
            text_color: Color::default(),
            font: None,
            background: None,
            foreground: None,
            layout: Layout::default(),
            layout_spacing: Point::default(),
            child_align: Align::default(),
            pos: Point::default(),
            scroll: Point::default(),
            cursor: Point::default(),
            border: Border::default(),
            size,
            id: String::new(),
            rend_group: RendGroup::default(),
            anim_state: AnimState::normal(),
            visible: true,
            clip: Rect { pos: Point::default(), size },
        };
        assert(w@.id =~= Seq::<char>::empty());
        assert(w@.theme_id =~= Seq::<char>::empty());
        w
    }

    pub fn clip(&self) -> (r: Rect)
        ensures
            r == self@.clip,
    {
        self.clip
    }

    pub fn visible(&self) -> (r: bool)
        ensures
            r == self@.visible,
    {
        self.visible
    }

    pub fn text_color(&self) -> (r: Color)
        ensures
            r == self@.text_color,
    {
        self.text_color
    }

    pub fn text_align(&self) -> (r: Align)
        ensures
            r == self@.text_align,
    {
        self.text_align
    }

    pub fn text(&self) -> (r: Option<&str>)
        ensures
            match self@.text {
                Some(t) => r is Some && r->0@ == t,
                None => r is None,
            },
    {
        match &self.text {
            Some(t) => Some(t.as_str()),
            None => None,
        }
    }

    pub fn font(&self) -> (r: Option<FontSummary>)
        ensures
            r == self@.font,
    {
        self.font
    }

    pub fn foreground(&self) -> (r: Option<ImageHandle>)
        ensures
            r == self@.foreground,
    {
        self.foreground
    }

    pub fn background(&self) -> (r: Option<ImageHandle>)
        ensures
            r == self@.background,
    {
        self.background
    }

    pub fn border(&self) -> (r: Border)
        ensures
            r == self@.border,
    {
        self.border
    }

    pub fn id(&self) -> (r: &str)
        ensures
            r@ == self@.id,
    {
        self.id.as_str()
    }

    pub fn theme_id(&self) -> (r: &str)
        ensures
            r@ == self@.theme_id,
    {
        self.theme_id.as_str()
    }

    pub fn anim_state(&self) -> (r: AnimState)
        ensures
            r == self@.anim_state,
    {
        self.anim_state
    }

    pub fn size(&self) -> (r: Point)
        ensures
            r == self@.size,
    {
        self.size
    }

    pub fn pos(&self) -> (r: Point)
        ensures
            r == self@.pos,
    {
        self.pos
    }

    /// Places the layout cursor for the next child at `(x, y)`.
    pub fn set_cursor(&mut self, x: u32, y: u32)
        ensures
            final(self)@ == (WidgetView { cursor: Point { x, y }, ..old(self)@ }),
    {
        self.cursor = Point { x, y };
    }

    pub fn cursor(&self) -> (r: Point)
        ensures
            r == self@.cursor,
    {
        self.cursor
    }

    pub fn scroll(&self) -> (r: Point)
        ensures
            r == self@.scroll,
    {
        self.scroll
    }

    pub fn layout(&self) -> (r: Layout)
        ensures
            r == self@.layout,
    {
        self.layout
    }

    pub fn layout_spacing(&self) -> (r: Point)
        ensures
            r == self@.layout_spacing,
    {
        self.layout_spacing
    }

    pub fn child_align(&self) -> (r: Align)
        ensures
            r == self@.child_align,
    {
        self.child_align
    }

    pub fn rend_group(&self) -> (r: RendGroup)
        ensures
            r == self@.rend_group,
    {
        self.rend_group
    }

    pub fn set_rend_group(&mut self, group: RendGroup)
        ensures
            final(self)@ == (WidgetView { rend_group: group, ..old(self)@ }),
    {
        self.rend_group = group;
    }

    /// Sets the widget's animation state for this frame.
    pub fn set_anim_state(&mut self, anim_state: AnimState)
        ensures
            final(self)@ == (WidgetView { anim_state, ..old(self)@ }),
    {
        self.anim_state = anim_state;
    }

    /// Sets the widget's laid out position and size.
    pub fn set_pos_size(&mut self, pos: Point, size: Point)
        ensures
            final(self)@ == (WidgetView { pos, size, ..old(self)@ }),
    {
        self.pos = pos;
        self.size = size;
    }

    /// Moves the layout cursor to `cursor`.
    pub fn set_cursor_point(&mut self, cursor: Point)
        ensures
            final(self)@ == (WidgetView { cursor, ..old(self)@ }),
    {
        self.cursor = cursor;
    }
}

/// The settings that a theme gives a widget; `None` where the theme leaves a
/// setting to its default.
pub struct WidgetTheme {
    /// The widget's own ID within its parent.
    pub id: String,
    /// The full path of the theme entry.
    pub full_id: String,
    pub text: Option<String>,
    pub text_color: Option<Color>,
    pub text_align: Option<Align>,
    pub font: Option<FontSummary>,
    pub background: Option<ImageHandle>,
    pub foreground: Option<ImageHandle>,
    pub wants_mouse: Option<bool>,
    pub wants_scroll: Option<bool>,
    pub pos: Option<Point>,
    pub size: Option<Point>,
    pub width_from: Option<WidthRelative>,
    pub height_from: Option<HeightRelative>,
    pub align: Option<Align>,
    pub child_align: Option<Align>,
    pub layout: Option<Layout>,
    pub layout_spacing: Option<Point>,
    pub border: Option<Border>,
}

/// The value of an optional setting, or the default.
pub open spec fn or_else<T>(o: Option<T>, d: T) -> T {
    match o {
        Some(v) => v,
        None => d,
    }
}

/// How a widget is to be placed and how it takes input.
#[derive(Clone, Copy, Debug)]
pub struct WidgetData {
    /// Whether the widget's position was given explicitly, so that it does not
    /// advance its parent's layout cursor.
    pub manual_pos: bool,
    pub wants_mouse: bool,
    pub wants_scroll: bool,
    /// The position as specified, relative to the alignment point in the parent.
    pub raw_pos: Point,
    /// The size as specified, before widths and heights relative to the parent or
    /// the font are added.
    pub raw_size: Point,
    pub width_from: WidthRelative,
    pub height_from: HeightRelative,
    pub align: Align,
    pub enabled: bool,
    pub active: bool,
    /// Whether position and size must be computed again before use.
    pub recalc_pos_size: bool,
    /// Whether the widget starts a new render group.
    pub next_render_group: bool,
}

/// The animation state a finished widget gets before `Active` is considered: the
/// state the mouse check gave when the widget checks the mouse, else the disabled one.
pub open spec fn finished_base_state(data: WidgetData, mouse_anim: AnimState) -> AnimState {
    if data.enabled && data.wants_mouse {
        mouse_anim
    } else {
        AnimState::disabled_spec()
    }
}

impl WidgetData {
    /// Whether finishing the widget checks the mouse: it is enabled and wants it.
    pub fn checks_mouse(&self) -> (r: bool)
        ensures
            r == (self.enabled && self.wants_mouse),
    {
        self.enabled && self.wants_mouse
    }

    /// The animation state a finished widget gets: the state the mouse check gave
    /// (`mouse_anim`) when the widget checks the mouse, the disabled state
    /// otherwise, with `Active` added when the widget is active.
    pub fn finished_anim_state(&self, mouse_anim: AnimState) -> (a: AnimState)
        ensures
            self.active ==> a == finished_base_state(*self, mouse_anim).added(AnimStateKey::Active),
            !self.active ==> a == finished_base_state(*self, mouse_anim),
            self.active ==> a.has(AnimStateKey::Active),
            forall|k: AnimStateKey|
                k != AnimStateKey::Active && k != AnimStateKey::Normal ==> (#[trigger] a.has(k)
                    == finished_base_state(*self, mouse_anim).has(k)),
            !(self.enabled && self.wants_mouse) ==> a.has(AnimStateKey::Disabled),
    {
        proof {
            finished_base_state(*self, mouse_anim).lemma_added(AnimStateKey::Active);
            AnimState::lemma_named_states(AnimStateKey::Active);
        }
        let mut anim_state = if self.checks_mouse() {
            mouse_anim
        } else {
            AnimState::disabled()
        };
        if self.active {
            anim_state.add(AnimStateKey::Active);
        }
        anim_state
    }
}

/// What finishing a widget does besides laying it out, decided from its data and
/// the outcome of the mouse check.
#[derive(Clone, Copy, Debug)]
pub struct FinishPlan {
    /// The widget's animation state for this frame.
    pub anim_state: AnimState,
    /// Whether the widget reports a click.
    pub clicked: bool,
    /// Whether the mouse drag found by the check is the widget's movement; when it
    /// is not, the widget has not moved.
    pub takes_drag: bool,
    /// Whether scroll wheel movement over the widget is added to its movement:
    /// only for an enabled widget that wants it.
    pub takes_wheel: bool,
    /// Whether the widget moves its parent's layout cursor past itself: only
    /// widgets the layout placed do.
    pub advances_parent_cursor: bool,
}

impl WidgetData {
    /// The plan for finishing a shown widget, given the click and animation state
    /// that checking the mouse over it gave.  A widget that does not check the
    /// mouse reports no click and no drag and is disabled; an active one holds
    /// `Active`; scroll wheel movement counts for enabled widgets that want it; and only a
    /// widget without an explicit position advances its parent's cursor.
    pub fn finish_plan(&self, mouse_clicked: bool, mouse_anim: AnimState) -> (p: FinishPlan)
        ensures
            self.active ==> p.anim_state == finished_base_state(*self, mouse_anim).added(
                AnimStateKey::Active,
            ),
            !self.active ==> p.anim_state == finished_base_state(*self, mouse_anim),
            p.clicked == (self.enabled && self.wants_mouse && mouse_clicked),
            p.takes_drag == (self.enabled && self.wants_mouse),
            p.takes_wheel == (self.enabled && self.wants_scroll),
            p.advances_parent_cursor == !self.manual_pos,
    {
        let checks = self.checks_mouse();
        FinishPlan {
            anim_state: self.finished_anim_state(mouse_anim),
            clicked: checks && mouse_clicked,
            takes_drag: checks,
            takes_wheel: self.enabled && self.wants_scroll,
            advances_parent_cursor: !self.manual_pos,
        }
    }
}

/// Where the specified position of a new widget is measured from, before the
/// parent's scroll is added to it.
#[derive(Clone, Copy, Debug)]
pub enum PosBase {
    /// The position the theme gives.
    Given(Point),
    /// The parent's layout cursor.
    Cursor,
    /// The origin of the parent's alignment point.
    Origin,
}

impl Widget {
    /// Where the specified position of a new widget of `theme` inside this widget
    /// is measured from: the theme's position when it gives one, else this
    /// widget's layout cursor when the new widget is aligned like its other
    /// children, else the origin.  The specified position is that base offset by
    /// this widget's scroll.
    pub fn raw_pos_base(&self, theme: &WidgetTheme) -> (b: PosBase)
        ensures
            match theme.pos {
                Some(p) => b == PosBase::Given(p),
                None => if created_align(self@, theme) == self@.child_align {
                    b == PosBase::Cursor
                } else {
                    b == PosBase::Origin
                },
            },
    {
        match theme.pos {
            Some(p) => PosBase::Given(p),
            None => {
                let align = match theme.align {
                    Some(a) => a,
                    None => self.child_align,
                };
                if align == self.child_align {
                    PosBase::Cursor
                } else {
                    PosBase::Origin
                }
            },
        }
    }
}

/// The alignment a widget of `theme` gets inside `parent`: the theme's, else the
/// parent's alignment for children.
pub open spec fn created_align(parent: WidgetView, theme: &WidgetTheme) -> Align {
    or_else(theme.align, parent.child_align)
}

impl Widget {
    /// Creates the widget `id` from `theme` inside `parent`.  Settings the theme
    /// leaves open take their defaults; the widget inherits its parent's clip, and
    /// is visible, unscrolled and in the normal state.  Its alignment is the
    /// theme's, else the parent's alignment for children; its position counts as
    /// given explicitly when the theme gives one or the alignment differs from the
    /// parent's.  `raw_pos` is the specified position (the theme's, else the
    /// parent's layout cursor when aligned like its other children, else the
    /// origin, offset by the parent's scroll), and `size` and `pos` are the size
    /// and position laid out from it.
    pub fn create(
        parent: &Widget,
        theme: &WidgetTheme,
        id: String,
        raw_pos: Point,
        size: Point,
        pos: Point,
    ) -> (r: (WidgetData, Widget))
        ensures
            r.0.manual_pos == (theme.pos is Some || created_align(parent@, theme)
                != parent@.child_align),
            r.0.wants_mouse == or_else(theme.wants_mouse, false),
            r.0.wants_scroll == or_else(theme.wants_scroll, false),
            r.0.raw_size == or_else(theme.size, Point::zero()),
            r.0.raw_pos == raw_pos,
            r.0.width_from == or_else(theme.width_from, WidthRelative::Normal),
            r.0.height_from == or_else(theme.height_from, HeightRelative::Normal),
            r.0.align == created_align(parent@, theme),
            r.0.enabled,
            !r.0.active,
            r.0.recalc_pos_size,
            !r.0.next_render_group,
            r.1@ == (WidgetView {
                id: id@,
                rend_group: RendGroup { index: 0 },
                scroll: Point::zero(),
                cursor: Point::zero(),
                theme_id: theme.full_id@,
                child_align: or_else(theme.child_align, Align::TopLeft),
                layout: or_else(theme.layout, Layout::Horizontal),
                layout_spacing: or_else(theme.layout_spacing, Point::zero()),
                clip: parent@.clip,
                text: opt_str_view(theme.text),
                text_color: or_else(theme.text_color, Color::white()),
                text_align: or_else(theme.text_align, Align::TopLeft),
                font: theme.font,
                background: theme.background,
                foreground: theme.foreground,
                pos,
                size,
                border: or_else(theme.border, Border::zero()),
                anim_state: AnimState::normal_spec(),
                visible: true,
            }),
    {
        let align = match theme.align {
            Some(a) => a,
            None => parent.child_align,
        };
        let manual_pos = theme.pos.is_some() || align != parent.child_align;
        let data = WidgetData {
            manual_pos,
            wants_mouse: match theme.wants_mouse {
                Some(w) => w,
                None => false,
            },
            wants_scroll: match theme.wants_scroll {
                Some(w) => w,
                None => false,
            },
            raw_size: match theme.size {
                Some(v) => v,
                None => Point::default(),
            },
            raw_pos,
            width_from: match theme.width_from {
                Some(v) => v,
                None => WidthRelative::default(),
            },
            height_from: match theme.height_from {
                Some(v) => v,
                None => HeightRelative::default(),
            },
            align,
            enabled: true,
            active: false,
            recalc_pos_size: true,
            next_render_group: false,
        };
        let widget = Widget {
            layout: match theme.layout {
                Some(v) => v,
                None => Layout::default(),
            },
            layout_spacing: match theme.layout_spacing {
                Some(v) => v,
                None => Point::default(),
            },
            child_align: match theme.child_align {
                Some(v) => v,
                None => Align::default(),
            },
            theme_id: theme.full_id.clone(),
            text: match &theme.text {
                Some(t) => Some(t.clone()),
                None => None,
            },
            text_color: match theme.text_color {
                Some(v) => v,
                None => Color::default(),
            },
            text_align: match theme.text_align {
                Some(v) => v,
                None => Align::default(),
            },
            font: theme.font,
            background: theme.background,
            foreground: theme.foreground,
            pos,
            scroll: Point::default(),
            cursor: Point::default(),
            border: match theme.border {
                Some(v) => v,
                None => Border::default(),
            },
            size,
            id,
            rend_group: RendGroup::default(),
            anim_state: AnimState::normal(),
            visible: true,
            clip: parent.clip,
        };
        (data, widget)
    }
}

/// The ID of a widget of theme ID `theme_id` inside the widget `parent_id`: the
/// theme ID under the root, else the parent's ID, a slash and the theme ID.
pub open spec fn child_id_spec(parent_id: Seq<char>, theme_id: Seq<char>) -> Seq<char> {
    if parent_id.len() == 0 {
        theme_id
    } else {
        parent_id + "/"@ + theme_id
    }
}

/// The ID of a widget of theme ID `theme_id` inside the widget `parent_id`.
pub fn child_id(parent_id: &str, theme_id: &str) -> (r: String)
    ensures
        r@ == child_id_spec(parent_id@, theme_id@),
{
    if parent_id.is_empty() {
        theme_id.to_owned()
    } else {
        let mut id = parent_id.to_owned();
        id.append("/");
        id.append(theme_id);
        proof {
            reveal_strlit("/");
        }
        id
    }
}

/// Configures a widget, following a builder pattern, before it is added to the
/// frame's widget tree under the widget at index `parent`.
pub struct WidgetBuilder {
    pub parent: usize,
    pub widget: Widget,
    pub data: WidgetData,
}

impl WidgetBuilder {
    /// A builder for `widget`, placed as `data` says, under the widget at `parent`.
    pub fn new(parent: usize, data: WidgetData, widget: Widget) -> (b: WidgetBuilder)
        ensures
            b.parent == parent,
            b.data == data,
            b.widget@ == widget@,
    {
        WidgetBuilder { parent, widget, data }
    }

    /// Gives the widget an untouched persistent state in `context`, open or closed
    /// as given, unless it already has one.
    pub fn initially_open(self, context: &mut ContextInternal, open: bool) -> (b: WidgetBuilder)
        requires
            old(context).wf(),
        ensures
            final(context).wf(),
            b.parent == self.parent,
            b.data == self.data,
            b.widget@ == self.widget@,
            final(context)@ == state_initialized(old(context)@, self.widget@.id, open),
    {
        let id = self.widget.id.clone();
        context.init_state(id, open);
        self
    }

    /// Lays the children of the widget out horizontally.
    pub fn layout_horizontal(self) -> (b: WidgetBuilder)
        ensures
            b.parent == self.parent,
            b.data == self.data,
            b.widget@ == (WidgetView { layout: Layout::Horizontal, ..self.widget@ }),
    {
        self.layout(Layout::Horizontal)
    }

    /// Lays the children of the widget out vertically.
    pub fn layout_vertical(self) -> (b: WidgetBuilder)
        ensures
            b.parent == self.parent,
            b.data == self.data,
            b.widget@ == (WidgetView { layout: Layout::Vertical, ..self.widget@ }),
    {
        self.layout(Layout::Vertical)
    }

    /// Starts finishing the widget with its persistent `state` and the state's
    /// text override `text`, and says whether the widget is shown.  An invisible
    /// widget is not shown and takes nothing over.  Otherwise it takes the stored
    /// scroll and text, and is shown exactly when its state is open; a closed
    /// widget becomes invisible.  Nothing else (children, input) happens for a
    /// widget that is not shown.
    pub fn begin_finish(&mut self, state: PersistentStateData, text: Option<String>) -> (shown:
        bool)
        ensures
            final(self).parent == old(self).parent,
            final(self).data == old(self).data,
            !old(self).widget@.visible ==> !shown && final(self).widget@ == old(self).widget@,
            old(self).widget@.visible ==> shown == state.is_open && final(self).widget@ == (
            WidgetView {
                scroll: state.scroll,
                text: if text is Some {
                    opt_str_view(text)
                } else {
                    old(self).widget@.text
                },
                visible: state.is_open,
                ..old(self).widget@
            }),
    {
        if !self.widget.visible {
            return false;
        }
        if let Some(t) = text {
            self.widget.text = Some(t);
        }
        self.widget.scroll = state.scroll;
        if !state.is_open {
            self.widget.visible = false;
            return false;
        }
        true
    }

    /// Ends finishing the widget according to `plan`: the widget takes the plan's
    /// animation state, and the state reported for this frame is that of a drawn
    /// widget with the plan's animation state and click, which moved by `moved`.
    pub fn finish_state(&mut self, plan: &FinishPlan, moved: Point) -> (s: WidgetState)
        ensures
            final(self).parent == old(self).parent,
            final(self).data == old(self).data,
            final(self).widget@ == (WidgetView { anim_state: plan.anim_state, ..old(self).widget@ }),
            s.visible,
            s.pressed == plan.anim_state.has(AnimStateKey::Pressed),
            s.hovered == (plan.anim_state.has(AnimStateKey::Pressed) || plan.anim_state.has(
                AnimStateKey::Hover,
            )),
            s.clicked == plan.clicked,
            s.moved == moved,
    {
        self.widget.anim_state = plan.anim_state;
        WidgetState::new(plan.anim_state, plan.clicked, moved)
    }

    /// The text and font for laying out the widget's text; `None` when the widget
    /// has no text or no font, in which case no text is laid out.
    pub fn text_and_font(&self) -> (r: Option<(&str, FontSummary)>)
        ensures
            r is Some <==> (self.widget@.text is Some && self.widget@.font is Some),
            match r {
                Some((text, font)) => text@ == self.widget@.text->0 && font
                    == self.widget@.font->0,
                None => true,
            },
    {
        let text = match &self.widget.text {
            None => return None,
            Some(text) => text,
        };
        let font = match self.widget.font {
            None => return None,
            Some(def) => def,
        };
        Some((text.as_str(), font))
    }

    /// Takes over the persistent state's text override, if there is one.
    pub fn apply_state_text(&mut self, text: Option<String>)
        ensures
            final(self).parent == old(self).parent,
            final(self).data == old(self).data,
            final(self).widget@ == (WidgetView {
                text: if text is Some {
                    opt_str_view(text)
                } else {
                    old(self).widget@.text
                },
                ..old(self).widget@
            }),
    {
        if let Some(t) = text {
            self.widget.text = Some(t);
        }
    }

    /// Makes the widget and its children a new render group, which decides draw
    /// order and input routing where widgets overlap.
    pub fn new_render_group(self) -> (b: WidgetBuilder)
        ensures
            b.parent == self.parent,
            b.widget@ == self.widget@,
            b.data == (WidgetData { next_render_group: true, ..self.data }),
    {
        let mut this = self;
        this.data.next_render_group = true;
        this
    }

    /// Sets whether the widget interacts with the mouse.
    pub fn wants_mouse(self, wants_mouse: bool) -> (b: WidgetBuilder)
        ensures
            b.parent == self.parent,
            b.widget@ == self.widget@,
            b.data == (WidgetData { wants_mouse, ..self.data }),
    {
        let mut this = self;
        this.data.wants_mouse = wants_mouse;
        this
    }

    /// Sets whether the widget receives scroll wheel movement.
    pub fn wants_scroll(self, wants_scroll: bool) -> (b: WidgetBuilder)
        ensures
            b.parent == self.parent,
            b.widget@ == self.widget@,
            b.data == (WidgetData { wants_scroll, ..self.data }),
    {
        let mut this = self;
        this.data.wants_scroll = wants_scroll;
        this
    }

    /// Sets the widget's ID, which ties it to its persistent state.
    pub fn id(self, id: String) -> (b: WidgetBuilder)
        ensures
            b.parent == self.parent,
            b.widget@ == (WidgetView { id: id@, ..self.widget@ }),
            b.data == (WidgetData { recalc_pos_size: true, ..self.data }),
    {
        let mut this = self;
        this.widget.id = id;
        this.data.recalc_pos_size = true;
        this
    }

    /// Sets the color of the widget's text.
    pub fn text_color(self, color: Color) -> (b: WidgetBuilder)
        ensures
            b.parent == self.parent,
            b.widget@ == (WidgetView { text_color: color, ..self.widget@ }),
            b.data == self.data,
    {
        let mut this = self;
        this.widget.text_color = color;
        this
    }

    /// Sets the alignment of the widget's text within its inner area.
    pub fn text_align(self, align: Align) -> (b: WidgetBuilder)
        ensures
            b.parent == self.parent,
            b.widget@ == (WidgetView { text_align: align, ..self.widget@ }),
            b.data == self.data,
    {
        let mut this = self;
        this.widget.text_align = align;
        this
    }

    /// Sets the text the widget displays.
    pub fn text(self, text: String) -> (b: WidgetBuilder)
        ensures
            b.parent == self.parent,
            b.widget@ == (WidgetView { text: Some(text@), ..self.widget@ }),
            b.data == self.data,
    {
        let mut this = self;
        this.widget.text = Some(text);
        this
    }

    /// Sets the font of the widget's text: the theme's font of the requested name,
    /// or none when the theme has no such font.
    pub fn font(self, font: Option<FontSummary>) -> (b: WidgetBuilder)
        ensures
            b.parent == self.parent,
            b.widget@ == (WidgetView { font, ..self.widget@ }),
            b.data == (WidgetData { recalc_pos_size: true, ..self.data }),
    {
        let mut this = self;
        this.widget.font = font;
        this.data.recalc_pos_size = true;
        this
    }

    /// Sets the foreground image, drawn below the text and above the background:
    /// the theme's image of the requested ID, or none when there is no such image.
    pub fn foreground(self, fg: Option<ImageHandle>) -> (b: WidgetBuilder)
        ensures
            b.parent == self.parent,
            b.widget@ == (WidgetView { foreground: fg, ..self.widget@ }),
            b.data == self.data,
    {
        let mut this = self;
        this.widget.foreground = fg;
        this
    }

    /// Sets the background image, drawn below the text and any children: the
    /// theme's image of the requested ID, or none when there is no such image.
    pub fn background(self, bg: Option<ImageHandle>) -> (b: WidgetBuilder)
        ensures
            b.parent == self.parent,
            b.widget@ == (WidgetView { background: bg, ..self.widget@ }),
            b.data == self.data,
    {
        let mut this = self;
        this.widget.background = bg;
        this
    }

    /// Sets the default alignment of the widget's children.
    pub fn child_align(self, align: Align) -> (b: WidgetBuilder)
        ensures
            b.parent == self.parent,
            b.widget@ == (WidgetView { child_align: align, ..self.widget@ }),
            b.data == self.data,
    {
        let mut this = self;
        this.widget.child_align = align;
        this
    }

    /// Sets the spacing between the children that the widget lays out.
    pub fn layout_spacing(self, spacing: Point) -> (b: WidgetBuilder)
        ensures
            b.parent == self.parent,
            b.widget@ == (WidgetView { layout_spacing: spacing, ..self.widget@ }),
            b.data == self.data,
    {
        let mut this = self;
        this.widget.layout_spacing = spacing;
        this
    }

    /// Sets how the widget lays out its children.
    pub fn layout(self, layout: Layout) -> (b: WidgetBuilder)
        ensures
            b.parent == self.parent,
            b.widget@ == (WidgetView { layout, ..self.widget@ }),
            b.data == self.data,
    {
        let mut this = self;
        this.widget.layout = layout;
        this
    }

    /// Places the widget at `(x, y)` on the screen, regardless of alignment; the
    /// position needs no further computation.
    pub fn screen_pos(self, x: u32, y: u32) -> (b: WidgetBuilder)
        ensures
            b.parent == self.parent,
            b.widget@ == (WidgetView { pos: Point { x, y }, ..self.widget@ }),
            b.data == (WidgetData { raw_pos: Point { x, y }, align: Align::TopLeft, manual_pos: true, recalc_pos_size: false, ..self.data }),
    {
        let mut this = self;
        this.data.raw_pos = Point { x, y };
        this.widget.pos = Point { x, y };
        this.data.align = Align::TopLeft;
        this.data.manual_pos = true;
        this.data.recalc_pos_size = false;
        this
    }

    /// Places the widget at `raw_pos` relative to its alignment point in the parent;
    /// `raw_pos` is the requested position offset by the parent's scroll.
    pub fn pos(self, raw_pos: Point) -> (b: WidgetBuilder)
        ensures
            b.parent == self.parent,
            b.widget@ == self.widget@,
            b.data == (WidgetData { raw_pos, manual_pos: true, recalc_pos_size: true, ..self.data }),
    {
        let mut this = self;
        this.data.raw_pos = raw_pos;
        this.data.manual_pos = true;
        this.data.recalc_pos_size = true;
        this
    }

    /// Sets the alignment of the widget within its parent; the position then counts
    /// as given explicitly.
    pub fn align(self, align: Align) -> (b: WidgetBuilder)
        ensures
            b.parent == self.parent,
            b.widget@ == self.widget@,
            b.data == (WidgetData { align, manual_pos: true, recalc_pos_size: true, ..self.data }),
    {
        let mut this = self;
        this.data.align = align;
        this.data.manual_pos = true;
        this.data.recalc_pos_size = true;
        this
    }

    /// Sets the widget's border, which sets its inner size within its size.
    pub fn border(self, border: Border) -> (b: WidgetBuilder)
        ensures
            b.parent == self.parent,
            b.widget@ == (WidgetView { border, ..self.widget@ }),
            b.data == (WidgetData { recalc_pos_size: true, ..self.data }),
    {
        let mut this = self;
        this.widget.border = border;
        this.data.recalc_pos_size = true;
        this
    }

    /// Sets the widget's specified size.
    pub fn size(self, x: u32, y: u32) -> (b: WidgetBuilder)
        ensures
            b.parent == self.parent,
            b.widget@ == self.widget@,
            b.data == (WidgetData { raw_size: Point { x, y }, recalc_pos_size: true, ..self.data }),
    {
        let mut this = self;
        this.data.raw_size = Point { x, y };
        this.data.recalc_pos_size = true;
        this
    }

    /// Sets how the width is computed from the specified size.
    pub fn width_from(self, from: WidthRelative) -> (b: WidgetBuilder)
        ensures
            b.parent == self.parent,
            b.widget@ == self.widget@,
            b.data == (WidgetData { width_from: from, recalc_pos_size: true, ..self.data }),
    {
        let mut this = self;
        this.data.width_from = from;
        this.data.recalc_pos_size = true;
        this
    }

    /// Sets how the height is computed from the specified size.
    pub fn height_from(self, from: HeightRelative) -> (b: WidgetBuilder)
        ensures
            b.parent == self.parent,
            b.widget@ == self.widget@,
            b.data == (WidgetData { height_from: from, recalc_pos_size: true, ..self.data }),
    {
        let mut this = self;
        this.data.height_from = from;
        this.data.recalc_pos_size = true;
        this
    }

    /// Replaces the widget's clip rectangle with `clip`.  Clipping a widget to a
    /// requested rectangle keeps the common extent of its current clip and the
    /// request; the caller computes that extent (in `f32`) and passes it here.
    pub fn set_clip(self, clip: Rect) -> (b: WidgetBuilder)
        ensures
            b.parent == self.parent,
            b.widget@ == (WidgetView { clip, ..self.widget@ }),
            b.data == self.data,
    {
        let mut this = self;
        this.widget.clip = clip;
        this
    }

    /// Sets whether the widget's animation state holds `Active`.
    pub fn active(self, active: bool) -> (b: WidgetBuilder)
        ensures
            b.parent == self.parent,
            b.widget@ == self.widget@,
            b.data == (WidgetData { active, ..self.data }),
    {
        let mut this = self;
        this.data.active = active;
        this
    }

    /// Sets whether the widget is shown; an invisible widget creates no children.
    pub fn visible(self, visible: bool) -> (b: WidgetBuilder)
        ensures
            b.parent == self.parent,
            b.widget@ == (WidgetView { visible, ..self.widget@ }),
            b.data == self.data,
    {
        let mut this = self;
        this.widget.visible = visible;
        this
    }

    /// Sets whether the widget takes user input.
    pub fn enabled(self, enabled: bool) -> (b: WidgetBuilder)
        ensures
            b.parent == self.parent,
            b.widget@ == self.widget@,
            b.data == (WidgetData { enabled, ..self.data }),
    {
        let mut this = self;
        this.data.enabled = enabled;
        this
    }
}

} // verus!
