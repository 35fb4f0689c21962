//! The state that the context keeps for each widget between frames, and the modal
//! popup bookkeeping.
use vstd::prelude::*;

use crate::geom::{Point, Rect};

verus! {

/// The abstract value of a [`PersistentState`].
pub struct PersistentStateView {
    pub is_open: bool,
    pub resize: Point,
    pub moved: Point,
    pub scroll: Point,
    pub base_time_millis: u32,
    pub characters: Seq<char>,
    pub text: Option<Seq<char>>,
}

impl PersistentStateView {
    /// The state of a widget that nothing has touched yet, open or closed as given:
    /// no resize, no movement, no scroll, zero base time, no pending characters and
    /// no text override.
    pub open spec fn fresh(open: bool) -> PersistentStateView {
        PersistentStateView {
            is_open: open,
            resize: Point::zero(),
            moved: Point::zero(),
            scroll: Point::zero(),
            base_time_millis: 0,
            characters: Seq::empty(),
            text: None,
        }
    }
}

/// The internal state kept for a widget that persists between frames.
///
/// Widgets with automatically generated IDs get one as well; to reach the state of
/// a particular widget, give that widget a known ID.
#[derive(Debug)]
pub struct PersistentState {
    /// Whether the widget is shown.  Defaults to true.
    pub is_open: bool,
    /// The amount, in logical pixels, by which the widget has been resized.  Defaults to zero.
    pub resize: Point,
    /// The amount, in logical pixels, by which the widget has been moved.  Defaults to zero.
    pub moved: Point,
    /// The amount, in logical pixels, by which the content has been scrolled.  Defaults to zero.
    pub scroll: Point,
    /// The "zero" time for timed images of this widget.  Defaults to zero, the
    /// context's start time.
    pub base_time_millis: u32,
    /// Characters sent to this widget from the keyboard and not yet consumed.
    /// Defaults to empty.
    pub characters: Vec<char>,
    /// Text that overrides the widget's default text.  Defaults to `None`.
    pub text: Option<String>,
}

/// The part of a [`PersistentState`] that can be copied freely.
#[derive(Clone, Copy, Debug)]
pub struct PersistentStateData {
    pub is_open: bool,
    pub resize: Point,
    pub moved: Point,
    pub scroll: Point,
}

/// The view of an optional string.
pub open spec fn opt_str_view(s: Option<String>) -> Option<Seq<char>> {
    match s {
        Some(t) => Some(t@),
        None => None,
    }
}

impl View for PersistentState {
    type V = PersistentStateView;

    open spec fn view(&self) -> PersistentStateView {
        PersistentStateView {
            is_open: self.is_open,
            resize: self.resize,
            moved: self.moved,
            scroll: self.scroll,
            base_time_millis: self.base_time_millis,
            characters: self.characters@,
            text: opt_str_view(self.text),
        }
    }
}

impl PersistentState {
    /// The copyable part of the state: whether it is open, and how it was resized,
    /// moved and scrolled.
    pub fn copy_data(&self) -> (d: PersistentStateData)
        ensures
            d.is_open == self.is_open,
            d.resize == self.resize,
            d.moved == self.moved,
            d.scroll == self.scroll,
    {
        PersistentStateData {
            is_open: self.is_open,
            resize: self.resize,
            moved: self.moved,
            scroll: self.scroll,
        }
    }

    /// The untouched state, open or closed as given.
    pub fn fresh(open: bool) -> (s: PersistentState)
        ensures
            s@ == PersistentStateView::fresh(open),
    {
        let s = PersistentState {
            is_open: open,
            resize: Point::default(),
            moved: Point::default(),
            scroll: Point::default(),
            base_time_millis: 0,
            characters: Vec::new(),
            text: None,
        };
        assert(s@.characters =~= Seq::<char>::empty());
        s
    }

    /// A separate copy of this state.
    pub(crate) fn duplicate(&self) -> (c: PersistentState)
        ensures
            c@ == self@,
    {
        let mut characters: Vec<char> = Vec::new();
        let n = self.characters.len();
        let mut i: usize = 0;
        while i < n
            invariant
                n == self.characters@.len(),
                i <= n,
                characters@ =~= self.characters@.take(i as int),
            decreases n - i,
        {
            characters.push(self.characters[i]);
            i = i + 1;
            assert(characters@ =~= self.characters@.take(i as int));
        }
        assert(self.characters@.take(n as int) =~= self.characters@);
        let text = match &self.text {
            Some(t) => Some(t.clone()),
            None => None,
        };
        PersistentState {
            is_open: self.is_open,
            resize: self.resize,
            moved: self.moved,
            scroll: self.scroll,
            base_time_millis: self.base_time_millis,
            characters,
            text,
        }
    }
}

impl Default for PersistentState {
    fn default() -> (s: PersistentState)
        ensures
            s@ == PersistentStateView::fresh(true),
    {
        PersistentState::fresh(true)
    }
}

/// The abstract value of a [`Modal`].
pub struct ModalView {
    pub id: Seq<char>,
    pub close_on_click_outside: bool,
    pub bounds: Rect,
    pub prevent_close: bool,
}

/// The widget currently shown as a modal popup.
pub struct Modal {
    /// The ID of the modal widget.
    pub id: String,
    /// Whether a click outside `bounds` closes the modal.
    pub close_on_click_outside: bool,
    /// The area covered by the modal widget on the last frame it was drawn.
    pub bounds: Rect,
    /// Whether closing is held off for the coming frame transition.
    pub prevent_close: bool,
}

impl View for Modal {
    type V = ModalView;

    open spec fn view(&self) -> ModalView {
        ModalView {
            id: self.id@,
            close_on_click_outside: self.close_on_click_outside,
            bounds: self.bounds,
            prevent_close: self.prevent_close,
        }
    }
}

impl Modal {
    /// A new modal for the widget `id`: it does not close on outside clicks, has
    /// no bounds yet, and is protected from closing on the frame it opens.
    pub fn new(id: String) -> (m: Modal)
        ensures
            m@ == (ModalView {
                id: id@,
                close_on_click_outside: false,
                bounds: Rect::zero(),
                prevent_close: true,
            }),
    {
        Modal { id, close_on_click_outside: false, bounds: Rect::default(), prevent_close: true }
    }
}

} // verus!
