//! The context: input state, keyboard focus, modal popups, render group ordering
//! and the persistent state of every widget, with the transitions that the
//! application's input and each new frame cause.
use vstd::prelude::*;

use crate::anim::{AnimState, AnimStateKey};
use crate::geom::{Point, Rect};
use crate::state::{opt_str_view, Modal, ModalView, PersistentState, PersistentStateView};
use vstd::hash_map::StringHashMap;

verus! {

/// The number of mouse buttons the context tracks.
pub const MOUSE_BUTTONS: usize = 3;

/// A render group: widgets that are drawn, and receive input, together.
#[derive(Clone, Copy, Debug, PartialEq, Eq, Structural)]
pub struct RendGroup {
    pub index: usize,
}

impl Default for RendGroup {
    fn default() -> (g: RendGroup)
        ensures
            g.index == 0,
    {
        RendGroup { index: 0 }
    }
}

/// A render group together with the ID of the widget that started it.
pub struct RendGroupDef {
    id: String,
    group: RendGroup,
}

impl RendGroupDef {
    pub fn new(id: String, group: RendGroup) -> (d: RendGroupDef)
        ensures
            d.spec_id() == id@,
            d.spec_group() == group,
    {
        RendGroupDef { id, group }
    }

    pub closed spec fn spec_id(&self) -> Seq<char> {
        self.id@
    }

    pub closed spec fn spec_group(&self) -> RendGroup {
        self.group
    }

    /// The ID of the widget that started the group.
    pub fn id(&self) -> (r: &str)
        ensures
            r@ == self.spec_id(),
    {
        self.id.as_str()
    }

    /// The group.
    pub fn group(&self) -> (r: RendGroup)
        ensures
            r == self.spec_group(),
    {
        self.group
    }
}

/// Whether two strings hold the same characters.
pub fn str_eq(a: &str, b: &str) -> (r: bool)
    ensures
        r == (a@ == b@),
{
    let a = a.to_owned();
    let b = b.to_owned();
    a == b
}

/// The view of an optional modal.
pub open spec fn opt_modal_view(m: Option<Modal>) -> Option<ModalView> {
    match m {
        Some(x) => Some(x@),
        None => None,
    }
}

/// The view of the widget that took the mouse: its ID and its render group.
pub open spec fn taken_view(t: Option<(String, RendGroup)>) -> Option<(Seq<char>, RendGroup)> {
    match t {
        Some(p) => Some((p.0@, p.1)),
        None => None,
    }
}

/// The abstract value of a [`ContextInternal`].
pub struct ContextView {
    /// The widget that took the mouse on the last frame, with its render group.
    pub mouse_taken_last_frame: Option<(Seq<char>, RendGroup)>,
    /// The render group the mouse was in on the last frame.
    pub mouse_in_rend_group_last_frame: Option<RendGroup>,
    /// The render group drawn on top of all others.
    pub top_rend_group: RendGroup,
    /// The ID of a widget whose render group is to be brought to the top.
    pub pending_top_rend_group: Option<Seq<char>>,
    /// The modal popup, if one is open.
    pub modal: Option<ModalView>,
    /// For each button, whether its current press started outside every widget.
    pub mouse_pressed_outside: Seq<bool>,
    /// The widget that receives keyboard characters.
    pub keyboard_focus: Option<Seq<char>>,
    /// The persistent state of each widget that has one, by widget ID.
    pub states: Map<Seq<char>, PersistentStateView>,
    pub last_mouse_pos: Point,
    pub mouse_pos: Point,
    pub mouse_pressed: Seq<bool>,
    pub mouse_clicked: Seq<bool>,
    pub mouse_wheel: Point,
    pub display_size: Point,
    /// The bit pattern of the `f32` scale factor.
    pub scale_factor: u32,
    pub time_millis: u32,
}

impl ContextView {
    /// The state that a lookup of `id` gives: the stored one, or the untouched open state.
    pub open spec fn state_of(self, id: Seq<char>) -> PersistentStateView {
        if self.states.contains_key(id) {
            self.states[id]
        } else {
            PersistentStateView::fresh(true)
        }
    }

    /// The states after the widget `id` has been closed: its stored state, or the
    /// untouched one, with `is_open` false.
    pub open spec fn states_closing(self, id: Seq<char>) -> Map<Seq<char>, PersistentStateView> {
        self.states.insert(id, PersistentStateView { is_open: false, ..self.state_of(id) })
    }
}

/// A context with the given display size and scale factor, no input, no modal,
/// no focus and no widget state, at time zero.
pub open spec fn initial_view(display_size: Point, scale_factor: u32) -> ContextView {
    ContextView {
        mouse_taken_last_frame: None,
        mouse_in_rend_group_last_frame: None,
        top_rend_group: RendGroup { index: 0 },
        pending_top_rend_group: None,
        modal: None,
        mouse_pressed_outside: seq![false, false, false],
        keyboard_focus: None,
        states: Map::empty(),
        last_mouse_pos: Point::zero(),
        mouse_pos: Point::zero(),
        mouse_pressed: seq![false, false, false],
        mouse_clicked: seq![false, false, false],
        mouse_wheel: Point::zero(),
        display_size,
        scale_factor,
        time_millis: 0,
    }
}

/// The context after the widget `id` is opened as the modal popup.
pub open spec fn modal_opened(c: ContextView, id: Seq<char>) -> ContextView {
    ContextView {
        modal: Some(
            ModalView {
                id,
                close_on_click_outside: false,
                bounds: Rect::zero(),
                prevent_close: true,
            },
        ),
        ..c
    }
}

/// The context after the modal popup is closed if it is the widget `id`.
pub open spec fn modal_cleared(c: ContextView, id: Seq<char>) -> ContextView {
    if c.modal is Some && c.modal->0.id == id {
        ContextView { modal: None, ..c }
    } else {
        c
    }
}

/// The context after the widget `id` is given an untouched state, open or closed
/// as given, unless it has one.
pub open spec fn state_initialized(c: ContextView, id: Seq<char>, open: bool) -> ContextView {
    if c.states.contains_key(id) {
        c
    } else {
        ContextView { states: c.states.insert(id, PersistentStateView::fresh(open)), ..c }
    }
}

/// The context after the persistent state of the widget `id` is forgotten.
pub open spec fn state_cleared(c: ContextView, id: Seq<char>) -> ContextView {
    ContextView { states: c.states.remove(id), ..c }
}

/// Whether moving to the next frame closes the modal popup of `c`.
pub open spec fn modal_closes(c: ContextView, mouse_inside_modal: bool) -> bool {
    match c.modal {
        Some(m) => !m.prevent_close && m.close_on_click_outside && c.mouse_clicked[0]
            && !mouse_inside_modal,
        None => false,
    }
}

/// The context after moving on from the frame `c` to the next one.
pub open spec fn next_frame_view(
    c: ContextView,
    mouse_taken: Option<(Seq<char>, RendGroup)>,
    mouse_in_rend_group: Option<RendGroup>,
    mouse_inside_modal: bool,
) -> ContextView {
    let closes = modal_closes(c, mouse_inside_modal);
    ContextView {
        modal: match c.modal {
            Some(m) => if m.prevent_close {
                Some(ModalView { prevent_close: false, ..m })
            } else if closes {
                None
            } else {
                Some(m)
            },
            None => None,
        },
        states: if closes {
            c.states_closing(c.modal->0.id)
        } else {
            c.states
        },
        mouse_wheel: Point::zero(),
        mouse_clicked: seq![false, false, false],
        mouse_taken_last_frame: mouse_taken,
        last_mouse_pos: c.mouse_pos,
        mouse_in_rend_group_last_frame: mouse_in_rend_group,
        ..c
    }
}

/// The mutable state behind a [`Context`].
pub struct ContextInternal {
    mouse_taken_last_frame: Option<(String, RendGroup)>,
    mouse_in_rend_group_last_frame: Option<RendGroup>,
    top_rend_group: RendGroup,
    check_set_top_rend_group: Option<String>,
    modal: Option<Modal>,
    mouse_pressed_outside: [bool; 3],
    keyboard_focus_widget: Option<String>,
    persistent_state: StringHashMap<PersistentState>,
    empty_persistent_state: PersistentState,
    last_mouse_pos: Point,
    mouse_pos: Point,
    mouse_pressed: [bool; 3],
    mouse_clicked: [bool; 3],
    mouse_wheel: Point,
    display_size: Point,
    scale_factor: u32,
    time_millis: u32,
}

impl View for ContextInternal {
    type V = ContextView;

    closed spec fn view(&self) -> ContextView {
        ContextView {
            mouse_taken_last_frame: taken_view(self.mouse_taken_last_frame),
            mouse_in_rend_group_last_frame: self.mouse_in_rend_group_last_frame,
            top_rend_group: self.top_rend_group,
            pending_top_rend_group: opt_str_view(self.check_set_top_rend_group),
            modal: opt_modal_view(self.modal),
            mouse_pressed_outside: self.mouse_pressed_outside@,
            keyboard_focus: opt_str_view(self.keyboard_focus_widget),
            states: self.persistent_state@.map_values(|s: PersistentState| s@),
            last_mouse_pos: self.last_mouse_pos,
            mouse_pos: self.mouse_pos,
            mouse_pressed: self.mouse_pressed@,
            mouse_clicked: self.mouse_clicked@,
            mouse_wheel: self.mouse_wheel,
            display_size: self.display_size,
            scale_factor: self.scale_factor,
            time_millis: self.time_millis,
        }
    }
}

impl ContextInternal {
    /// Well-formedness: the state handed out for a widget without stored state is
    /// the untouched open one.
    pub closed spec fn wf(&self) -> bool {
        self.empty_persistent_state@ == PersistentStateView::fresh(true)
    }

    /// The context tracks each mouse button: the pressed, clicked and
    /// pressed-outside sequences have one entry per button.
    pub proof fn lemma_button_lengths(&self)
        ensures
            self@.mouse_pressed.len() == MOUSE_BUTTONS,
            self@.mouse_clicked.len() == MOUSE_BUTTONS,
            self@.mouse_pressed_outside.len() == MOUSE_BUTTONS,
    {
    }

    /// A context with the given display size and scale factor, no input, no
    /// modal, no focus and no widget state, at time zero.
    pub fn new(display_size: Point, scale_factor: u32) -> (c: ContextInternal)
        ensures
            c.wf(),
            c@ == initial_view(display_size, scale_factor),
    {
        let c = ContextInternal {
            display_size,
            scale_factor,
            persistent_state: StringHashMap::new(),
            empty_persistent_state: PersistentState::default(),
            mouse_pos: Point::default(),
            last_mouse_pos: Point::default(),
            mouse_pressed: [false, false, false],
            mouse_clicked: [false, false, false],
            mouse_wheel: Point::default(),
            mouse_taken_last_frame: None,
            mouse_in_rend_group_last_frame: None,
            top_rend_group: RendGroup::default(),
            check_set_top_rend_group: None,
            mouse_pressed_outside: [false, false, false],
            modal: None,
            time_millis: 0,
            keyboard_focus_widget: None,
        };
        assert(c@.states =~= Map::empty());
        assert(c@.mouse_pressed =~= seq![false, false, false]);
        assert(c@.mouse_clicked =~= seq![false, false, false]);
        assert(c@.mouse_pressed_outside =~= seq![false, false, false]);
        c
    }

    /// The ID of the modal popup, if one is open.
    pub fn modal_id(&self) -> (r: Option<&str>)
        ensures
            match self@.modal {
                Some(m) => r is Some && r->0@ == m.id,
                None => r is None,
            },
    {
        match &self.modal {
            Some(m) => Some(m.id.as_str()),
            None => None,
        }
    }

    /// The area covered by the modal popup, if one is open, against which the
    /// mouse is tested when the next frame starts.
    pub fn modal_bounds(&self) -> (r: Option<Rect>)
        ensures
            match self@.modal {
                Some(m) => r == Some(m.bounds),
                None => r is None,
            },
    {
        match &self.modal {
            Some(m) => Some(m.bounds),
            None => None,
        }
    }

    /// Whether the widget `id` is the modal popup.
    pub fn is_modal(&self, id: &str) -> (r: bool)
        ensures
            r == (self@.modal is Some && self@.modal->0.id == id@),
    {
        match &self.modal {
            Some(m) => str_eq(m.id.as_str(), id),
            None => false,
        }
    }

    /// Whether a modal popup is open.
    pub fn has_modal(&self) -> (r: bool)
        ensures
            r == self@.modal is Some,
    {
        self.modal.is_some()
    }

    /// Closes the modal popup if it is the widget `id`; otherwise changes nothing.
    pub fn clear_modal_if_match(&mut self, id: &str)
        requires
            old(self).wf(),
        ensures
            final(self).wf(),
            final(self)@ == modal_cleared(old(self)@, id@),
    {
        let matches = match &self.modal {
            Some(m) => str_eq(m.id.as_str(), id),
            None => false,
        };
        if matches {
            self.modal = None;
        }
    }

    /// Opens the widget `id` as the modal popup, replacing any open one.
    pub fn set_modal(&mut self, id: String)
        requires
            old(self).wf(),
        ensures
            final(self).wf(),
            final(self)@ == modal_opened(old(self)@, id@),
    {
        self.modal = Some(Modal::new(id));
    }

    /// Records the area covered by the modal popup, if one is open.
    pub fn set_modal_bounds(&mut self, bounds: Rect)
        requires
            old(self).wf(),
        ensures
            final(self).wf(),
            final(self)@ == (match old(self)@.modal {
                Some(m) => ContextView { modal: Some(ModalView { bounds, ..m }), ..old(self)@ },
                None => old(self)@,
            }),
    {
        if let Some(modal) = &mut self.modal {
            modal.bounds = bounds;
        }
    }

    /// Records `bounds` as the area of the modal popup when the modal popup is the
    /// widget `id`; otherwise changes nothing.
    pub fn record_modal_bounds(&mut self, id: &str, bounds: Rect)
        requires
            old(self).wf(),
        ensures
            final(self).wf(),
            final(self)@ == (match old(self)@.modal {
                Some(m) => if m.id == id@ {
                    ContextView { modal: Some(ModalView { bounds, ..m }), ..old(self)@ }
                } else {
                    old(self)@
                },
                None => old(self)@,
            }),
    {
        if self.is_modal(id) {
            self.set_modal_bounds(bounds);
        }
    }

    /// Sets whether a click outside the open modal popup closes it.
    pub fn set_modal_close_on_click_outside(&mut self, close: bool)
        requires
            old(self).wf(),
        ensures
            final(self).wf(),
            final(self)@ == (match old(self)@.modal {
                Some(m) => ContextView {
                    modal: Some(ModalView { close_on_click_outside: close, ..m }),
                    ..old(self)@
                },
                None => old(self)@,
            }),
    {
        if let Some(modal) = &mut self.modal {
            modal.close_on_click_outside = close;
        }
    }

    /// The render group the mouse was in on the last frame.
    pub fn mouse_in_rend_group_last_frame(&self) -> (r: Option<RendGroup>)
        ensures
            r == self@.mouse_in_rend_group_last_frame,
    {
        self.mouse_in_rend_group_last_frame
    }

    /// Puts `group` on top of all others.
    pub fn set_top_rend_group(&mut self, group: RendGroup)
        requires
            old(self).wf(),
        ensures
            final(self).wf(),
            final(self)@ == (ContextView { top_rend_group: group, ..old(self)@ }),
    {
        self.top_rend_group = group;
    }

    /// The render group on top of all others.
    pub fn top_rend_group(&self) -> (r: RendGroup)
        ensures
            r == self@.top_rend_group,
    {
        self.top_rend_group
    }

    /// Asks that the render group started by the widget `id` be put on top when
    /// the groups of the frame are next checked.
    pub fn set_top_rend_group_id(&mut self, id: &str)
        requires
            old(self).wf(),
        ensures
            final(self).wf(),
            final(self)@ == (ContextView { pending_top_rend_group: Some(id@), ..old(self)@ }),
    {
        self.check_set_top_rend_group = Some(id.to_owned());
    }

    /// Carries out a pending request to put a render group on top: the first of
    /// `groups` started by the requested widget goes on top, if there is one.  The
    /// request is consumed either way; without one nothing changes.
    pub fn check_set_rend_group_top(&mut self, groups: &[RendGroupDef])
        requires
            old(self).wf(),
        ensures
            final(self).wf(),
            match old(self)@.pending_top_rend_group {
                None => final(self)@ == old(self)@,
                Some(id) => {
                    &&& (forall|i: int|
                        0 <= i < groups@.len() && #[trigger] groups@[i].spec_id() == id && (forall|
                            j: int,
                        |
                            0 <= j < i ==> #[trigger] groups@[j].spec_id() != id) ==> final(self)@
                            == (ContextView {
                            pending_top_rend_group: None,
                            top_rend_group: groups@[i].spec_group(),
                            ..old(self)@
                        }))
                    &&& (forall|i: int| 0 <= i < groups@.len() ==> #[trigger] groups@[i].spec_id() != id)
                        ==> final(self)@ == (ContextView {
                        pending_top_rend_group: None,
                        ..old(self)@
                    })
                },
            },
    {
        let id = match self.check_set_top_rend_group.take() {
            None => return ,
            Some(id) => id,
        };
        let ghost old_self = *old(self);
        let n = groups.len();
        let mut i: usize = 0;
        while i < n
            invariant
                n == groups@.len(),
                i <= n,
                self.wf(),
                self@ == (ContextView { pending_top_rend_group: None, ..old_self@ }),
                old_self@.pending_top_rend_group == Some(id@),
                old_self == *old(self),
                forall|j: int| 0 <= j < i ==> #[trigger] groups@[j].spec_id() != id@,
            decreases n - i,
        {
            if str_eq(groups[i].id(), id.as_str()) {
                self.top_rend_group = groups[i].group();
                assert forall|k: int|
                    0 <= k < groups@.len() && #[trigger] groups@[k].spec_id() == id@ && (forall|
                        j: int,
                    |
                        0 <= j < k ==> #[trigger] groups@[j].spec_id() != id@) implies k
                    == i by {
                    if k > i {
                        assert(groups@[i as int].spec_id() != id@);
                    }
                }
                assert(groups@[i as int].spec_id() == id@);
                return ;
            }
            i = i + 1;
        }
    }

    /// The time of the current frame, in milliseconds since the context started.
    pub fn time_millis(&self) -> (r: u32)
        ensures
            r == self@.time_millis,
    {
        self.time_millis
    }

    /// The mouse position.
    pub fn mouse_pos(&self) -> (r: Point)
        ensures
            r == self@.mouse_pos,
    {
        self.mouse_pos
    }

    /// The mouse position on the last frame.
    pub fn last_mouse_pos(&self) -> (r: Point)
        ensures
            r == self@.last_mouse_pos,
    {
        self.last_mouse_pos
    }

    /// Whether the mouse button `index` is held down.
    pub fn mouse_pressed(&self, index: usize) -> (r: bool)
        requires
            index < MOUSE_BUTTONS,
        ensures
            r == self@.mouse_pressed[index as int],
    {
        self.mouse_pressed[index]
    }

    /// Whether the mouse button `index` was released on this frame after a press.
    pub fn mouse_clicked(&self, index: usize) -> (r: bool)
        requires
            index < MOUSE_BUTTONS,
        ensures
            r == self@.mouse_clicked[index as int],
    {
        self.mouse_clicked[index]
    }

    /// Gives the keyboard focus to the widget `id`.
    pub fn set_focus_keyboard(&mut self, id: String)
        requires
            old(self).wf(),
        ensures
            final(self).wf(),
            final(self)@ == (ContextView { keyboard_focus: Some(id@), ..old(self)@ }),
    {
        self.keyboard_focus_widget = Some(id);
    }

    /// Whether the widget `id` has the keyboard focus.
    pub fn is_focus_keyboard(&self, id: &str) -> (r: bool)
        ensures
            r == (self@.keyboard_focus == Some(id@)),
    {
        match &self.keyboard_focus_widget {
            Some(f) => str_eq(f.as_str(), id),
            None => false,
        }
    }

    /// Takes the scroll wheel movement gathered so far, leaving none.
    pub fn take_mouse_wheel(&mut self) -> (r: Point)
        requires
            old(self).wf(),
        ensures
            final(self).wf(),
            r == old(self)@.mouse_wheel,
            final(self)@ == (ContextView { mouse_wheel: Point::zero(), ..old(self)@ }),
    {
        let result = self.mouse_wheel;
        self.mouse_wheel = Point::default();
        result
    }

    /// The scroll wheel movement gathered since the last frame.
    pub fn mouse_wheel(&self) -> (r: Point)
        ensures
            r == self@.mouse_wheel,
    {
        self.mouse_wheel
    }

    /// The ID of the widget that took the mouse on the last frame.
    pub fn mouse_taken_last_frame_id(&self) -> (r: Option<&str>)
        ensures
            match self@.mouse_taken_last_frame {
                Some(t) => r is Some && r->0@ == t.0,
                None => r is None,
            },
    {
        match &self.mouse_taken_last_frame {
            Some(t) => Some(t.0.as_str()),
            None => None,
        }
    }

    /// The bit pattern of the scale factor.
    pub fn scale_factor(&self) -> (r: u32)
        ensures
            r == self@.scale_factor,
    {
        self.scale_factor
    }

    /// The display size in physical pixels.
    pub fn display_size(&self) -> (r: Point)
        ensures
            r == self@.display_size,
    {
        self.display_size
    }

    /// The time from which the timed images of the widget `id` count: zero unless
    /// its persistent state says otherwise.
    pub fn base_time_millis_for(&self, id: &str) -> (r: u32)
        ensures
            r == self@.state_of(id@).base_time_millis,
    {
        match self.persistent_state.get(id) {
            Some(state) => state.base_time_millis,
            None => 0,
        }
    }

    /// Gives the widget `id` an untouched persistent state, open or closed as
    /// given, unless it already has one, which is then left as it is.
    pub fn init_state(&mut self, id: String, open: bool)
        requires
            old(self).wf(),
        ensures
            final(self).wf(),
            final(self)@ == state_initialized(old(self)@, id@, open),
    {
        if !self.persistent_state.contains_key(id.as_str()) {
            let ghost old_map = self.persistent_state@;
            self.persistent_state.insert(id, PersistentState::fresh(open));
            assert(self@.states =~= old(self)@.states.insert(id@, PersistentStateView::fresh(open)));
            assert(self@ == state_initialized(old(self)@, id@, open));
        }
    }

    /// Forgets the persistent state of the widget `id`.
    pub fn clear_state(&mut self, id: &str)
        requires
            old(self).wf(),
        ensures
            final(self).wf(),
            final(self)@ == state_cleared(old(self)@, id@),
    {
        self.persistent_state.remove(id);
        assert(self@.states =~= old(self)@.states.remove(id@));
    }

    /// The persistent state of the widget `id`: its stored state, or the untouched
    /// open state when it has none.
    pub fn state(&self, id: &str) -> (r: &PersistentState)
        requires
            self.wf(),
        ensures
            r@ == self@.state_of(id@),
    {
        match self.persistent_state.get(id) {
            None => &self.empty_persistent_state,
            Some(state) => state,
        }
    }

    /// Stores `state` as the persistent state of the widget `id`.
    pub fn set_state(&mut self, id: String, state: PersistentState)
        requires
            old(self).wf(),
        ensures
            final(self).wf(),
            final(self)@ == (ContextView {
                states: old(self)@.states.insert(id@, state@),
                ..old(self)@
            }),
    {
        let ghost v = state@;
        self.persistent_state.insert(id, state);
        assert(self@.states =~= old(self)@.states.insert(id@, v));
    }

    /// A separate copy of what a lookup of the widget `id` gives.
    fn state_copy(&self, id: &str) -> (s: PersistentState)
        requires
            self.wf(),
        ensures
            s@ == self@.state_of(id@),
    {
        match self.persistent_state.get(id) {
            Some(state) => state.duplicate(),
            None => PersistentState::default(),
        }
    }

    /// Closes the widget `id`, giving it a persistent state if it had none.
    fn close_state(&mut self, id: String)
        requires
            old(self).wf(),
        ensures
            final(self).wf(),
            final(self)@ == (ContextView { states: old(self)@.states_closing(id@), ..old(self)@ }),
    {
        let mut state = self.state_copy(id.as_str());
        state.is_open = false;
        self.set_state(id, state);
    }

    /// Appends `c` to the pending characters of the widget `id`, giving it a
    /// persistent state if it had none.
    fn push_state_character(&mut self, id: String, c: char)
        requires
            old(self).wf(),
        ensures
            final(self).wf(),
            final(self)@ == (ContextView {
                states: old(self)@.states.insert(
                    id@,
                    PersistentStateView {
                        characters: old(self)@.state_of(id@).characters.push(c),
                        ..old(self)@.state_of(id@)
                    },
                ),
                ..old(self)@
            }),
    {
        let mut state = self.state_copy(id.as_str());
        state.characters.push(c);
        self.set_state(id, state);
    }

    /// Whether a mouse button is held down whose press started outside every widget.
    pub fn mouse_pressed_outside(&self) -> (r: bool)
        ensures
            r == self@.mouse_pressed_outside.contains(true),
    {
        let mut i: usize = 0;
        while i < MOUSE_BUTTONS
            invariant
                i <= MOUSE_BUTTONS,
                self@.mouse_pressed_outside.len() == MOUSE_BUTTONS,
                forall|j: int| 0 <= j < i ==> !self@.mouse_pressed_outside[j],
            decreases MOUSE_BUTTONS - i,
        {
            if self.mouse_pressed_outside[i] {
                assert(self@.mouse_pressed_outside[i as int]);
                return true;
            }
            i = i + 1;
        }
        false
    }

    /// Moves on to the next frame.  An open modal that was protected from closing
    /// loses the protection; otherwise, if it closes on outside clicks and the first
    /// mouse button clicked while the mouse was not inside the modal
    /// (`mouse_inside_modal`, the mouse position tested against the modal's bounds),
    /// the modal closes and its widget's persistent state is closed too.  The
    /// gathered scroll wheel movement and the clicks are dropped, the widget that
    /// took the mouse and the render group the mouse is in are recorded, and the
    /// mouse position becomes the last one.
    pub fn next_frame(
        &mut self,
        mouse_taken: Option<(String, RendGroup)>,
        mouse_in_rend_group: Option<RendGroup>,
        mouse_inside_modal: bool,
    )
        requires
            old(self).wf(),
        ensures
            final(self).wf(),
            final(self)@ == next_frame_view(
                old(self)@,
                taken_view(mouse_taken),
                mouse_in_rend_group,
                mouse_inside_modal,
            ),
            final(self)@.mouse_pressed == old(self)@.mouse_pressed,
            mouse_inside_modal ==> final(self)@.states == old(self)@.states,
            final(self)@.modal is Some ==> final(self)@.states == old(self)@.states,
    {
        let mut clear_modal = false;
        if let Some(mut modal) = self.modal.take() {
            if modal.prevent_close {
                modal.prevent_close = false;
            } else if modal.close_on_click_outside && self.mouse_clicked[0] && !mouse_inside_modal {
                clear_modal = true;
            }
            self.modal = Some(modal);
        }
        if clear_modal {
            let modal = self.modal.take().unwrap();
            self.close_state(modal.id);
        }
        self.mouse_wheel = Point::default();
        self.mouse_clicked = [false, false, false];
        self.mouse_taken_last_frame = mouse_taken;
        self.last_mouse_pos = self.mouse_pos;
        self.mouse_in_rend_group_last_frame = mouse_in_rend_group;
        assert(self@.mouse_clicked =~= seq![false, false, false]);
    }
}

/// The button state after button `index` went `pressed` (down) or not (up) in the
/// state `c`.
pub open spec fn pressed_view(c: ContextView, pressed: bool, index: int) -> ContextView {
    let released = c.mouse_pressed[index] && !pressed;
    ContextView {
        mouse_pressed_outside: c.mouse_pressed_outside.update(
            index,
            if !pressed {
                false
            } else if c.mouse_taken_last_frame is None {
                true
            } else {
                c.mouse_pressed_outside[index]
            },
        ),
        mouse_clicked: if released {
            c.mouse_clicked.update(index, true)
        } else {
            c.mouse_clicked
        },
        keyboard_focus: if released {
            None
        } else {
            c.keyboard_focus
        },
        mouse_pressed: c.mouse_pressed.update(index, pressed),
        ..c
    }
}

/// The main context: it holds the persistent state of every widget and the input
/// state, and takes the application's input events.
pub struct Context {
    internal: ContextInternal,
}

impl View for Context {
    type V = ContextView;

    closed spec fn view(&self) -> ContextView {
        self.internal@
    }
}

impl Context {
    /// Well-formedness of the context's state.
    pub closed spec fn wf(&self) -> bool {
        self.internal.wf()
    }

    /// The context tracks each mouse button: the pressed, clicked and
    /// pressed-outside sequences have one entry per button.
    pub proof fn lemma_button_lengths(&self)
        ensures
            self@.mouse_pressed.len() == MOUSE_BUTTONS,
            self@.mouse_clicked.len() == MOUSE_BUTTONS,
            self@.mouse_pressed_outside.len() == MOUSE_BUTTONS,
    {
        self.internal.lemma_button_lengths();
    }

    /// A new context for a display of the given size and scale factor.
    pub fn new(display_size: Point, scale_factor: u32) -> (c: Context)
        ensures
            c.wf(),
            c@ == initial_view(display_size, scale_factor),
    {
        let internal = ContextInternal::new(display_size, scale_factor);
        Context { internal }
    }

    /// Whether the GUI wants the mouse: some widget took it on the last frame.
    /// When it does, the application should leave mouse input to the GUI.
    pub fn wants_mouse(&self) -> (r: bool)
        ensures
            r == self@.mouse_taken_last_frame is Some,
    {
        self.internal.mouse_taken_last_frame.is_some()
    }

    /// The context's state.
    pub fn internal(&self) -> (r: &ContextInternal)
        ensures
            r@ == self@,
            r.wf() == self.wf(),
    {
        &self.internal
    }

    /// Sets the bit pattern of the scale factor.
    pub fn set_scale_factor(&mut self, scale: u32)
        requires
            old(self).wf(),
        ensures
            final(self).wf(),
            final(self)@ == (ContextView { scale_factor: scale, ..old(self)@ }),
    {
        self.internal.scale_factor = scale;
    }

    /// Sets the display size.
    pub fn set_display_size(&mut self, size: Point)
        requires
            old(self).wf(),
        ensures
            final(self).wf(),
            final(self)@ == (ContextView { display_size: size, ..old(self)@ }),
    {
        self.internal.display_size = size;
    }

    /// Stores the scroll wheel movement gathered so far (the sum of the movement
    /// reported since the last frame).
    pub fn set_mouse_wheel(&mut self, wheel: Point)
        requires
            old(self).wf(),
        ensures
            final(self).wf(),
            final(self)@ == (ContextView { mouse_wheel: wheel, ..old(self)@ }),
    {
        self.internal.mouse_wheel = wheel;
    }

    /// Records that mouse button `index` went down (`pressed`) or up.  A press that
    /// starts while no widget has the mouse is marked as started outside; a release
    /// clears that mark.  A release of a held button is a click, and drops the
    /// keyboard focus.  Buttons beyond the tracked ones are ignored.
    pub fn set_mouse_pressed(&mut self, pressed: bool, index: usize)
        requires
            old(self).wf(),
        ensures
            final(self).wf(),
            index >= MOUSE_BUTTONS ==> final(self)@ == old(self)@,
            index < MOUSE_BUTTONS ==> final(self)@ == pressed_view(old(self)@, pressed, index as int),
            old(self)@.mouse_pressed.len() == MOUSE_BUTTONS,
            old(self)@.mouse_clicked.len() == MOUSE_BUTTONS,
            old(self)@.mouse_pressed_outside.len() == MOUSE_BUTTONS,
            final(self)@.mouse_pressed.len() == MOUSE_BUTTONS,
            final(self)@.mouse_clicked.len() == MOUSE_BUTTONS,
            final(self)@.mouse_pressed_outside.len() == MOUSE_BUTTONS,
            index < MOUSE_BUTTONS ==> final(self)@.mouse_pressed[index as int] == pressed,
            index < MOUSE_BUTTONS ==> final(self)@.mouse_clicked[index as int]
                == (old(self)@.mouse_clicked[index as int] || (old(self)@.mouse_pressed[index as int]
                && !pressed)),
            index < MOUSE_BUTTONS ==> final(self)@.mouse_pressed_outside[index as int] == (pressed
                && (old(self)@.mouse_pressed_outside[index as int]
                || old(self)@.mouse_taken_last_frame is None)),
    {
        if index >= MOUSE_BUTTONS {
            return ;
        }
        let ghost c = self@;
        if pressed && self.internal.mouse_taken_last_frame.is_none() {
            self.internal.mouse_pressed_outside[index] = true;
        }
        if !pressed && self.internal.mouse_pressed_outside[index] {
            self.internal.mouse_pressed_outside[index] = false;
        }
        if self.internal.mouse_pressed[index] && !pressed {
            self.internal.mouse_clicked[index] = true;
            self.internal.keyboard_focus_widget = None;
        }
        self.internal.mouse_pressed[index] = pressed;
        assert(self@.mouse_pressed_outside =~= pressed_view(c, pressed, index as int).mouse_pressed_outside);
        assert(self@.mouse_clicked =~= pressed_view(c, pressed, index as int).mouse_clicked);
        assert(self@.mouse_pressed =~= pressed_view(c, pressed, index as int).mouse_pressed);
    }

    /// Sends the character `c` to the widget with the keyboard focus, appending it
    /// to that widget's pending characters.  Without a focused widget nothing
    /// changes.
    pub fn push_character(&mut self, c: char)
        requires
            old(self).wf(),
        ensures
            final(self).wf(),
            match old(self)@.keyboard_focus {
                None => final(self)@ == old(self)@,
                Some(id) => final(self)@ == (ContextView {
                    states: old(self)@.states.insert(
                        id,
                        PersistentStateView {
                            characters: old(self)@.state_of(id).characters.push(c),
                            ..old(self)@.state_of(id)
                        },
                    ),
                    ..old(self)@
                }),
            },
    {
        let id = match &self.internal.keyboard_focus_widget {
            Some(id) => id.clone(),
            None => return ,
        };
        self.internal.push_state_character(id, c);
    }

    /// Records the mouse position.
    pub fn set_mouse_pos(&mut self, pos: Point)
        requires
            old(self).wf(),
        ensures
            final(self).wf(),
            final(self)@ == (ContextView { mouse_pos: pos, ..old(self)@ }),
    {
        self.internal.mouse_pos = pos;
    }

    /// Starts a frame at `elapsed_millis` after the context's start: records the
    /// time, and gives the root widget's animation state, pressed while the first
    /// mouse button is held and normal otherwise.
    pub fn start_frame(&mut self, elapsed_millis: u32) -> (anim: AnimState)
        requires
            old(self).wf(),
        ensures
            final(self).wf(),
            final(self)@ == (ContextView { time_millis: elapsed_millis, ..old(self)@ }),
            old(self)@.mouse_pressed[0] ==> anim == AnimState::new_spec(AnimStateKey::Pressed),
            !old(self)@.mouse_pressed[0] ==> anim == AnimState::normal_spec(),
    {
        self.internal.time_millis = elapsed_millis;
        if self.internal.mouse_pressed[0] {
            AnimState::new(AnimStateKey::Pressed)
        } else {
            AnimState::normal()
        }
    }

    /// The internal state, for changes that the input methods do not cover.
    pub fn internal_mut(&mut self) -> (r: &mut ContextInternal)
        requires
            old(self).wf(),
        ensures
            r@ == old(self)@,
            r.wf(),
            final(r).wf() ==> final(self).wf(),
            final(self)@ == final(r)@,
    {
        &mut self.internal
    }
}

/// A click lasts one frame: after moving to the next frame no button counts as
/// clicked.
pub proof fn lemma_clicks_last_one_frame(
    c: ContextView,
    mouse_taken: Option<(Seq<char>, RendGroup)>,
    mouse_in_rend_group: Option<RendGroup>,
    mouse_inside_modal: bool,
    index: int,
)
    requires
        0 <= index < MOUSE_BUTTONS,
    ensures
        !next_frame_view(c, mouse_taken, mouse_in_rend_group, mouse_inside_modal).mouse_clicked[index],
        next_frame_view(c, mouse_taken, mouse_in_rend_group, mouse_inside_modal).mouse_wheel
            == Point::zero(),
{
}

/// A button counts as clicked exactly when it was already clicked on this frame or
/// is released while held; a release also drops the keyboard focus.  The button is
/// then held exactly when it went down, and the other buttons are untouched.
pub proof fn lemma_click_is_release(c: ContextView, pressed: bool, index: int, other: int)
    requires
        0 <= index < MOUSE_BUTTONS,
        0 <= other < MOUSE_BUTTONS,
        other != index,
        c.mouse_pressed.len() == MOUSE_BUTTONS,
        c.mouse_clicked.len() == MOUSE_BUTTONS,
        c.mouse_pressed_outside.len() == MOUSE_BUTTONS,
    ensures
        pressed_view(c, pressed, index).mouse_clicked[index] == (c.mouse_clicked[index] || (
        c.mouse_pressed[index] && !pressed)),
        c.mouse_pressed[index] && !pressed ==> pressed_view(c, pressed, index).keyboard_focus
            is None,
        pressed_view(c, pressed, index).mouse_pressed[index] == pressed,
        pressed_view(c, pressed, index).mouse_pressed[other] == c.mouse_pressed[other],
        pressed_view(c, pressed, index).mouse_clicked[other] == c.mouse_clicked[other],
        pressed_view(c, pressed, index).mouse_pressed_outside[other]
            == c.mouse_pressed_outside[other],
{
}

/// A press that starts while no widget has the mouse is marked as started outside
/// the GUI, and the mark lasts until the button is released.
pub proof fn lemma_press_outside_until_release(c: ContextView, pressed: bool, index: int)
    requires
        0 <= index < MOUSE_BUTTONS,
        c.mouse_pressed_outside.len() == MOUSE_BUTTONS,
    ensures
        pressed && c.mouse_taken_last_frame is None ==> pressed_view(
            c,
            pressed,
            index,
        ).mouse_pressed_outside.contains(true),
        !pressed ==> !pressed_view(c, pressed, index).mouse_pressed_outside[index],
{
    if pressed && c.mouse_taken_last_frame is None {
        assert(pressed_view(c, pressed, index).mouse_pressed_outside[index]);
    }
}

/// A modal popup survives the frame on which it opens, whatever the mouse did, and
/// from then on can be closed.
pub proof fn lemma_new_modal_survives_its_frame(
    c: ContextView,
    id: Seq<char>,
    mouse_taken: Option<(Seq<char>, RendGroup)>,
    mouse_in_rend_group: Option<RendGroup>,
    mouse_inside_modal: bool,
)
    ensures
        ({
            let after = next_frame_view(
                modal_opened(c, id),
                mouse_taken,
                mouse_in_rend_group,
                mouse_inside_modal,
            );
            &&& after.modal is Some
            &&& after.modal->0.id == id
            &&& !after.modal->0.prevent_close
            &&& after.states == c.states
        }),
{
}

/// A modal popup closed by a click outside it leaves its widget closed.
pub proof fn lemma_outside_click_closes_modal(
    c: ContextView,
    mouse_taken: Option<(Seq<char>, RendGroup)>,
    mouse_in_rend_group: Option<RendGroup>,
)
    requires
        c.modal is Some,
        !c.modal->0.prevent_close,
        c.modal->0.close_on_click_outside,
        c.mouse_clicked[0],
    ensures
        ({
            let after = next_frame_view(c, mouse_taken, mouse_in_rend_group, false);
            &&& after.modal is None
            &&& after.states.contains_key(c.modal->0.id)
            &&& !after.state_of(c.modal->0.id).is_open
        }),
{
}

/// Closing the modal popup of the widget that was just opened as one undoes the
/// opening: no modal is left and nothing else changed.
pub proof fn lemma_clear_undoes_open(c: ContextView, id: Seq<char>)
    ensures
        modal_cleared(modal_opened(c, id), id) == (ContextView { modal: None, ..c }),
{
}

/// Giving a widget an initial state takes effect only once: later requests, open
/// or closed, leave the state as the first one made it.
pub proof fn lemma_initial_state_once(c: ContextView, id: Seq<char>, first: bool, later: bool)
    ensures
        state_initialized(state_initialized(c, id, first), id, later) == state_initialized(
            c,
            id,
            first,
        ),
        state_initialized(c, id, first).state_of(id) == (if c.states.contains_key(id) {
            c.states[id]
        } else {
            PersistentStateView::fresh(first)
        }),
{
}

/// A widget whose state was forgotten looks untouched and open again.
pub proof fn lemma_cleared_state_is_fresh(c: ContextView, id: Seq<char>)
    ensures
        state_cleared(c, id).state_of(id) == PersistentStateView::fresh(true),
{
}

/// The GUI wants the mouse exactly when some widget took it on the last frame:
/// only moving to the next frame sets who took the mouse, to the taker it is
/// given, and the other changes of the context leave it as it was.
pub proof fn lemma_mouse_taker_set_by_next_frame(
    c: ContextView,
    mouse_taken: Option<(Seq<char>, RendGroup)>,
    mouse_in_rend_group: Option<RendGroup>,
    mouse_inside_modal: bool,
    pressed: bool,
    index: int,
    id: Seq<char>,
    open: bool,
)
    ensures
        next_frame_view(c, mouse_taken, mouse_in_rend_group, mouse_inside_modal).mouse_taken_last_frame
            == mouse_taken,
        (next_frame_view(c, mouse_taken, mouse_in_rend_group, mouse_inside_modal).mouse_taken_last_frame
            is Some) == (mouse_taken is Some),
        pressed_view(c, pressed, index).mouse_taken_last_frame == c.mouse_taken_last_frame,
        modal_opened(c, id).mouse_taken_last_frame == c.mouse_taken_last_frame,
        modal_cleared(c, id).mouse_taken_last_frame == c.mouse_taken_last_frame,
        state_initialized(c, id, open).mouse_taken_last_frame == c.mouse_taken_last_frame,
        state_cleared(c, id).mouse_taken_last_frame == c.mouse_taken_last_frame,
{
}

/// Moving to the next frame changes the widgets' persistent states only by
/// closing the widget of a modal popup that it removes: while the popup stays (or
/// there is none), every state is kept.  With the mouse inside the popup, the popup
/// stays and so do all states, whatever was clicked.
pub proof fn lemma_states_change_only_with_closing_modal(
    c: ContextView,
    mouse_taken: Option<(Seq<char>, RendGroup)>,
    mouse_in_rend_group: Option<RendGroup>,
    mouse_inside_modal: bool,
)
    ensures
        ({
            let n = next_frame_view(c, mouse_taken, mouse_in_rend_group, mouse_inside_modal);
            &&& (n.modal is Some || c.modal is None) ==> n.states == c.states
            &&& n.states != c.states ==> c.modal is Some && n.modal is None
            &&& c.modal is Some && n.modal is None ==> !n.state_of(c.modal->0.id).is_open
        }),
        ({
            let n = next_frame_view(c, mouse_taken, mouse_in_rend_group, true);
            &&& n.states == c.states
            &&& (c.modal is Some <==> n.modal is Some)
        }),
{
}

/// Moving to the next frame keeps which buttons are held, so a button pressed on
/// one frame and released on a later one is clicked on the frame of the release.
pub proof fn lemma_held_buttons_survive_frames(
    c: ContextView,
    mouse_taken: Option<(Seq<char>, RendGroup)>,
    mouse_in_rend_group: Option<RendGroup>,
    mouse_inside_modal: bool,
    index: int,
)
    requires
        0 <= index < MOUSE_BUTTONS,
        c.mouse_pressed.len() == MOUSE_BUTTONS,
        c.mouse_clicked.len() == MOUSE_BUTTONS,
        c.mouse_pressed_outside.len() == MOUSE_BUTTONS,
    ensures
        next_frame_view(c, mouse_taken, mouse_in_rend_group, mouse_inside_modal).mouse_pressed
            == c.mouse_pressed,
        ({
            let pressed = pressed_view(c, true, index);
            let later = next_frame_view(pressed, mouse_taken, mouse_in_rend_group, mouse_inside_modal);
            let released = pressed_view(later, false, index);
            &&& later.mouse_pressed[index]
            &&& released.mouse_clicked[index]
            &&& !released.mouse_pressed[index]
        }),
{
}

} // verus!
