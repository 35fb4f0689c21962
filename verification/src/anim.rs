//! Animation states of widgets and the per-frame state a finished widget reports.
use vstd::prelude::*;

use crate::geom::Point;

verus! {

/// One aspect of a widget's interaction state, used to pick images from the theme.
#[derive(Clone, Copy, Debug, PartialEq, Eq, Structural)]
pub enum AnimStateKey {
    Normal,
    Hover,
    Pressed,
    Active,
    Disabled,
}

/// The set of interaction aspects that hold for a widget on the current frame.
/// The empty set is the `Normal` state.
#[derive(Clone, Copy, Debug, PartialEq, Eq, Structural)]
pub struct AnimState {
    hover: bool,
    pressed: bool,
    active: bool,
    disabled: bool,
}

impl AnimState {
    /// Whether the state holds `key`; `Normal` holds exactly when no other key does.
    pub closed spec fn has(self, key: AnimStateKey) -> bool {
        match key {
            AnimStateKey::Normal => !self.hover && !self.pressed && !self.active && !self.disabled,
            AnimStateKey::Hover => self.hover,
            AnimStateKey::Pressed => self.pressed,
            AnimStateKey::Active => self.active,
            AnimStateKey::Disabled => self.disabled,
        }
    }

    /// This state with `key` added.
    pub closed spec fn added(self, key: AnimStateKey) -> AnimState {
        match key {
            AnimStateKey::Normal => self,
            AnimStateKey::Hover => AnimState { hover: true, ..self },
            AnimStateKey::Pressed => AnimState { pressed: true, ..self },
            AnimStateKey::Active => AnimState { active: true, ..self },
            AnimStateKey::Disabled => AnimState { disabled: true, ..self },
        }
    }

    /// The state of a widget that does not interact with the mouse.
    pub closed spec fn disabled_spec() -> AnimState {
        AnimState { hover: false, pressed: false, active: false, disabled: true }
    }

    /// The state with no keys.
    pub closed spec fn normal_spec() -> AnimState {
        AnimState { hover: false, pressed: false, active: false, disabled: false }
    }

    /// The state holding `key` alone.
    pub closed spec fn new_spec(key: AnimStateKey) -> AnimState {
        AnimState {
            hover: key == AnimStateKey::Hover,
            pressed: key == AnimStateKey::Pressed,
            active: key == AnimStateKey::Active,
            disabled: key == AnimStateKey::Disabled,
        }
    }

    /// Adding `key` makes the state hold it and keeps every other key besides
    /// `Normal` as it was.
    pub proof fn lemma_added(self, key: AnimStateKey)
        ensures
            forall|k: AnimStateKey|
                k != AnimStateKey::Normal ==> (#[trigger] self.added(key).has(k) == (k == key
                    || self.has(k))),
            key == AnimStateKey::Normal ==> self.added(key) == self,
    {
    }

    /// The keys of the normal, disabled and single-key states.
    pub proof fn lemma_named_states(key: AnimStateKey)
        ensures
            forall|k: AnimStateKey|
                #[trigger] AnimState::normal_spec().has(k) == (k == AnimStateKey::Normal),
            forall|k: AnimStateKey|
                #[trigger] AnimState::disabled_spec().has(k) == (k == AnimStateKey::Disabled),
            AnimState::new_spec(key).has(key),
            forall|k: AnimStateKey|
                k != key && k != AnimStateKey::Normal ==> !#[trigger] AnimState::new_spec(key).has(k),
    {
    }

    /// The state with no keys.
    pub fn normal() -> (s: AnimState)
        ensures
            s == AnimState::normal_spec(),
            s.has(AnimStateKey::Normal),
            forall|k: AnimStateKey| k != AnimStateKey::Normal ==> !#[trigger] s.has(k),
    {
        AnimState { hover: false, pressed: false, active: false, disabled: false }
    }

    /// The state of a widget that does not interact with the mouse.
    pub fn disabled() -> (s: AnimState)
        ensures
            s == AnimState::disabled_spec(),
            forall|k: AnimStateKey| #[trigger] s.has(k) <==> k == AnimStateKey::Disabled,
    {
        AnimState { hover: false, pressed: false, active: false, disabled: true }
    }

    /// The state holding `key` alone (the empty state for `Normal`).
    pub fn new(key: AnimStateKey) -> (s: AnimState)
        ensures
            s == AnimState::new_spec(key),
            s.has(key),
            forall|k: AnimStateKey|
                k != key && k != AnimStateKey::Normal ==> !#[trigger] s.has(k),
    {
        let mut s = AnimState { hover: false, pressed: false, active: false, disabled: false };
        s.add(key);
        s
    }

    /// Whether the state holds `key`.
    pub fn contains(&self, key: AnimStateKey) -> (r: bool)
        ensures
            r == self.has(key),
    {
        match key {
            AnimStateKey::Normal => !self.hover && !self.pressed && !self.active && !self.disabled,
            AnimStateKey::Hover => self.hover,
            AnimStateKey::Pressed => self.pressed,
            AnimStateKey::Active => self.active,
            AnimStateKey::Disabled => self.disabled,
        }
    }

    /// Adds `key` to the state; adding `Normal` changes nothing.
    pub fn add(&mut self, key: AnimStateKey)
        ensures
            *final(self) == old(self).added(key),
            key != AnimStateKey::Normal ==> final(self).has(key),
            forall|k: AnimStateKey|
                k != key && k != AnimStateKey::Normal ==> (#[trigger] final(self).has(k)
                    == old(self).has(k)),
            key == AnimStateKey::Normal ==> *final(self) == *old(self),
    {
        match key {
            AnimStateKey::Normal => {},
            AnimStateKey::Hover => self.hover = true,
            AnimStateKey::Pressed => self.pressed = true,
            AnimStateKey::Active => self.active = true,
            AnimStateKey::Disabled => self.disabled = true,
        }
    }
}

/// The state of a widget on the current frame, reported when the widget is finished.
pub struct WidgetState {
    /// Whether the widget was drawn.  When it was not, its children were not created.
    pub visible: bool,
    /// Whether the mouse hovers over the widget.
    pub hovered: bool,
    /// Whether the mouse is pressed on the widget.
    pub pressed: bool,
    /// Whether the mouse clicked the widget on this frame.
    pub clicked: bool,
    /// How far the mouse has dragged or scrolled the widget, in logical pixels.
    pub moved: Point,
}

impl WidgetState {
    /// The state of a widget that was not drawn: nothing holds and nothing moved.
    pub fn hidden() -> (s: WidgetState)
        ensures
            !s.visible,
            !s.hovered,
            !s.pressed,
            !s.clicked,
            s.moved == Point::zero(),
    {
        WidgetState {
            visible: false,
            hovered: false,
            pressed: false,
            clicked: false,
            moved: Point::default(),
        }
    }

    /// The state of a drawn widget with the given animation state, click and
    /// movement.  A pressed widget is also hovered.
    pub fn new(anim_state: AnimState, clicked: bool, moved: Point) -> (s: WidgetState)
        ensures
            s.visible,
            s.pressed == anim_state.has(AnimStateKey::Pressed),
            s.hovered == (anim_state.has(AnimStateKey::Pressed) || anim_state.has(
                AnimStateKey::Hover,
            )),
            s.pressed ==> s.hovered,
            s.clicked == clicked,
            s.moved == moved,
    {
        let (hovered, pressed) = if anim_state.contains(AnimStateKey::Pressed) {
            (true, true)
        } else if anim_state.contains(AnimStateKey::Hover) {
            (true, false)
        } else {
            (false, false)
        };

        WidgetState { visible: true, hovered, pressed, clicked, moved }
    }
}

} // verus!
