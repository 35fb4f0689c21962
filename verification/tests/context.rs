use thyme_core::anim::{AnimState, AnimStateKey};
use thyme_core::context::{str_eq, Context, ContextInternal, RendGroup, RendGroupDef};
use thyme_core::geom::{Point, Rect};
use thyme_core::state::{Modal, PersistentState};

fn pt(x: f32, y: f32) -> Point {
    Point::new(x.to_bits(), y.to_bits())
}

fn new_context() -> Context {
    Context::new(pt(800.0, 600.0), 1.0f32.to_bits())
}

#[test]
fn new_context_is_idle() {
    let c = new_context();
    let i = c.internal();
    assert!(!c.wants_mouse());
    assert!(!i.has_modal());
    assert_eq!(i.modal_id(), None);
    assert_eq!(i.time_millis(), 0);
    assert_eq!(i.display_size().x, 800.0f32.to_bits());
    assert_eq!(f32::from_bits(i.scale_factor()), 1.0);
    for b in 0..3 {
        assert!(!i.mouse_pressed(b));
        assert!(!i.mouse_clicked(b));
    }
    assert!(!i.mouse_pressed_outside());
    assert_eq!(i.mouse_taken_last_frame_id(), None);
    assert_eq!(i.top_rend_group(), RendGroup { index: 0 });
    assert_eq!(i.mouse_in_rend_group_last_frame(), None);
}

#[test]
fn persistent_state_defaults() {
    let s = PersistentState::default();
    assert!(s.is_open);
    assert_eq!((s.resize.x, s.resize.y, s.moved.x, s.moved.y, s.scroll.x, s.scroll.y), (0, 0, 0, 0, 0, 0));
    assert_eq!(s.base_time_millis, 0);
    assert!(s.characters.is_empty());
    assert!(s.text.is_none());
    let closed = PersistentState::fresh(false);
    assert!(!closed.is_open);
    let d = PersistentState {
        is_open: false,
        resize: pt(1.0, 2.0),
        moved: pt(3.0, 4.0),
        scroll: pt(5.0, 6.0),
        base_time_millis: 7,
        characters: vec!['a'],
        text: Some("t".to_string()),
    }
    .copy_data();
    assert!(!d.is_open);
    assert_eq!(f32::from_bits(d.resize.y), 2.0);
    assert_eq!(f32::from_bits(d.moved.x), 3.0);
    assert_eq!(f32::from_bits(d.scroll.y), 6.0);
}

#[test]
fn modal_new_is_protected() {
    let m = Modal::new("popup".to_string());
    assert_eq!(m.id, "popup");
    assert!(!m.close_on_click_outside);
    assert!(m.prevent_close);
    assert_eq!((m.bounds.pos.x, m.bounds.size.y), (0, 0));
}

#[test]
fn release_of_held_button_is_a_click() {
    let mut c = new_context();
    c.internal_mut().set_focus_keyboard("field".to_string());
    c.set_mouse_pressed(true, 0);
    assert!(c.internal().mouse_pressed(0));
    assert!(!c.internal().mouse_clicked(0));
    assert!(c.internal().is_focus_keyboard("field"));
    c.set_mouse_pressed(false, 0);
    assert!(!c.internal().mouse_pressed(0));
    assert!(c.internal().mouse_clicked(0));
    assert!(!c.internal().is_focus_keyboard("field"));
    assert!(!c.internal().mouse_clicked(1));
}

#[test]
fn release_without_press_is_no_click() {
    let mut c = new_context();
    c.set_mouse_pressed(false, 1);
    assert!(!c.internal().mouse_clicked(1));
}

#[test]
fn clicks_last_one_frame() {
    let mut c = new_context();
    c.set_mouse_pressed(true, 2);
    c.set_mouse_pressed(false, 2);
    assert!(c.internal().mouse_clicked(2));
    c.internal_mut().next_frame(None, None, false);
    assert!(!c.internal().mouse_clicked(2));
}

#[test]
fn press_outside_until_release() {
    let mut c = new_context();
    c.set_mouse_pressed(true, 0);
    assert!(c.internal().mouse_pressed_outside());
    c.set_mouse_pressed(false, 0);
    assert!(!c.internal().mouse_pressed_outside());
    c.internal_mut().next_frame(Some(("button".to_string(), RendGroup { index: 1 })), None, false);
    assert!(c.wants_mouse());
    assert_eq!(c.internal().mouse_taken_last_frame_id(), Some("button"));
    c.set_mouse_pressed(true, 1);
    assert!(!c.internal().mouse_pressed_outside());
}

#[test]
fn buttons_beyond_three_are_ignored() {
    let mut c = new_context();
    c.set_mouse_pressed(true, 3);
    c.set_mouse_pressed(true, 100);
    for b in 0..3 {
        assert!(!c.internal().mouse_pressed(b));
    }
    assert!(!c.internal().mouse_pressed_outside());
}

#[test]
fn characters_go_to_focused_widget() {
    let mut c = new_context();
    c.push_character('x');
    assert!(c.internal().state("field").characters.is_empty());
    c.internal_mut().set_focus_keyboard("field".to_string());
    c.push_character('h');
    c.push_character('i');
    assert_eq!(c.internal().state("field").characters, vec!['h', 'i']);
    assert!(c.internal().state("field").is_open);
    assert!(c.internal().state("other").characters.is_empty());
}

#[test]
fn modal_survives_its_opening_frame() {
    let mut c = new_context();
    c.internal_mut().set_modal("popup".to_string());
    c.internal_mut().set_modal_close_on_click_outside(true);
    c.set_mouse_pressed(true, 0);
    c.set_mouse_pressed(false, 0);
    c.internal_mut().next_frame(None, None, false);
    assert_eq!(c.internal().modal_id(), Some("popup"));
    assert!(c.internal().state("popup").is_open);
}

#[test]
fn outside_click_closes_modal_and_its_widget() {
    let mut c = new_context();
    c.internal_mut().set_modal("popup".to_string());
    c.internal_mut().set_modal_close_on_click_outside(true);
    c.internal_mut().set_modal_bounds(Rect::new(pt(10.0, 10.0), pt(50.0, 50.0)));
    assert!(c.internal().is_modal("popup"));
    assert_eq!(c.internal().modal_bounds().map(|r| f32::from_bits(r.size.x)), Some(50.0));
    c.internal_mut().next_frame(None, None, false);
    c.set_mouse_pressed(true, 0);
    c.set_mouse_pressed(false, 0);
    c.internal_mut().next_frame(None, None, true);
    assert!(c.internal().has_modal(), "a click inside keeps the modal");
    c.set_mouse_pressed(true, 0);
    c.set_mouse_pressed(false, 0);
    c.internal_mut().next_frame(None, None, false);
    assert!(!c.internal().has_modal());
    assert!(!c.internal().state("popup").is_open);
    assert!(!c.internal().is_modal("popup"));
}

#[test]
fn modal_without_close_on_click_stays() {
    let mut c = new_context();
    c.internal_mut().set_modal("popup".to_string());
    c.internal_mut().next_frame(None, None, false);
    c.set_mouse_pressed(true, 0);
    c.set_mouse_pressed(false, 0);
    c.internal_mut().next_frame(None, None, false);
    assert!(c.internal().has_modal());
}

#[test]
fn clear_modal_only_if_it_matches() {
    let mut c = new_context();
    c.internal_mut().set_modal("popup".to_string());
    c.internal_mut().clear_modal_if_match("other");
    assert_eq!(c.internal().modal_id(), Some("popup"));
    c.internal_mut().clear_modal_if_match("popup");
    assert!(!c.internal().has_modal());
}

#[test]
fn initial_state_takes_effect_once() {
    let mut i = ContextInternal::new(pt(100.0, 100.0), 1.0f32.to_bits());
    i.init_state("w".to_string(), false);
    assert!(!i.state("w").is_open);
    i.init_state("w".to_string(), true);
    assert!(!i.state("w").is_open);
    i.clear_state("w");
    assert!(i.state("w").is_open);
    i.init_state("w".to_string(), true);
    assert!(i.state("w").is_open);
}

#[test]
fn stored_state_and_base_time() {
    let mut i = ContextInternal::new(pt(100.0, 100.0), 1.0f32.to_bits());
    assert_eq!(i.base_time_millis_for("w"), 0);
    let mut s = PersistentState::default();
    s.base_time_millis = 1234;
    s.text = Some("hello".to_string());
    i.set_state("w".to_string(), s);
    assert_eq!(i.base_time_millis_for("w"), 1234);
    assert_eq!(i.state("w").text.as_deref(), Some("hello"));
}

#[test]
fn mouse_wheel_is_taken_once() {
    let mut c = new_context();
    c.set_mouse_wheel(pt(0.0, -3.0));
    let w = c.internal_mut().take_mouse_wheel();
    assert_eq!(f32::from_bits(w.y), -3.0);
    let w = c.internal_mut().take_mouse_wheel();
    assert_eq!(f32::from_bits(w.y), 0.0);
    c.set_mouse_wheel(pt(1.0, 1.0));
    c.internal_mut().next_frame(None, None, false);
    assert_eq!(c.internal().mouse_wheel().x, 0);
}

#[test]
fn next_frame_records_mouse() {
    let mut c = new_context();
    c.set_mouse_pos(pt(5.0, 6.0));
    assert_eq!(f32::from_bits(c.internal().mouse_pos().x), 5.0);
    c.internal_mut().next_frame(None, Some(RendGroup { index: 2 }), false);
    assert_eq!(f32::from_bits(c.internal().last_mouse_pos().y), 6.0);
    assert_eq!(c.internal().mouse_in_rend_group_last_frame(), Some(RendGroup { index: 2 }));
}

#[test]
fn pending_top_group_is_first_match() {
    let mut i = ContextInternal::new(pt(100.0, 100.0), 1.0f32.to_bits());
    let groups = vec![
        RendGroupDef::new("a".to_string(), RendGroup { index: 1 }),
        RendGroupDef::new("win".to_string(), RendGroup { index: 2 }),
        RendGroupDef::new("win".to_string(), RendGroup { index: 3 }),
    ];
    i.check_set_rend_group_top(&groups);
    assert_eq!(i.top_rend_group(), RendGroup { index: 0 });
    i.set_top_rend_group_id("win");
    i.check_set_rend_group_top(&groups);
    assert_eq!(i.top_rend_group(), RendGroup { index: 2 });
    i.set_top_rend_group(RendGroup { index: 1 });
    i.check_set_rend_group_top(&groups);
    assert_eq!(i.top_rend_group(), RendGroup { index: 1 }, "the request was consumed");
    i.set_top_rend_group_id("missing");
    i.check_set_rend_group_top(&groups);
    assert_eq!(i.top_rend_group(), RendGroup { index: 1 });
    assert_eq!(groups[1].id(), "win");
    assert_eq!(groups[2].group(), RendGroup { index: 3 });
}

#[test]
fn frame_start_state() {
    let mut c = new_context();
    let a = c.start_frame(250);
    assert_eq!(a, AnimState::normal());
    assert_eq!(c.internal().time_millis(), 250);
    c.set_mouse_pressed(true, 0);
    let a = c.start_frame(300);
    assert!(a.contains(AnimStateKey::Pressed));
    c.set_scale_factor(2.0f32.to_bits());
    c.set_display_size(pt(1024.0, 768.0));
    assert_eq!(f32::from_bits(c.internal().scale_factor()), 2.0);
    assert_eq!(f32::from_bits(c.internal().display_size().x), 1024.0);
}

#[test]
fn string_equality() {
    assert!(str_eq("abc", "abc"));
    assert!(!str_eq("abc", "abd"));
    assert!(!str_eq("", "a"));
}

#[test]
fn modal_bounds_recorded_only_for_modal() {
    let mut c = new_context();
    c.internal_mut().record_modal_bounds("popup", Rect::new(pt(1.0, 1.0), pt(2.0, 2.0)));
    assert!(c.internal().modal_bounds().is_none());
    c.internal_mut().set_modal("popup".to_string());
    c.internal_mut().record_modal_bounds("other", Rect::new(pt(1.0, 1.0), pt(2.0, 2.0)));
    assert_eq!(c.internal().modal_bounds().map(|r| r.size.x), Some(0));
    c.internal_mut().record_modal_bounds("popup", Rect::new(pt(1.0, 1.0), pt(2.0, 2.0)));
    assert_eq!(c.internal().modal_bounds().map(|r| f32::from_bits(r.size.x)), Some(2.0));
}

#[test]
fn wants_mouse_follows_last_taker() {
    let mut c = new_context();
    c.internal_mut().next_frame(Some(("b".to_string(), RendGroup { index: 0 })), None, false);
    c.set_mouse_pressed(true, 0);
    c.push_character('x');
    assert!(c.wants_mouse());
    c.internal_mut().next_frame(None, None, false);
    assert!(!c.wants_mouse());
}
