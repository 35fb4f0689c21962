use thyme_core::anim::{AnimState, AnimStateKey};
use thyme_core::context::{ContextInternal, RendGroup};
use thyme_core::font::{FontHandle, FontSummary};
use thyme_core::state::PersistentState;
use thyme_core::geom::{Align, Border, Color, HeightRelative, Layout, Point, Rect, WidthRelative};
use thyme_core::widget::{child_id, ImageHandle, PosBase, Widget, WidgetBuilder, WidgetTheme};

fn pt(x: f32, y: f32) -> Point {
    Point::new(x.to_bits(), y.to_bits())
}

fn theme(id: &str) -> WidgetTheme {
    WidgetTheme {
        id: id.to_string(),
        full_id: format!("themes/{}", id),
        text: None,
        text_color: None,
        text_align: None,
        font: None,
        background: None,
        foreground: None,
        wants_mouse: None,
        wants_scroll: None,
        pos: None,
        size: None,
        width_from: None,
        height_from: None,
        align: None,
        child_align: None,
        layout: None,
        layout_spacing: None,
        border: None,
    }
}

#[test]
fn root_widget() {
    let w = Widget::root(pt(640.0, 480.0));
    assert_eq!(w.id(), "");
    assert_eq!(w.theme_id(), "");
    assert!(w.visible());
    assert_eq!(f32::from_bits(w.size().x), 640.0);
    assert_eq!(f32::from_bits(w.clip().size.y), 480.0);
    assert_eq!(w.clip().pos.x, 0);
    assert_eq!(w.pos().x, 0);
    assert_eq!(w.text(), None);
    assert_eq!(w.text_align(), Align::TopLeft);
    assert_eq!(w.text_color(), Color { r: 255, g: 255, b: 255, a: 255 });
    assert_eq!(w.anim_state(), AnimState::normal());
    assert_eq!(w.rend_group(), RendGroup { index: 0 });
    assert!(w.font().is_none() && w.foreground().is_none() && w.background().is_none());
    assert_eq!(w.border().left, 0);
}

#[test]
fn child_ids_are_paths() {
    assert_eq!(child_id("", "button"), "button");
    assert_eq!(child_id("window", "button"), "window/button");
    assert_eq!(child_id("a/b", "c"), "a/b/c");
}

#[test]
fn widget_from_theme_defaults() {
    let parent = Widget::root(pt(640.0, 480.0));
    let (data, w) = Widget::create(&parent, &theme("label"), "label".to_string(), pt(1.0, 2.0), pt(10.0, 20.0), pt(3.0, 4.0));
    assert!(!data.manual_pos);
    assert!(!data.wants_mouse && !data.wants_scroll);
    assert!(data.enabled && !data.active && data.recalc_pos_size && !data.next_render_group);
    assert_eq!(data.align, Align::TopLeft);
    assert_eq!(data.width_from, WidthRelative::Normal);
    assert_eq!(data.height_from, HeightRelative::Normal);
    assert_eq!(data.raw_size.x, 0);
    assert_eq!(f32::from_bits(data.raw_pos.y), 2.0);
    assert_eq!(w.id(), "label");
    assert_eq!(w.theme_id(), "themes/label");
    assert_eq!(w.layout(), Layout::Horizontal);
    assert_eq!(w.child_align(), Align::TopLeft);
    assert_eq!(f32::from_bits(w.size().y), 20.0);
    assert_eq!(f32::from_bits(w.pos().x), 3.0);
    assert_eq!(w.clip().size.x, parent.clip().size.x);
    assert!(w.visible());
}

#[test]
fn widget_from_theme_settings() {
    let parent = Widget::root(pt(640.0, 480.0));
    let mut t = theme("button");
    t.text = Some("OK".to_string());
    t.wants_mouse = Some(true);
    t.align = Some(Align::Center);
    t.layout = Some(Layout::Vertical);
    t.text_color = Some(Color { r: 1, g: 2, b: 3, a: 4 });
    t.font = Some(FontSummary { handle: FontHandle { id: 2 }, line_height: 12.0f32.to_bits() });
    t.background = Some(ImageHandle { id: 9 });
    t.size = Some(pt(100.0, 30.0));
    t.border = Some(Border { top: 1, bot: 2, left: 3, right: 4 });
    let (data, w) = Widget::create(&parent, &t, "button".to_string(), pt(0.0, 0.0), pt(100.0, 30.0), pt(0.0, 0.0));
    assert!(data.manual_pos, "an alignment unlike the parent's counts as explicit");
    assert!(data.wants_mouse);
    assert_eq!(data.align, Align::Center);
    assert_eq!(f32::from_bits(data.raw_size.x), 100.0);
    assert_eq!(w.text(), Some("OK"));
    assert_eq!(w.layout(), Layout::Vertical);
    assert_eq!(w.text_color(), Color { r: 1, g: 2, b: 3, a: 4 });
    assert_eq!(w.font().map(|f| f.handle), Some(FontHandle { id: 2 }));
    assert_eq!(w.background(), Some(ImageHandle { id: 9 }));
    assert_eq!(w.border().right, 4);

    let mut t = theme("at");
    t.pos = Some(pt(5.0, 5.0));
    let (data, _) = Widget::create(&parent, &t, "at".to_string(), pt(5.0, 5.0), pt(0.0, 0.0), pt(5.0, 5.0));
    assert!(data.manual_pos, "a theme position counts as explicit");
}

fn builder() -> WidgetBuilder {
    let parent = Widget::root(pt(640.0, 480.0));
    let (data, w) = Widget::create(&parent, &theme("item"), "item".to_string(), pt(0.0, 0.0), pt(0.0, 0.0), pt(0.0, 0.0));
    WidgetBuilder::new(0, data, w)
}

#[test]
fn builder_settings() {
    let b = builder()
        .wants_mouse(true)
        .wants_scroll(true)
        .id("custom".to_string())
        .text_color(Color { r: 0, g: 0, b: 0, a: 255 })
        .text_align(Align::Center)
        .text("hello".to_string())
        .font(None)
        .foreground(Some(ImageHandle { id: 1 }))
        .background(Some(ImageHandle { id: 2 }))
        .child_align(Align::Right)
        .layout_spacing(pt(2.0, 2.0))
        .layout_vertical()
        .active(true)
        .enabled(false)
        .new_render_group();
    assert_eq!(b.parent, 0);
    assert!(b.data.wants_mouse && b.data.wants_scroll && b.data.active && !b.data.enabled && b.data.next_render_group);
    assert!(b.data.recalc_pos_size);
    assert_eq!(b.widget.id(), "custom");
    assert_eq!(b.widget.text(), Some("hello"));
    assert_eq!(b.widget.text_align(), Align::Center);
    assert_eq!(b.widget.foreground(), Some(ImageHandle { id: 1 }));
    assert_eq!(b.widget.background(), Some(ImageHandle { id: 2 }));
    assert_eq!(b.widget.child_align(), Align::Right);
    assert_eq!(b.widget.layout(), Layout::Vertical);
    assert_eq!(f32::from_bits(b.widget.layout_spacing().x), 2.0);
    let b = b.layout_horizontal();
    assert_eq!(b.widget.layout(), Layout::Horizontal);
    let b = b.layout(Layout::Free);
    assert_eq!(b.widget.layout(), Layout::Free);
}

#[test]
fn builder_placement() {
    let b = builder().screen_pos(10.0f32.to_bits(), 20.0f32.to_bits());
    assert!(b.data.manual_pos && !b.data.recalc_pos_size);
    assert_eq!(b.data.align, Align::TopLeft);
    assert_eq!(f32::from_bits(b.widget.pos().y), 20.0);
    let b = b.size(5.0f32.to_bits(), 6.0f32.to_bits()).width_from(WidthRelative::Parent).height_from(HeightRelative::FontLine);
    assert!(b.data.recalc_pos_size);
    assert_eq!(f32::from_bits(b.data.raw_size.x), 5.0);
    assert_eq!(b.data.width_from, WidthRelative::Parent);
    assert_eq!(b.data.height_from, HeightRelative::FontLine);
    let b = builder().align(Align::BotRight);
    assert!(b.data.manual_pos && b.data.recalc_pos_size);
    assert_eq!(b.data.align, Align::BotRight);
    let b = builder().pos(pt(7.0, 8.0));
    assert!(b.data.manual_pos);
    assert_eq!(f32::from_bits(b.data.raw_pos.x), 7.0);
    let b = builder().border(Border { top: 1, bot: 1, left: 1, right: 1 }).set_clip(Rect::new(pt(1.0, 1.0), pt(2.0, 2.0))).visible(false);
    assert_eq!(b.widget.border().top, 1);
    assert_eq!(f32::from_bits(b.widget.clip().pos.x), 1.0);
    assert!(!b.widget.visible());
}

#[test]
fn initially_open_sets_state_once() {
    let mut ctx = ContextInternal::new(pt(100.0, 100.0), 1.0f32.to_bits());
    let b = builder().id("panel".to_string()).initially_open(&mut ctx, false);
    assert_eq!(b.widget.id(), "panel");
    assert!(!ctx.state("panel").is_open);
    let _ = builder().id("panel".to_string()).initially_open(&mut ctx, true);
    assert!(!ctx.state("panel").is_open);
}

#[test]
fn finished_anim_state() {
    let b = builder().wants_mouse(true);
    let hover = AnimState::new(AnimStateKey::Hover);
    assert!(b.data.checks_mouse());
    assert_eq!(b.data.finished_anim_state(hover), hover);
    let b = b.active(true);
    let a = b.data.finished_anim_state(hover);
    assert!(a.contains(AnimStateKey::Hover) && a.contains(AnimStateKey::Active));
    let b = b.enabled(false);
    assert!(!b.data.checks_mouse());
    let a = b.data.finished_anim_state(hover);
    assert!(a.contains(AnimStateKey::Disabled) && a.contains(AnimStateKey::Active) && !a.contains(AnimStateKey::Hover));
    let b = builder();
    assert_eq!(b.data.finished_anim_state(hover), AnimState::disabled());
}

#[test]
fn widget_state_updates() {
    let mut w = Widget::root(pt(10.0, 10.0));
    w.set_cursor(1.0f32.to_bits(), 2.0f32.to_bits());
    assert_eq!(f32::from_bits(w.cursor().y), 2.0);
    w.set_cursor_point(pt(3.0, 3.0));
    assert_eq!(f32::from_bits(w.cursor().x), 3.0);
    w.set_rend_group(RendGroup { index: 4 });
    assert_eq!(w.rend_group(), RendGroup { index: 4 });
    w.set_anim_state(AnimState::new(AnimStateKey::Pressed));
    assert!(w.anim_state().contains(AnimStateKey::Pressed));
    w.set_pos_size(pt(1.0, 1.0), pt(2.0, 2.0));
    assert_eq!(f32::from_bits(w.size().x), 2.0);
    let mut b = builder().text("theme".to_string());
    b.apply_state_text(None);
    assert_eq!(b.widget.text(), Some("theme"));
    b.apply_state_text(Some("state".to_string()));
    assert_eq!(b.widget.text(), Some("state"));
}

#[test]
fn finishing_takes_persistent_state() {
    let open = PersistentState { scroll: pt(0.0, 4.0), ..PersistentState::default() };
    let mut b = builder().text("theme".to_string());
    assert!(b.begin_finish(open.copy_data(), Some("typed".to_string())));
    assert_eq!(b.widget.text(), Some("typed"));
    assert_eq!(f32::from_bits(b.widget.scroll().y), 4.0);
    assert!(b.widget.visible());

    let mut b = builder().text("theme".to_string());
    assert!(!b.begin_finish(PersistentState::fresh(false).copy_data(), None));
    assert!(!b.widget.visible());
    assert_eq!(b.widget.text(), Some("theme"));

    let mut b = builder().visible(false);
    assert!(!b.begin_finish(open.copy_data(), Some("typed".to_string())));
    assert_eq!(b.widget.text(), None);
    assert_eq!(b.widget.scroll().y, 0);
}

#[test]
fn text_layout_needs_text_and_font() {
    let font = FontSummary { handle: FontHandle { id: 1 }, line_height: 10.0f32.to_bits() };
    assert!(builder().text_and_font().is_none());
    assert!(builder().text("a".to_string()).text_and_font().is_none());
    assert!(builder().font(Some(font)).text_and_font().is_none());
    let b = builder().text("a".to_string()).font(Some(font));
    let (t, f) = b.text_and_font().unwrap();
    assert_eq!(t, "a");
    assert_eq!(f.handle, FontHandle { id: 1 });
}

#[test]
fn finish_plan_decisions() {
    let hover = AnimState::new(AnimStateKey::Hover);
    let b = builder().wants_mouse(true).wants_scroll(true);
    let p = b.data.finish_plan(true, hover);
    assert!(p.clicked && p.takes_drag && p.takes_wheel && p.advances_parent_cursor);
    assert_eq!(p.anim_state, hover);
    let b = builder().wants_mouse(true).enabled(false).active(true).pos(pt(1.0, 1.0));
    let p = b.data.finish_plan(true, hover);
    assert!(!p.clicked && !p.takes_drag && !p.takes_wheel && !p.advances_parent_cursor);
    assert!(p.anim_state.contains(AnimStateKey::Disabled) && p.anim_state.contains(AnimStateKey::Active));
}

#[test]
fn raw_position_base() {
    let mut parent = Widget::root(pt(640.0, 480.0));
    parent.set_cursor(4.0f32.to_bits(), 0);
    let mut t = theme("x");
    assert!(matches!(parent.raw_pos_base(&t), PosBase::Cursor));
    t.align = Some(Align::Center);
    assert!(matches!(parent.raw_pos_base(&t), PosBase::Origin));
    t.pos = Some(pt(2.0, 3.0));
    match parent.raw_pos_base(&t) {
        PosBase::Given(p) => assert_eq!(f32::from_bits(p.y), 3.0),
        other => panic!("unexpected {:?}", other),
    }
}

#[test]
fn disabled_widget_takes_no_wheel() {
    let b = builder().wants_scroll(true).enabled(false);
    assert!(!b.data.finish_plan(false, AnimState::normal()).takes_wheel);
    let b = builder().wants_scroll(true);
    assert!(b.data.finish_plan(false, AnimState::normal()).takes_wheel);
}

#[test]
fn finish_state_reports_plan() {
    let mut b = builder().wants_mouse(true).active(true);
    let plan = b.data.finish_plan(true, AnimState::new(AnimStateKey::Pressed));
    let s = b.finish_state(&plan, pt(1.0, 2.0));
    assert!(s.visible && s.pressed && s.hovered && s.clicked);
    assert_eq!(f32::from_bits(s.moved.y), 2.0);
    assert!(b.widget.anim_state().contains(AnimStateKey::Active));
    assert!(b.widget.anim_state().contains(AnimStateKey::Pressed));
}
