use thyme_core::anim::{AnimState, AnimStateKey, WidgetState};
use thyme_core::geom::{Align, Anchor, Axis, Border, Color, HeightRelative, Layout, Point, Rect, WidthRelative};

const ALL_ALIGNS: [Align; 9] = [
    Align::Left,
    Align::Right,
    Align::Bot,
    Align::Top,
    Align::Center,
    Align::BotLeft,
    Align::BotRight,
    Align::TopLeft,
    Align::TopRight,
];

fn growth(a: Anchor) -> i8 {
    match a {
        Anchor::Start => 1,
        Anchor::Middle => 0,
        Anchor::End => -1,
    }
}

#[test]
fn anchors_of_each_alignment() {
    assert_eq!(Align::Left.x_anchor(), Anchor::Start);
    assert_eq!(Align::Left.y_anchor(), Anchor::Middle);
    assert_eq!(Align::Right.x_anchor(), Anchor::End);
    assert_eq!(Align::Bot.x_anchor(), Anchor::Middle);
    assert_eq!(Align::Bot.y_anchor(), Anchor::End);
    assert_eq!(Align::Top.y_anchor(), Anchor::Start);
    assert_eq!(Align::Center.x_anchor(), Anchor::Middle);
    assert_eq!(Align::Center.y_anchor(), Anchor::Middle);
    assert_eq!(Align::BotRight.x_anchor(), Anchor::End);
    assert_eq!(Align::BotRight.y_anchor(), Anchor::End);
    assert_eq!(Align::TopLeft.x_anchor(), Anchor::Start);
    assert_eq!(Align::TopLeft.y_anchor(), Anchor::Start);
}

#[test]
fn nine_alignments_are_nine_anchor_pairs() {
    for (i, a) in ALL_ALIGNS.iter().enumerate() {
        for (j, b) in ALL_ALIGNS.iter().enumerate() {
            let same = a.x_anchor() == b.x_anchor() && a.y_anchor() == b.y_anchor();
            assert_eq!(same, i == j);
        }
    }
}

#[test]
fn child_advance_follows_anchors() {
    assert_eq!(Align::Left.child_advance(), (1, 0));
    assert_eq!(Align::Right.child_advance(), (-1, 0));
    assert_eq!(Align::Bot.child_advance(), (0, -1));
    assert_eq!(Align::Top.child_advance(), (0, 1));
    assert_eq!(Align::Center.child_advance(), (0, 0));
    assert_eq!(Align::BotLeft.child_advance(), (1, -1));
    assert_eq!(Align::BotRight.child_advance(), (-1, -1));
    assert_eq!(Align::TopLeft.child_advance(), (1, 1));
    assert_eq!(Align::TopRight.child_advance(), (-1, 1));
    for a in ALL_ALIGNS.iter() {
        assert_eq!(a.child_advance(), (growth(a.x_anchor()), growth(a.y_anchor())));
    }
}

#[test]
fn defaults() {
    assert_eq!(Align::default(), Align::TopLeft);
    assert_eq!(Layout::default(), Layout::Horizontal);
    assert_eq!(WidthRelative::default(), WidthRelative::Normal);
    assert_eq!(HeightRelative::default(), HeightRelative::Normal);
    assert_eq!(Color::default(), Color { r: 255, g: 255, b: 255, a: 255 });
    let p = Point::default();
    assert_eq!((f32::from_bits(p.x), f32::from_bits(p.y)), (0.0, 0.0));
    let r = Rect::default();
    assert_eq!((r.pos.x, r.pos.y, r.size.x, r.size.y), (0, 0, 0, 0));
    let b = Border::default();
    assert_eq!(f32::from_bits(b.top) + f32::from_bits(b.bot) + f32::from_bits(b.left) + f32::from_bits(b.right), 0.0);
    let p = Point::new(2.5f32.to_bits(), (-1.0f32).to_bits());
    assert_eq!((f32::from_bits(p.x), f32::from_bits(p.y)), (2.5, -1.0));
}

#[test]
fn anim_state_keys() {
    let n = AnimState::normal();
    assert!(n.contains(AnimStateKey::Normal));
    assert!(!n.contains(AnimStateKey::Hover));
    let d = AnimState::disabled();
    assert!(d.contains(AnimStateKey::Disabled));
    assert!(!d.contains(AnimStateKey::Normal));
    let mut p = AnimState::new(AnimStateKey::Pressed);
    assert!(p.contains(AnimStateKey::Pressed));
    assert!(!p.contains(AnimStateKey::Hover));
    p.add(AnimStateKey::Active);
    assert!(p.contains(AnimStateKey::Active));
    assert!(p.contains(AnimStateKey::Pressed));
    assert_eq!(AnimState::new(AnimStateKey::Normal), AnimState::normal());
    let mut q = AnimState::normal();
    q.add(AnimStateKey::Normal);
    assert_eq!(q, AnimState::normal());
}

#[test]
fn widget_state_from_anim_state() {
    let moved = Point::new(3.0f32.to_bits(), 4.0f32.to_bits());
    let s = WidgetState::new(AnimState::new(AnimStateKey::Pressed), true, moved);
    assert!(s.visible && s.hovered && s.pressed && s.clicked);
    assert_eq!((s.moved.x, s.moved.y), (moved.x, moved.y));
    let s = WidgetState::new(AnimState::new(AnimStateKey::Hover), false, Point::default());
    assert!(s.visible && s.hovered && !s.pressed && !s.clicked);
    let s = WidgetState::new(AnimState::normal(), false, Point::default());
    assert!(s.visible && !s.hovered && !s.pressed);
    let s = WidgetState::new(AnimState::disabled(), false, Point::default());
    assert!(!s.hovered && !s.pressed);
    let h = WidgetState::hidden();
    assert!(!h.visible && !h.hovered && !h.pressed && !h.clicked);
    assert_eq!((h.moved.x, h.moved.y), (0, 0));
}

#[test]
fn layout_advance_axis() {
    assert_eq!(Layout::Horizontal.advance_axis(), Some(Axis::X));
    assert_eq!(Layout::Vertical.advance_axis(), Some(Axis::Y));
    assert_eq!(Layout::Free.advance_axis(), None);
}
