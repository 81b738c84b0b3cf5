//! Tests of the value-level pieces: update demands, animation, padding,
//! transforms and hit-testing.

use engel_core::{
    translate, Acceleration, Animate, Buffering, ChangeView, Circle, EventName, Fill, Group,
    Listener, MouseController, Padding, Rect, Shape, Stroke, Text, Transform, TransformMatrix,
    UpdateView,
};

fn plain_rect(width: i64, height: i64) -> Rect {
    Rect {
        id: None,
        width,
        height,
        padding: Padding::default(),
        transparency: 0,
        stroke: None,
        fill: None,
        transform: Transform::new(),
    }
}

fn plain_circle(radius: i64) -> Circle {
    Circle {
        id: None,
        radius,
        transparency: 0,
        stroke: None,
        fill: None,
        transform: Transform::new(),
    }
}

#[test]
fn change_view_merge_picks_the_stronger() {
    assert_eq!(ChangeView::Keep.merge(ChangeView::Keep), ChangeView::Keep);
    assert_eq!(ChangeView::Keep.merge(ChangeView::Modify), ChangeView::Modify);
    assert_eq!(ChangeView::Modify.merge(ChangeView::Keep), ChangeView::Modify);
    assert_eq!(ChangeView::Modify.merge(ChangeView::Rebuild), ChangeView::Rebuild);
    assert_eq!(ChangeView::Rebuild.merge(ChangeView::Keep), ChangeView::Rebuild);
    assert_eq!(ChangeView::Rebuild.merge(ChangeView::Modify), ChangeView::Rebuild);
    assert_eq!(ChangeView::Rebuild.merge(ChangeView::Rebuild), ChangeView::Rebuild);
}

#[test]
fn change_view_merge_is_associative_with_keep_identity() {
    let all = [ChangeView::Keep, ChangeView::Modify, ChangeView::Rebuild];
    for a in all {
        assert_eq!(a.merge(ChangeView::Keep), a);
        assert_eq!(ChangeView::Keep.merge(a), a);
        assert_eq!(a.merge(ChangeView::Rebuild), ChangeView::Rebuild);
        for b in all {
            for c in all {
                assert_eq!(a.merge(b).merge(c), a.merge(b.merge(c)));
            }
        }
    }
}

#[test]
fn update_view_merge_picks_the_stronger() {
    assert_eq!(UpdateView::Keep.merge(UpdateView::Keep), UpdateView::Keep);
    assert_eq!(UpdateView::Keep.merge(UpdateView::Modify), UpdateView::Modify);
    assert_eq!(UpdateView::Modify.merge(UpdateView::Keep), UpdateView::Modify);
    assert_eq!(UpdateView::Modify.merge(UpdateView::Modify), UpdateView::Modify);
}

#[test]
fn animate_moves_linearly_then_snaps() {
    let mut a = Animate::new(0, 10, 5);
    a.animate(1000);
    assert_eq!(a.val(), 5);
    assert!(a.is_transient());
    a.animate(1000);
    assert_eq!(a.val(), 10);
    assert!(!a.is_transient());
}

#[test]
fn animate_is_tick_rate_independent() {
    let mut coarse = Animate::new(0, 10, 5);
    coarse.animate(2000);
    let mut fine = Animate::new(0, 10, 5);
    fine.animate(1000);
    fine.animate(1000);
    assert_eq!(coarse.val(), 10);
    assert_eq!(fine.val(), 10);
}

#[test]
fn animate_runs_downwards_too() {
    let mut a = Animate::new(10, -10, 5);
    a.animate(1000);
    assert_eq!(a.val(), 5);
    a.animate(2000);
    assert_eq!(a.val(), -5);
    a.animate(1000);
    assert_eq!(a.val(), -10);
    assert!(!a.is_transient());
}

#[test]
fn animate_to_retargets_and_set_jumps() {
    let mut a = Animate::new(0, 0, 5);
    assert!(!a.is_transient());
    a.to(10);
    assert!(a.is_transient());
    a.set(7);
    assert_eq!(a.val(), 7);
    assert!(!a.is_transient());
}

#[test]
fn animate_snaps_exactly_on_the_boundary_step() {
    let mut a = Animate::new(0, 10, 5);
    a.animate(1999);
    assert_eq!(a.val(), 9);
    let mut b = Animate::new(0, 10, 5);
    b.animate(2000);
    assert_eq!(b.val(), 10);
}

#[test]
fn padding_sums_its_edges() {
    let p = Padding { top: 1, left: 2, right: 3, bottom: 4 };
    assert_eq!(p.top_and_bottom(), 5);
    assert_eq!(p.left_and_right(), 5);
    let q = Padding::from(10);
    assert_eq!(q.top_and_bottom(), 20);
    assert_eq!(q.left_and_right(), 20);
    assert_eq!(Padding::default().top_and_bottom(), 0);
}

#[test]
fn transform_composes_translation_and_scale() {
    let mut t = translate(3, 4);
    let parent = TransformMatrix { a: 2, b: 0, c: 0, d: 2, tx: 10, ty: 20 };
    let global = t.calculate_global(parent);
    assert_eq!(global, TransformMatrix { a: 2, b: 0, c: 0, d: 2, tx: 16, ty: 28 });
    assert_eq!(t.global, global);

    let mut s = Transform::new().with_scale(3, 5);
    let identity = TransformMatrix { a: 1, b: 0, c: 0, d: 1, tx: 0, ty: 0 };
    let global2 = s.calculate_global(identity);
    assert_eq!(global2, TransformMatrix { a: 3, b: 0, c: 0, d: 5, tx: 0, ty: 0 });
}

#[test]
fn rect_hit_test_inside_and_outside() {
    let shape = Shape::Rect(plain_rect(20, 20));
    assert!(shape.intersect(10, 10));
    assert!(shape.intersect(0, 0));
    assert!(shape.intersect(20, 20));
    assert!(!shape.intersect(21, 10));
    assert!(!shape.intersect(10, 21));
    assert!(!shape.intersect(-1, 5));
    assert!(!shape.intersect(30, 30));
}

#[test]
fn rect_hit_test_follows_the_global_transform() {
    let mut r = plain_rect(20, 20);
    r.transform.global = TransformMatrix { a: 1, b: 0, c: 0, d: 1, tx: 100, ty: 50 };
    let shape = Shape::Rect(r);
    assert!(shape.intersect(110, 60));
    assert!(!shape.intersect(10, 10));

    let mut scaled = plain_rect(20, 20);
    scaled.transform.global = TransformMatrix { a: 2, b: 0, c: 0, d: 2, tx: 0, ty: 0 };
    let shape2 = Shape::Rect(scaled);
    assert!(shape2.intersect(40, 40));
    assert!(!shape2.intersect(41, 40));
}

#[test]
fn rect_hit_test_under_a_quarter_turn() {
    let mut r = plain_rect(20, 10);
    r.transform.global = TransformMatrix { a: 0, b: 1, c: -1, d: 0, tx: 0, ty: 0 };
    let shape = Shape::Rect(r);
    assert!(shape.intersect(-5, 10));
    assert!(!shape.intersect(5, 10));
}

#[test]
fn degenerate_transform_hits_nothing() {
    let mut r = plain_rect(20, 20);
    r.transform.global = TransformMatrix { a: 0, b: 0, c: 0, d: 0, tx: 0, ty: 0 };
    let shape = Shape::Rect(r);
    assert!(!shape.intersect(0, 0));
}

#[test]
fn out_of_range_geometry_hits_nothing() {
    let shape = Shape::Rect(plain_rect(1 << 30, 20));
    assert!(!shape.intersect(10, 10));
}

#[test]
fn circle_hit_test_inside_and_outside() {
    let shape = Shape::Circle(plain_circle(5));
    assert!(shape.intersect(0, 0));
    assert!(shape.intersect(3, 4));
    assert!(!shape.intersect(4, 4));
    assert!(!shape.intersect(6, 0));
}

#[test]
fn circle_hit_test_becomes_an_ellipse_under_scale() {
    let mut c = plain_circle(5);
    c.transform.global = TransformMatrix { a: 2, b: 0, c: 0, d: 1, tx: 0, ty: 0 };
    let shape = Shape::Circle(c);
    assert!(shape.intersect(10, 0));
    assert!(!shape.intersect(11, 0));
    assert!(shape.intersect(0, 5));
    assert!(!shape.intersect(0, 6));
}

#[test]
fn path_text_and_group_report_no_containment() {
    let path = Shape::Path(engel_core::Path {
        id: None,
        cmd: vec![engel_core::PathCommand::Move([0, 0]), engel_core::PathCommand::Line([20, 20])],
        transparency: 0,
        stroke: None,
        fill: None,
        clip: engel_core::Clip::Disabled,
        transform: Transform::new(),
    });
    assert!(!path.intersect(10, 10));
    let text = Shape::Text(Text {
        id: None,
        content: String::from("hello"),
        font_name: String::from("sans"),
        font_size: 12,
        transparency: 0,
        fill: None,
        transform: Transform::new(),
    });
    assert!(!text.intersect(0, 0));
    let group = Shape::Group(Group { id: None, transparency: None, transform: Transform::new() });
    assert!(!group.intersect(0, 0));
}

#[test]
fn shape_id_is_read_and_replaced() {
    let mut shape = Shape::Rect(plain_rect(5, 5));
    assert_eq!(shape.id(), None);
    shape.set_id(String::from("box"));
    assert_eq!(shape.id(), Some("box"));
}

#[test]
fn shape_transform_mut_reaches_the_transform() {
    let mut shape = Shape::Rect(plain_rect(5, 5));
    *shape.transform_mut() = translate(7, 8);
    assert_eq!(shape.transform().local.tx, 7);
    assert_eq!(shape.transform().local.ty, 8);
}

#[test]
fn shape_recalculate_transform_updates_the_global() {
    let mut shape = Shape::Rect(plain_rect(5, 5));
    *shape.transform_mut() = translate(3, 4);
    let parent = TransformMatrix { a: 1, b: 0, c: 0, d: 1, tx: 10, ty: 10 };
    let global = shape.recalculate_transform(parent);
    assert_eq!(global, TransformMatrix { a: 1, b: 0, c: 0, d: 1, tx: 13, ty: 14 });
    assert_eq!(shape.transform().global, global);
}

#[test]
fn stroke_default_is_a_hairline() {
    let s = Stroke::default();
    assert_eq!(s.width, 1);
    assert_eq!(s.color, engel_core::Color::RGB(0, 0, 0));
}

#[test]
fn mouse_controller_tracks_position_and_offset() {
    let mut m = MouseController::new();
    assert_eq!(m.last_pos().x, 0);
    assert_eq!(m.last_pos().y, 0);
    m.update_pos(10, 20);
    assert_eq!(m.last_pos().x, 10);
    assert_eq!(m.last_pos().y, 20);
    m.update_pos(15, 5);
    assert_eq!(m.last_pos().x, 15);
    assert_eq!(m.last_pos().y, 5);
}

#[test]
fn buffering_and_acceleration_flags_round_trip() {
    assert_eq!(Buffering::Single.flag(), Some(false));
    assert_eq!(Buffering::Double.flag(), Some(true));
    assert_eq!(Buffering::DoNotCare.flag(), None);
    for b in [Buffering::Single, Buffering::Double, Buffering::DoNotCare] {
        assert_eq!(Buffering::from(b.flag()), b);
    }
    assert_eq!(Buffering::from(true), Buffering::Double);
    assert_eq!(Buffering::from(false), Buffering::Single);

    assert_eq!(Acceleration::Software.flag(), Some(false));
    assert_eq!(Acceleration::Hardware.flag(), Some(true));
    assert_eq!(Acceleration::DoNotCare.flag(), None);
    for a in [Acceleration::Hardware, Acceleration::Software, Acceleration::DoNotCare] {
        assert_eq!(Acceleration::from(a.flag()), a);
    }
    assert_eq!(Acceleration::from(true), Acceleration::Hardware);
    assert_eq!(Acceleration::from(false), Acceleration::Software);
}

#[test]
fn listener_kind_names_its_event() {
    let l: Listener<u8> = Listener::OnMouseDown(0);
    assert_eq!(l.kind(), EventName::MouseDown);
    let l: Listener<u8> = Listener::Draw(0);
    assert_eq!(l.kind(), EventName::Draw);
    let l: Listener<u8> = Listener::OnBlur(0);
    assert_eq!(l.kind(), EventName::Blur);
}

#[test]
fn fill_carries_its_color() {
    let f = Fill { color: engel_core::Color::RGBA(1, 2, 3, 4) };
    assert_eq!(f.color, engel_core::Color::RGBA(1, 2, 3, 4));
}
