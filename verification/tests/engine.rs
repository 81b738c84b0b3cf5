//! Tests of the dispatch engine, the identifier lookup and the driver's
//! update cycle, against a small test model.

use engel_core::{
    ChangeView, Comp, Group, InputEvent, KeyboardController, KeyboardEvent, Listener, Model,
    MouseButton, MouseController, MouseDown, MousePos, MouseScroll, Padding, Prim, Rect, Shape,
    SystemMessage, Text, Transform, UpdateView, VirtualKeyCode,
};
use engel_core::{Handler, Path, PathCommand};

/// One message per thing a listener or the model can report.
#[derive(Clone, Copy, Debug, PartialEq, Eq)]
enum Msg {
    A,
    Blurred,
    Tick(u64),
    Resized(u32, u32),
    Key(Option<VirtualKeyCode>),
    Scrolled(i64),
    Pressed(i64, i64),
    CharIn(char),
    Shrink,
}

/// The test callbacks: each value says what its callback reports.
#[derive(Clone, Copy, Debug, PartialEq, Eq)]
enum Cb {
    EmitA,
    EmitPress,
    EmitTick,
    MarkShape,
    EmitShrink,
}

impl Handler for Cb {
    type Message = Msg;

    // The `spec_*` items are the specification half of the trait; they are
    // never called at run time.
    fn spec_mouse_down(self, _: Shape, _: MouseDown) -> (Shape, Msg) {
        panic!()
    }

    fn spec_blur(self, _: Shape, _: MouseDown) -> (Shape, Msg) {
        panic!()
    }

    fn spec_mouse_scroll(self, _: Shape, _: MouseScroll) -> (Shape, Msg) {
        panic!()
    }

    fn spec_key_down(self, _: Shape, _: KeyboardEvent) -> (Shape, Msg) {
        panic!()
    }

    fn spec_key_up(self, _: Shape, _: KeyboardEvent) -> (Shape, Msg) {
        panic!()
    }

    fn spec_input_char(self, _: Shape, _: char) -> (Shape, Msg) {
        panic!()
    }

    fn spec_draw(self, _: u64) -> Msg {
        panic!()
    }

    fn spec_window_resized(self, _: u32, _: u32) -> Msg {
        panic!()
    }

    fn on_mouse_down(&self, shape: &mut Shape, press: MouseDown) -> Msg {
        match self {
            Cb::EmitPress => Msg::Pressed(press.pos.x, press.pos.y),
            Cb::MarkShape => {
                shape.set_id(String::from("hit"));
                Msg::A
            }
            Cb::EmitShrink => Msg::Shrink,
            _ => Msg::A,
        }
    }

    fn on_blur(&self, _shape: &mut Shape, press: MouseDown) -> Msg {
        match self {
            Cb::EmitPress => Msg::Pressed(press.pos.x, press.pos.y),
            _ => Msg::Blurred,
        }
    }

    fn on_mouse_scroll(&self, _shape: &mut Shape, scroll: MouseScroll) -> Msg {
        Msg::Scrolled(scroll.delta.1)
    }

    fn on_key_down(&self, _shape: &mut Shape, event: KeyboardEvent) -> Msg {
        Msg::Key(event.keycode)
    }

    fn on_key_up(&self, _shape: &mut Shape, event: KeyboardEvent) -> Msg {
        Msg::Key(event.keycode)
    }

    fn on_input_char(&self, _shape: &mut Shape, ch: char) -> Msg {
        Msg::CharIn(ch)
    }

    fn on_draw(&self, elapsed_ms: u64) -> Msg {
        match self {
            Cb::EmitTick => Msg::Tick(elapsed_ms),
            _ => Msg::A,
        }
    }

    fn on_window_resized(&self, width: u32, height: u32) -> Msg {
        Msg::Resized(width, height)
    }
}

/// The test state: it logs every folded message, and its tree carries an
/// "ephemeral" node only while `with_ephemeral` holds.
#[derive(Clone, Debug, PartialEq)]
struct Board {
    log: Vec<Msg>,
    with_ephemeral: bool,
    patched: u32,
}

fn rect_shape(width: i64, height: i64, id: Option<&str>) -> Shape {
    Shape::Rect(Rect {
        id: id.map(String::from),
        width,
        height,
        padding: Padding::default(),
        transparency: 0,
        stroke: None,
        fill: None,
        transform: Transform::new(),
    })
}

fn group_shape(id: Option<&str>) -> Shape {
    Shape::Group(Group { id: id.map(String::from), transparency: None, transform: Transform::new() })
}

fn leaf(shape: Shape, listeners: Vec<Listener<Cb>>) -> Prim<Board> {
    Prim::new(String::from("leaf"), shape, Vec::new(), listeners)
}

impl Model for Board {
    type Properties = bool;
    type Handler = Cb;

    // The `spec_*` items are the specification half of the trait; they are
    // never called at run time.
    fn spec_system_update(self, _: SystemMessage) -> (Self, Option<Msg>) {
        panic!()
    }

    fn spec_update(self, _: Msg) -> (Self, ChangeView) {
        panic!()
    }

    fn spec_build_view(self) -> Prim<Self> {
        panic!()
    }

    fn spec_modify_view(self, _: Prim<Self>) -> (Self, Prim<Self>) {
        panic!()
    }

    fn create(with_ephemeral: bool) -> Self {
        Board { log: Vec::new(), with_ephemeral, patched: 0 }
    }

    fn system_update(&mut self, msg: SystemMessage) -> Option<Msg> {
        match msg {
            SystemMessage::WindowResized { width, height } => Some(Msg::Resized(width, height)),
            _ => None,
        }
    }

    fn update(&mut self, msg: Msg) -> ChangeView {
        self.log.push(msg);
        match msg {
            Msg::Shrink => {
                self.with_ephemeral = false;
                ChangeView::Rebuild
            }
            Msg::Pressed(_, _) => ChangeView::Modify,
            Msg::A => ChangeView::Keep,
            _ => ChangeView::Keep,
        }
    }

    fn build_view(&self) -> Prim<Board> {
        let mut children = vec![leaf(
            rect_shape(20, 20, Some("stable")),
            vec![Listener::OnMouseDown(Cb::EmitShrink), Listener::OnBlur(Cb::EmitA)],
        )];
        if self.with_ephemeral {
            children.push(leaf(rect_shape(5, 5, Some("ephemeral")), Vec::new()));
        }
        Prim::new(String::from("root"), group_shape(None), children, Vec::new())
    }

    fn modify_view(&mut self, view: &mut Prim<Board>) {
        self.patched += 1;
        if let Some(node) = view.get_prim_mut("stable") {
            node.set_id(String::from("patched"));
        }
    }
}

fn press_at(x: i64, y: i64) -> SystemMessage {
    SystemMessage::Input(InputEvent::MouseDown(MouseDown {
        pos: MousePos { x, y },
        button: MouseButton::Left,
    }))
}

#[test]
fn press_inside_fires_only_mouse_down_listeners() {
    let mut tree = leaf(
        rect_shape(20, 20, None),
        vec![Listener::OnMouseDown(Cb::EmitA), Listener::OnBlur(Cb::EmitA)],
    );
    let mut out = Vec::new();
    tree.send_system_msg(press_at(10, 10), &mut out);
    assert_eq!(out, vec![Msg::A]);
}

#[test]
fn press_outside_fires_only_blur_listeners() {
    let mut tree = leaf(
        rect_shape(20, 20, None),
        vec![Listener::OnMouseDown(Cb::EmitA), Listener::OnBlur(Cb::EmitA)],
    );
    let mut out = Vec::new();
    tree.send_system_msg(press_at(30, 30), &mut out);
    assert_eq!(out, vec![Msg::Blurred]);
}

#[test]
fn end_to_end_press_against_a_group_root() {
    let child = leaf(rect_shape(20, 20, None), vec![Listener::OnMouseDown(Cb::EmitA)]);
    let mut tree = Prim::new(String::from("root"), group_shape(None), vec![child], Vec::new());

    let mut out = Vec::new();
    tree.send_system_msg(press_at(10, 10), &mut out);
    assert_eq!(out, vec![Msg::A]);

    let mut out = Vec::new();
    tree.send_system_msg(press_at(30, 30), &mut out);
    assert_eq!(out, Vec::<Msg>::new());

    let child = leaf(
        rect_shape(20, 20, None),
        vec![Listener::OnMouseDown(Cb::EmitA), Listener::OnBlur(Cb::EmitPress)],
    );
    let mut tree = Prim::new(String::from("root"), group_shape(None), vec![child], Vec::new());
    let mut out = Vec::new();
    tree.send_system_msg(press_at(30, 30), &mut out);
    assert_eq!(out, vec![Msg::Pressed(30, 30)]);
}

#[test]
fn listeners_fire_in_registration_order() {
    let mut tree = leaf(
        rect_shape(20, 20, None),
        vec![Listener::OnMouseDown(Cb::EmitA), Listener::OnMouseDown(Cb::EmitPress)],
    );
    let mut out = Vec::new();
    tree.send_system_msg(press_at(3, 4), &mut out);
    assert_eq!(out, vec![Msg::A, Msg::Pressed(3, 4)]);
}

#[test]
fn every_node_is_visited_once_per_dispatch() {
    let grandchild = leaf(rect_shape(1, 1, None), vec![Listener::Draw(Cb::EmitA)]);
    let child_a = Prim::new(
        String::from("a"),
        rect_shape(2, 2, None),
        vec![grandchild],
        vec![Listener::Draw(Cb::EmitA)],
    );
    let child_b = leaf(rect_shape(3, 3, None), vec![Listener::Draw(Cb::EmitA)]);
    let mut tree = Prim::new(
        String::from("root"),
        group_shape(None),
        vec![child_a, child_b],
        vec![Listener::Draw(Cb::EmitA)],
    );
    let mut out = Vec::new();
    tree.send_system_msg(SystemMessage::Draw(16), &mut out);
    assert_eq!(out.len(), 4);
}

#[test]
fn messages_come_in_visitation_order() {
    let first = leaf(rect_shape(1, 1, None), vec![Listener::Draw(Cb::EmitA)]);
    let second = leaf(rect_shape(2, 2, None), vec![Listener::Draw(Cb::EmitA)]);
    let mut tree = Prim::new(
        String::from("root"),
        group_shape(None),
        vec![first, second],
        vec![Listener::Draw(Cb::EmitTick)],
    );
    let mut out = Vec::new();
    tree.send_system_msg(SystemMessage::Draw(16), &mut out);
    assert_eq!(out, vec![Msg::Tick(16), Msg::A, Msg::A]);
}

#[test]
fn keyboard_events_fire_without_spatial_gating() {
    let far_away = leaf(rect_shape(1, 1, None), vec![Listener::OnKeyDown(Cb::EmitA)]);
    let mut tree = Prim::new(String::from("root"), group_shape(None), vec![far_away], Vec::new());
    let mut out = Vec::new();
    let event = KeyboardEvent { scancode: 30, keycode: Some(VirtualKeyCode::A) };
    tree.send_system_msg(SystemMessage::Input(InputEvent::KeyDown(event)), &mut out);
    assert_eq!(out, vec![Msg::Key(Some(VirtualKeyCode::A))]);
}

#[test]
fn scroll_fires_only_on_a_hit() {
    let mut tree = leaf(rect_shape(20, 20, None), vec![Listener::OnMouseScroll(Cb::EmitA)]);
    let mut out = Vec::new();
    let inside = SystemMessage::Input(InputEvent::MouseScroll(MouseScroll {
        pos: MousePos { x: 5, y: 5 },
        delta: (0, -3),
    }));
    tree.send_system_msg(inside, &mut out);
    assert_eq!(out, vec![Msg::Scrolled(-3)]);

    let mut out = Vec::new();
    let outside = SystemMessage::Input(InputEvent::MouseScroll(MouseScroll {
        pos: MousePos { x: 50, y: 5 },
        delta: (0, -3),
    }));
    tree.send_system_msg(outside, &mut out);
    assert_eq!(out, Vec::<Msg>::new());
}

#[test]
fn resize_and_char_and_key_up_reach_their_listeners() {
    let mut tree = leaf(
        rect_shape(4, 4, None),
        vec![
            Listener::WindowResized(Cb::EmitA),
            Listener::OnInputChar(Cb::EmitA),
            Listener::OnKeyUp(Cb::EmitA),
        ],
    );
    let mut out = Vec::new();
    tree.send_system_msg(SystemMessage::WindowResized { width: 800, height: 600 }, &mut out);
    assert_eq!(out, vec![Msg::Resized(800, 600)]);

    let mut out = Vec::new();
    tree.send_system_msg(SystemMessage::Input(InputEvent::Char('x')), &mut out);
    assert_eq!(out, vec![Msg::CharIn('x')]);

    let mut out = Vec::new();
    let event = KeyboardEvent { scancode: 1, keycode: None };
    tree.send_system_msg(SystemMessage::Input(InputEvent::KeyUp(event)), &mut out);
    assert_eq!(out, vec![Msg::Key(None)]);
}

#[test]
fn a_listener_may_rewrite_its_own_shape() {
    let mut tree = leaf(rect_shape(20, 20, None), vec![Listener::OnMouseDown(Cb::MarkShape)]);
    let mut out = Vec::new();
    tree.send_system_msg(press_at(1, 1), &mut out);
    assert_eq!(out, vec![Msg::A]);
    assert_eq!(tree.id(), Some("hit"));
}

#[test]
fn lookup_returns_the_first_match_in_preorder() {
    let first = leaf(rect_shape(1, 1, Some("dup")), Vec::new());
    let second = leaf(rect_shape(2, 2, Some("dup")), Vec::new());
    let mut tree = Prim::new(
        String::from("root"),
        group_shape(None),
        vec![first, second],
        Vec::new(),
    );
    assert_eq!(tree.find_path("dup"), Some(vec![0]));
    assert_eq!(tree.find_path("dup"), Some(vec![0]));

    let node = tree.get_prim_mut("dup").expect("a match");
    node.set_id(String::from("taken"));
    assert_eq!(tree.children[0].id(), Some("taken"));
    assert_eq!(tree.children[1].id(), Some("dup"));
}

#[test]
fn lookup_prefers_a_deep_earlier_match_over_a_later_sibling() {
    let inner = leaf(rect_shape(1, 1, Some("deep")), Vec::new());
    let first = Prim::new(String::from("a"), group_shape(None), vec![inner], Vec::new());
    let second = leaf(rect_shape(2, 2, Some("deep")), Vec::new());
    let tree = Prim::new(
        String::from("root"),
        group_shape(None),
        vec![first, second],
        Vec::new(),
    );
    assert_eq!(tree.find_path("deep"), Some(vec![0, 0]));
}

#[test]
fn lookup_misses_politely() {
    let mut tree = leaf(rect_shape(1, 1, Some("only")), Vec::new());
    assert_eq!(tree.find_path("other"), None);
    assert!(tree.get_prim_mut("other").is_none());
    assert!(tree.has_id("only"));
    assert!(!tree.has_id("other"));
}

#[test]
fn set_text_touches_only_text_shapes() {
    let mut node: Prim<Board> = Prim::new(
        String::from("caption"),
        Shape::Text(Text {
            id: None,
            content: String::from("before"),
            font_name: String::from("sans"),
            font_size: 12,
            transparency: 0,
            fill: None,
            transform: Transform::new(),
        }),
        Vec::new(),
        Vec::new(),
    );
    assert!(node.set_text(String::from("after")));
    match &node.shape {
        Shape::Text(t) => assert_eq!(t.content, "after"),
        _ => panic!("text shape expected"),
    }

    let mut rect_node = leaf(rect_shape(1, 1, None), Vec::new());
    assert!(!rect_node.set_text(String::from("ignored")));
}

#[test]
fn update_view_merges_children_reports() {
    let mut tree = Prim::new(
        String::from("root"),
        group_shape(None),
        vec![leaf(rect_shape(1, 1, None), Vec::new())],
        Vec::new(),
    );
    assert_eq!(tree.update_view(), UpdateView::Keep);
}

#[test]
fn a_cycle_folds_the_translated_message_first() {
    let tree = leaf(rect_shape(4, 4, None), vec![Listener::WindowResized(Cb::EmitA)]);
    let mut comp = Comp { model: Board::create(false), view: tree, dirty: false };
    comp.send_system_msg(SystemMessage::WindowResized { width: 640, height: 480 });
    assert_eq!(comp.model.log, vec![Msg::Resized(640, 480), Msg::Resized(640, 480)]);
}

#[test]
fn a_rebuild_discards_the_previous_tree() {
    let mut comp = Comp::new(Board::create(true));
    assert!(comp.view.has_id("ephemeral"));
    comp.send_system_msg(press_at(10, 10));
    assert_eq!(comp.model.log, vec![Msg::Shrink]);
    assert!(!comp.view.has_id("ephemeral"));
    assert!(comp.view.has_id("stable"));
}

#[test]
fn a_modify_patches_the_existing_tree_in_place() {
    let tree = leaf(rect_shape(20, 20, Some("stable")), vec![Listener::OnMouseDown(Cb::EmitPress)]);
    let mut comp = Comp { model: Board::create(false), view: tree, dirty: false };
    comp.send_system_msg(press_at(10, 10));
    assert_eq!(comp.model.patched, 1);
    assert!(comp.view.has_id("patched"));
    assert!(!comp.view.has_id("stable"));
}

#[test]
fn a_keep_cycle_leaves_the_tree_and_owes_no_redraw() {
    let tree = leaf(rect_shape(20, 20, Some("stable")), vec![Listener::OnMouseDown(Cb::EmitA)]);
    let mut comp = Comp { model: Board::create(false), view: tree, dirty: false };
    comp.send_system_msg(press_at(10, 10));
    assert_eq!(comp.model.log, vec![Msg::A]);
    assert_eq!(comp.model.patched, 0);
    assert!(comp.view.has_id("stable"));
    assert_eq!(comp.update_view(), UpdateView::Keep);
}

#[test]
fn update_view_reports_a_change_once() {
    let mut comp = Comp::new(Board::create(true));
    assert_eq!(comp.update_view(), UpdateView::Modify);
    assert_eq!(comp.update_view(), UpdateView::Keep);
    comp.send_system_msg(press_at(10, 10));
    assert_eq!(comp.update_view(), UpdateView::Modify);
    assert_eq!(comp.update_view(), UpdateView::Keep);
}

#[test]
fn the_mouse_controller_attaches_the_tracked_position() {
    let tree = leaf(rect_shape(20, 20, Some("stable")), vec![Listener::OnMouseDown(Cb::EmitPress)]);
    let mut comp = Comp { model: Board::create(false), view: tree, dirty: false };
    let mut mouse = MouseController::new();
    mouse.update_pos(7, 9);
    mouse.pressed_comp(&mut comp, MouseButton::Left);
    assert_eq!(comp.model.log, vec![Msg::Pressed(7, 9)]);

    let mut scroll_comp = Comp {
        model: Board::create(false),
        view: leaf(rect_shape(20, 20, None), vec![Listener::OnMouseScroll(Cb::EmitA)]),
        dirty: false,
    };
    mouse.mouse_scroll(&mut scroll_comp, (0, 4));
    assert_eq!(scroll_comp.model.log, vec![Msg::Scrolled(4)]);
}

#[test]
fn the_keyboard_controller_forwards_events() {
    let tree = leaf(
        rect_shape(1, 1, None),
        vec![
            Listener::OnKeyDown(Cb::EmitA),
            Listener::OnKeyUp(Cb::EmitA),
            Listener::OnInputChar(Cb::EmitA),
        ],
    );
    let mut comp = Comp { model: Board::create(false), view: tree, dirty: false };
    let keyboard = KeyboardController::new();
    let event = KeyboardEvent { scancode: 17, keycode: Some(VirtualKeyCode::W) };
    keyboard.pressed_comp(&mut comp, event);
    keyboard.released_comp(&mut comp, event);
    keyboard.input_char(&mut comp, 'w');
    assert_eq!(
        comp.model.log,
        vec![
            Msg::Key(Some(VirtualKeyCode::W)),
            Msg::Key(Some(VirtualKeyCode::W)),
            Msg::CharIn('w'),
        ],
    );
}

#[test]
fn transforms_recompute_top_down() {
    let mut child = leaf(rect_shape(10, 10, None), Vec::new());
    *child.transform_mut() = engel_core::translate(5, 6);
    let mut root = Prim::new(String::from("root"), group_shape(None), vec![child], Vec::new());
    *root.transform_mut() = engel_core::translate(100, 200);

    let identity = engel_core::TransformMatrix { a: 1, b: 0, c: 0, d: 1, tx: 0, ty: 0 };
    root.recalculate_transforms(identity);

    assert_eq!(root.transform().global.tx, 100);
    assert_eq!(root.transform().global.ty, 200);
    assert_eq!(root.children[0].transform().global.tx, 105);
    assert_eq!(root.children[0].transform().global.ty, 206);

    // After the pass the child's rectangle answers hits in global
    // coordinates.
    assert!(root.children[0].shape.intersect(110, 210));
    assert!(!root.children[0].shape.intersect(5, 6));
}

#[test]
fn a_path_node_never_gates_pointer_events_in() {
    let path_node: Prim<Board> = Prim::new(
        String::from("outline"),
        Shape::Path(Path {
            id: None,
            cmd: vec![PathCommand::Move([0, 0]), PathCommand::Line([20, 20]), PathCommand::Close],
            transparency: 0,
            stroke: None,
            fill: None,
            clip: engel_core::Clip::Disabled,
            transform: Transform::new(),
        }),
        Vec::new(),
        Vec::new(),
    );
    let mut tree = path_node;
    tree.listeners = vec![Listener::OnMouseDown(Cb::EmitA), Listener::OnBlur(Cb::EmitPress)];
    let mut out = Vec::new();
    tree.send_system_msg(press_at(10, 10), &mut out);
    assert_eq!(out, vec![Msg::Pressed(10, 10)]);
}
