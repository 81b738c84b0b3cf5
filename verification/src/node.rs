//! The tree of visual primitives and the dispatch engine.

use vstd::prelude::*;

use crate::event::{InputEvent, SystemMessage};
use crate::listener::{fire_one, fold_fire, matching, Firing, Handler, Listener};
use crate::model::Model;
use crate::mouse::MouseDown;
use crate::shape::Shape;
use crate::transform::{Transform, TransformMatrix};
use crate::view::UpdateView;

verus! {

/// The message type of a model's handlers.
pub type Message<M> = <<M as Model>::Handler as Handler>::Message;

/// The firing a node derives from an incoming system event: presses are
/// turned into `MouseDown` on a hit and `Blur` on a miss, scrolls are gated
/// on a hit, and everything else addresses its listeners unconditionally.
pub open spec fn spec_firing(msg: SystemMessage, shape: Shape) -> Option<Firing> {
    match msg {
        SystemMessage::Input(input) => match input {
            InputEvent::MouseDown(press) => {
                if shape.spec_intersect(press.pos.x as int, press.pos.y as int) {
                    Some(Firing::MouseDown(press))
                } else {
                    Some(Firing::Blur(press))
                }
            }
            InputEvent::MouseScroll(scroll) => {
                if shape.spec_intersect(scroll.pos.x as int, scroll.pos.y as int) {
                    Some(Firing::MouseScroll(scroll))
                } else {
                    None
                }
            }
            InputEvent::KeyDown(event) => Some(Firing::KeyDown(event)),
            InputEvent::KeyUp(event) => Some(Firing::KeyUp(event)),
            InputEvent::Char(ch) => Some(Firing::InputChar(ch)),
        },
        SystemMessage::Draw(elapsed) => Some(Firing::Draw(elapsed)),
        SystemMessage::WindowResized { width, height } => Some(
            Firing::WindowResized(width, height),
        ),
    }
}

/// One node of the visual tree: a shape, the ordered children, and the
/// listeners registered on this node.  Children order is render and
/// traversal order; ownership is strictly tree-shaped.
#[verifier::reject_recursive_types(M)]
pub struct Prim<M: Model> {
    pub name: String,
    pub shape: Shape,
    pub children: Vec<Prim<M>>,
    pub listeners: Vec<Listener<M::Handler>>,
}

impl<M: Model> Prim<M> {
    /// Makes a node.
    pub fn new(
        name: String,
        shape: Shape,
        children: Vec<Prim<M>>,
        listeners: Vec<Listener<M::Handler>>,
    ) -> (r: Prim<M>)
        ensures
            r == (Prim { name, shape, children, listeners }),
    {
        Prim { name, shape, children, listeners }
    }

    /// The identifier of the node's shape, if one is set.
    pub fn id(&self) -> (r: Option<&str>)
        ensures
            r is Some <==> self.shape.spec_id() is Some,
            r is Some ==> Some(r->0@) == self.shape.spec_id(),
    {
        self.shape.id()
    }

    /// Replaces the identifier of the node's shape.
    pub fn set_id(&mut self, id: String)
        ensures
            *final(self) == (Prim {
                shape: old(self).shape.spec_with_id(Some(id)),
                ..*old(self)
            }),
    {
        self.shape.set_id(id);
    }

    /// Replaces the content if the node's shape is text; answers whether it
    /// was.
    pub fn set_text(&mut self, content: String) -> (r: bool)
        ensures
            r == (old(self).shape is Text),
            r ==> *final(self) == (Prim {
                shape: Shape::Text(crate::shape::Text { content, ..old(self).shape->Text_0 }),
                ..*old(self)
            }),
            !r ==> *final(self) == *old(self),
    {
        match &mut self.shape {
            Shape::Text(text) => {
                text.content = content;
                true
            }
            _ => false,
        }
    }

    /// The transform of the node's shape.
    pub fn transform(&self) -> (r: &Transform)
        ensures
            *r == self.shape.spec_transform(),
    {
        self.shape.transform()
    }

    /// Mutable access to the transform of the node's shape.
    pub fn transform_mut(&mut self) -> (r: &mut Transform)
        ensures
            *r == old(self).shape.spec_transform(),
            *final(self) == (Prim {
                shape: old(self).shape.spec_with_transform(*final(r)),
                ..*old(self)
            }),
    {
        self.shape.transform_mut()
    }

    /// Routes one system event through this subtree: pre-order, depth-first,
    /// visiting every node whatever the hit tests said.  The node fires its
    /// own matching listeners first — a press fires `MouseDown` listeners on
    /// a hit and `Blur` listeners on a miss, a scroll fires only on a hit,
    /// keyboard, character, draw and resize events fire unconditionally —
    /// and then every child receives the same event.  Every message produced
    /// is appended to `outputs` in visitation order.
    pub fn send_system_msg(&mut self, msg: SystemMessage, outputs: &mut Vec<Message<M>>)
        ensures
            Prim::dispatch_rel(*old(self), *final(self), msg),
            final(outputs)@ == old(outputs)@ + old(self).dispatch_msgs(msg),
        decreases *old(self),
    {
        let ghost base = outputs@;
        let fired: Option<Firing> = match msg {
            SystemMessage::Input(input) => match input {
                InputEvent::MouseDown(press) => {
                    if self.shape.intersect(press.pos.x, press.pos.y) {
                        Some(Firing::MouseDown(press))
                    } else {
                        Some(Firing::Blur(press))
                    }
                }
                InputEvent::MouseScroll(scroll) => {
                    if self.shape.intersect(scroll.pos.x, scroll.pos.y) {
                        Some(Firing::MouseScroll(scroll))
                    } else {
                        None
                    }
                }
                InputEvent::KeyDown(event) => Some(Firing::KeyDown(event)),
                InputEvent::KeyUp(event) => Some(Firing::KeyUp(event)),
                InputEvent::Char(ch) => Some(Firing::InputChar(ch)),
            },
            SystemMessage::Draw(elapsed) => Some(Firing::Draw(elapsed)),
            SystemMessage::WindowResized { width, height } => Some(
                Firing::WindowResized(width, height),
            ),
        };
        proof {
            assert(fired == spec_firing(msg, old(self).shape));
        }
        if let Some(f) = fired {
            let ghost shape0 = self.shape;
            let mut ls: Vec<Listener<M::Handler>> = Vec::new();
            core::mem::swap(&mut ls, &mut self.listeners);
            proof {
                assert(ls@.skip(0) =~= ls@);
                assert(outputs@.skip(base.len() as int) =~= Seq::<Message<M>>::empty());
                assert(Seq::<Message<M>>::empty() + fold_fire(ls@, shape0, f).1 =~= fold_fire(
                    ls@,
                    shape0,
                    f,
                ).1);
                assert(outputs@.subrange(0, base.len() as int) =~= base);
            }
            let n = ls.len();
            let mut i: usize = 0;
            while i < n
                invariant
                    i <= n,
                    n == ls.len(),
                    ls@ == old(self).listeners@,
                    self.name == old(self).name,
                    self.children == old(self).children,
                    shape0 == old(self).shape,
                    base == old(outputs)@,
                    spec_firing(msg, old(self).shape) == Some(f),
                    outputs@.len() >= base.len(),
                    outputs@.subrange(0, base.len() as int) == base,
                    fold_fire(ls@, shape0, f) == {
                        let rest = fold_fire(ls@.skip(i as int), self.shape, f);
                        (rest.0, outputs@.skip(base.len() as int) + rest.1)
                    },
                decreases n - i,
            {
                let ghost sh_i = self.shape;
                let ghost prev = outputs@;
                proof {
                    lemma_fold_fire_skip_unfold(ls@, i as int, sh_i, f);
                }
                let l = &ls[i];
                match (l, f) {
                    (Listener::OnMouseDown(h), Firing::MouseDown(press)) => {
                        let m = h.on_mouse_down(&mut self.shape, press);
                        outputs.push(m);
                    }
                    (Listener::OnBlur(h), Firing::Blur(press)) => {
                        let m = h.on_blur(&mut self.shape, press);
                        outputs.push(m);
                    }
                    (Listener::OnMouseScroll(h), Firing::MouseScroll(scroll)) => {
                        let m = h.on_mouse_scroll(&mut self.shape, scroll);
                        outputs.push(m);
                    }
                    (Listener::OnKeyDown(h), Firing::KeyDown(event)) => {
                        let m = h.on_key_down(&mut self.shape, event);
                        outputs.push(m);
                    }
                    (Listener::OnKeyUp(h), Firing::KeyUp(event)) => {
                        let m = h.on_key_up(&mut self.shape, event);
                        outputs.push(m);
                    }
                    (Listener::OnInputChar(h), Firing::InputChar(ch)) => {
                        let m = h.on_input_char(&mut self.shape, ch);
                        outputs.push(m);
                    }
                    (Listener::Draw(h), Firing::Draw(elapsed)) => {
                        let m = h.on_draw(elapsed);
                        outputs.push(m);
                    }
                    (Listener::WindowResized(h), Firing::WindowResized(w, hh)) => {
                        let m = h.on_window_resized(w, hh);
                        outputs.push(m);
                    }
                    _ => {}
                }
                proof {
                    match fire_one(ls@[i as int], sh_i, f) {
                        Some(r) => {
                            assert(self.shape == r.0);
                            assert(outputs@ == prev + seq![r.1]);
                            assert(outputs@.subrange(0, base.len() as int) =~= base);
                            assert(outputs@.skip(base.len() as int) =~= prev.skip(
                                base.len() as int,
                            ) + seq![r.1]);
                            assert((prev.skip(base.len() as int) + seq![r.1]) + fold_fire(
                                ls@.skip(i + 1),
                                self.shape,
                                f,
                            ).1 =~= prev.skip(base.len() as int) + (seq![r.1] + fold_fire(
                                ls@.skip(i + 1),
                                self.shape,
                                f,
                            ).1));
                        }
                        None => {
                            assert(self.shape == sh_i);
                            assert(outputs@ == prev);
                        }
                    }
                }
                i += 1;
            }
            proof {
                assert(ls@.skip(n as int) =~= Seq::<Listener<M::Handler>>::empty());
                assert(fold_fire(ls@.skip(n as int), self.shape, f) == (
                    self.shape,
                    Seq::<Message<M>>::empty(),
                ));
                assert(outputs@.skip(base.len() as int) + Seq::<Message<M>>::empty()
                    =~= outputs@.skip(base.len() as int));
            }
            self.listeners = ls;
        }
        proof {
            assert(self.shape == old(self).own_fold(msg).0);
            assert(outputs@ == base + old(self).own_fold(msg).1) by {
                assert(base + outputs@.skip(base.len() as int) =~= outputs@);
            }
        }
        let ghost mid = outputs@;
        let ghost shape_after = self.shape;
        proof {
            assert(old(self).children@.skip(0) =~= old(self).children@);
            assert(outputs@.skip(mid.len() as int) =~= Seq::<Message<M>>::empty());
            assert(Seq::<Message<M>>::empty() + children_msgs(old(self).children@, msg)
                =~= children_msgs(old(self).children@, msg));
            assert(outputs@.subrange(0, mid.len() as int) =~= mid);
        }
        let cn = self.children.len();
        let mut i: usize = 0;
        while i < cn
            invariant
                i <= cn,
                cn == self.children.len(),
                old(self).children@.len() == cn,
                self.name == old(self).name,
                self.listeners@ == old(self).listeners@,
                self.shape == shape_after,
                mid.len() >= base.len(),
                shape_after == old(self).own_fold(msg).0,
                mid == base + old(self).own_fold(msg).1,
                base == old(outputs)@,
                forall|j: int|
                    0 <= j < i ==> Prim::dispatch_rel(
                        old(self).children@[j],
                        #[trigger] self.children@[j],
                        msg,
                    ),
                forall|j: int| i <= j < cn ==> self.children@[j] == old(self).children@[j],
                outputs@.len() >= mid.len(),
                outputs@.subrange(0, mid.len() as int) == mid,
                children_msgs(old(self).children@, msg) == outputs@.skip(mid.len() as int)
                    + children_msgs(old(self).children@.skip(i as int), msg),
            decreases cn - i,
        {
            let ghost prev = outputs@;
            proof {
                assert(self.children@[i as int] == old(self).children@[i as int]);
                lemma_children_msgs_skip_unfold(old(self).children@, i as int, msg);
            }
            let child = &mut self.children[i];
            child.send_system_msg(msg, outputs);
            proof {
                assert(outputs@.subrange(0, mid.len() as int) =~= mid);
                assert(outputs@.skip(mid.len() as int) =~= prev.skip(mid.len() as int) + old(
                    self,
                ).children@[i as int].dispatch_msgs(msg));
                assert((prev.skip(mid.len() as int) + old(self).children@[i as int].dispatch_msgs(
                    msg,
                )) + children_msgs(old(self).children@.skip(i + 1), msg) =~= prev.skip(
                    mid.len() as int,
                ) + (old(self).children@[i as int].dispatch_msgs(msg) + children_msgs(
                    old(self).children@.skip(i + 1),
                    msg,
                )));
            }
            i += 1;
        }
        proof {
            assert(old(self).children@.skip(cn as int) =~= Seq::<Prim<M>>::empty());
            assert(children_msgs(old(self).children@.skip(cn as int), msg) == Seq::<
                Message<M>,
            >::empty());
            assert(outputs@.skip(mid.len() as int) + Seq::<Message<M>>::empty() =~= outputs@.skip(
                mid.len() as int,
            ));
            lemma_children_rel_pointwise(old(self).children@, self.children@, msg);
            assert(outputs@ =~= mid + outputs@.skip(mid.len() as int));
            assert(outputs@ =~= base + (old(self).own_fold(msg).1 + children_msgs(
                old(self).children@,
                msg,
            )));
        }
    }

    /// Every matrix a top-down recompute of this subtree forms stays within
    /// `i64` range: the node's own shape composes with `parent_global`, and
    /// each child's subtree with the node's freshly computed global matrix.
    pub open spec fn tree_recalc_fits(self, parent_global: TransformMatrix) -> bool
        decreases self, 1int,
    {
        &&& self.shape.recalc_fits(parent_global)
        &&& forest_recalc_fits(
            self.children@,
            parent_global.spec_compose(self.shape.spec_transform().local),
        )
    }

    /// How a top-down recompute rewrites this subtree: only global matrices
    /// change — the node's shape is recomputed from `parent_global`, and
    /// every child from the node's freshly computed global matrix.
    pub open spec fn recalculated_rel(
        pre: Prim<M>,
        post: Prim<M>,
        parent_global: TransformMatrix,
    ) -> bool
        decreases pre, 1int,
    {
        &&& post.name == pre.name
        &&& post.listeners == pre.listeners
        &&& post.shape == pre.shape.spec_recalculated(parent_global)
        &&& forest_recalculated_rel(
            pre.children@,
            post.children@,
            parent_global.spec_compose(pre.shape.spec_transform().local),
        )
    }

    /// Recomputes every global matrix of the subtree, top-down: the node's
    /// own shape from the parent's freshly computed global matrix, then
    /// each child from the node's.
    pub fn recalculate_transforms(&mut self, parent_global: TransformMatrix)
        requires
            old(self).tree_recalc_fits(parent_global),
        ensures
            Prim::recalculated_rel(*old(self), *final(self), parent_global),
        decreases *old(self),
    {
        let global = self.shape.recalculate_transform(parent_global);
        proof {
            assert(global == parent_global.spec_compose(old(self).shape.spec_transform().local));
            assert(old(self).children@.skip(0) =~= old(self).children@);
        }
        let cn = self.children.len();
        let mut i: usize = 0;
        while i < cn
            invariant
                i <= cn,
                cn == self.children@.len(),
                old(self).children@.len() == cn,
                self.name == old(self).name,
                self.listeners == old(self).listeners,
                self.shape == old(self).shape.spec_recalculated(parent_global),
                global == parent_global.spec_compose(old(self).shape.spec_transform().local),
                forest_recalc_fits(old(self).children@, global),
                forall|j: int|
                    0 <= j < i ==> Prim::recalculated_rel(
                        old(self).children@[j],
                        #[trigger] self.children@[j],
                        global,
                    ),
                forall|j: int| i <= j < cn ==> self.children@[j] == old(self).children@[j],
            decreases cn - i,
        {
            proof {
                lemma_forest_recalc_fits_at(old(self).children@, global, i as int);
            }
            let child = &mut self.children[i];
            child.recalculate_transforms(global);
            i += 1;
        }
        proof {
            lemma_forest_recalculated_pointwise(old(self).children@, self.children@, global);
        }
    }

    /// The dirtiness this subtree reports: the merge of the children's
    /// reports.  A primitive shape has no dirty tracking of its own, so its
    /// own contribution is the identity of the merge.
    pub open spec fn spec_update_view(self) -> UpdateView
        decreases self, 1int,
    {
        children_update_view(self.children@)
    }

    /// Walks the subtree and merges the children's dirtiness reports; the
    /// strongest demand wins and `UpdateView::Keep` is the identity.  The
    /// tree is left as it was.
    pub fn update_view(&mut self) -> (r: UpdateView)
        ensures
            *final(self) == *old(self),
            r == old(self).spec_update_view(),
    {
        Self::view_demand(self)
    }

    /// Read-only walk behind [`Prim::update_view`].
    fn view_demand(&self) -> (r: UpdateView)
        ensures
            r == self.spec_update_view(),
        decreases *self,
    {
        proof {
            assert(self.children@.skip(0) =~= self.children@);
        }
        let mut update = UpdateView::Keep;
        let cn = self.children.len();
        let mut i: usize = 0;
        while i < cn
            invariant
                i <= cn,
                cn == self.children@.len(),
                children_update_view(self.children@) == update.spec_merge(
                    children_update_view(self.children@.skip(i as int)),
                ),
            decreases cn - i,
        {
            proof {
                assert(self.children@.skip(i as int).len() > 0);
                assert(self.children@.skip(i as int)[0] == self.children@[i as int]);
                assert(self.children@.skip(i as int).drop_first() =~= self.children@.skip(
                    i as int + 1,
                ));
            }
            let child_update = self.children[i].view_demand();
            update = child_update.merge(update);
            i += 1;
        }
        proof {
            assert(self.children@.skip(cn as int) =~= Seq::<Prim<M>>::empty());
        }
        update
    }

    /// The first node in depth-first pre-order whose identifier is `id`,
    /// as the path of child indices that leads to it; `None` when the
    /// subtree holds no such node.  Identifiers are advisory and not
    /// enforced unique: a lookup resolves to the first match.
    pub open spec fn spec_find(self, id: Seq<char>) -> Option<Seq<int>>
        decreases self, 1int,
    {
        if self.shape.spec_id() == Some(id) {
            Some(Seq::<int>::empty())
        } else {
            find_in_children(self.children@, id, 0)
        }
    }

    /// The node a path of child indices leads to.
    pub open spec fn prim_at(self, path: Seq<int>) -> Prim<M>
        recommends
            self.path_valid(path),
        decreases path.len(),
    {
        if path.len() == 0 {
            self
        } else {
            self.children@[path[0]].prim_at(path.drop_first())
        }
    }

    /// The path stays within the tree.
    pub open spec fn path_valid(self, path: Seq<int>) -> bool
        decreases path.len(),
    {
        path.len() > 0 ==> 0 <= path[0] < self.children@.len()
            && self.children@[path[0]].path_valid(path.drop_first())
    }

    /// `post` is `pre` with the node at `path` replaced by `sub` and
    /// everything else untouched.
    pub open spec fn replaced_at(
        pre: Prim<M>,
        post: Prim<M>,
        path: Seq<int>,
        sub: Prim<M>,
    ) -> bool
        decreases path.len(),
    {
        if path.len() == 0 {
            post == sub
        } else {
            let k = path[0];
            &&& 0 <= k < pre.children@.len()
            &&& post.name == pre.name
            &&& post.shape == pre.shape
            &&& post.listeners == pre.listeners
            &&& post.children@.len() == pre.children@.len()
            &&& forall|j: int|
                0 <= j < pre.children@.len() && j != k ==> post.children@[j] == pre.children@[j]
            &&& Prim::replaced_at(pre.children@[k], post.children@[k], path.drop_first(), sub)
        }
    }

    /// Whether the subtree holds a node with this identifier.
    pub fn has_id(&self, id: &str) -> (r: bool)
        ensures
            r == (self.spec_find(id@) is Some),
    {
        let key: String = id.to_owned();
        self.has_key(&key)
    }

    /// [`Prim::has_id`] with the key already owned.
    fn has_key(&self, key: &String) -> (r: bool)
        ensures
            r == (self.spec_find(key@) is Some),
    {
        self.find_path_by_key(key).is_some()
    }

    /// The path of child indices to the first node in depth-first pre-order
    /// whose identifier is `id`, or `None` when there is no such node.
    /// The answer is a function of the tree and the identifier alone, so
    /// repeated lookups resolve to the same node.
    pub fn find_path(&self, id: &str) -> (r: Option<Vec<usize>>)
        ensures
            match r {
                Some(path) => self.spec_find(id@) == Some(
                    path@.map_values(|u: usize| u as int),
                ),
                None => self.spec_find(id@) is None,
            },
    {
        let key: String = id.to_owned();
        self.find_path_by_key(&key)
    }

    /// [`Prim::find_path`] with the key already owned.
    fn find_path_by_key(&self, key: &String) -> (r: Option<Vec<usize>>)
        ensures
            match r {
                Some(path) => self.spec_find(key@) == Some(
                    path@.map_values(|u: usize| u as int),
                ),
                None => self.spec_find(key@) is None,
            },
        decreases *self,
    {
        if shape_id_matches(&self.shape, key) {
            let path: Vec<usize> = Vec::new();
            proof {
                assert(path@.map_values(|u: usize| u as int) =~= Seq::<int>::empty());
            }
            return Some(path);
        }
        proof {
            assert(self.children@.skip(0) =~= self.children@);
        }
        let cn = self.children.len();
        let mut i: usize = 0;
        while i < cn
            invariant
                i <= cn,
                cn == self.children@.len(),
                self.spec_find(key@) == find_in_children(
                    self.children@.skip(i as int),
                    key@,
                    i as int,
                ),
            decreases cn - i,
        {
            proof {
                lemma_find_children_skip_unfold(self.children@, key@, i as int);
            }
            match self.children[i].find_path_by_key(key) {
                Some(sub) => {
                    let mut path: Vec<usize> = Vec::new();
                    path.push(i);
                    let mut rest = sub;
                    path.append(&mut rest);
                    proof {
                        assert(path@.map_values(|u: usize| u as int) =~= seq![i as int]
                            + sub@.map_values(|u: usize| u as int));
                    }
                    return Some(path);
                }
                None => {}
            }
            i += 1;
        }
        proof {
            assert(self.children@.skip(cn as int) =~= Seq::<Prim<M>>::empty());
        }
        None
    }

    /// Mutable access to the first node in depth-first pre-order whose
    /// identifier is `id`: the patch step's way to a node.  The rest of the
    /// tree is left untouched, and a lookup that finds nothing changes
    /// nothing.
    pub fn get_prim_mut(&mut self, id: &str) -> (r: Option<&mut Prim<M>>)
        ensures
            r is Some <==> old(self).spec_find(id@) is Some,
            r is None ==> *final(self) == *old(self),
            match r {
                Some(q) => ({
                    let path = old(self).spec_find(id@)->0;
                    *q == old(self).prim_at(path) && Prim::replaced_at(
                        *old(self),
                        *final(self),
                        path,
                        *final(q),
                    )
                }),
                None => true,
            },
    {
        let key: String = id.to_owned();
        self.get_prim_mut_by_key(&key)
    }

    /// [`Prim::get_prim_mut`] with the key already owned.
    fn get_prim_mut_by_key(&mut self, key: &String) -> (r: Option<&mut Prim<M>>)
        ensures
            r is Some <==> old(self).spec_find(key@) is Some,
            r is None ==> *final(self) == *old(self),
            match r {
                Some(q) => ({
                    let path = old(self).spec_find(key@)->0;
                    *q == old(self).prim_at(path) && Prim::replaced_at(
                        *old(self),
                        *final(self),
                        path,
                        *final(q),
                    )
                }),
                None => true,
            },
        decreases *old(self),
    {
        if shape_id_matches(&self.shape, key) {
            proof {
                assert(old(self).spec_find(key@) == Some(Seq::<int>::empty()));
            }
            return Some(self);
        }
        proof {
            assert(self.children@.skip(0) =~= self.children@);
        }
        let cn = self.children.len();
        let mut i: usize = 0;
        while i < cn
            invariant
                i <= cn,
                cn == self.children@.len(),
                *self == *old(self),
                self.spec_find(key@) == find_in_children(
                    self.children@.skip(i as int),
                    key@,
                    i as int,
                ),
            decreases cn - i,
        {
            proof {
                lemma_find_children_skip_unfold(self.children@, key@, i as int);
            }
            let found = self.children[i].has_key(key);
            if found {
                let ghost pre = *self;
                let child = &mut self.children[i];
                let r = child.get_prim_mut_by_key(key);
                proof {
                    let childpath = pre.children@[i as int].spec_find(key@)->0;
                    let path = seq![i as int] + childpath;
                    assert(pre.spec_find(key@) == Some(path));
                    assert(path.drop_first() =~= childpath);
                    assert(pre.prim_at(path) == pre.children@[i as int].prim_at(childpath));
                }
                return r;
            }
            i += 1;
        }
        proof {
            assert(self.children@.skip(cn as int) =~= Seq::<Prim<M>>::empty());
        }
        None
    }

    /// What this node's own listeners produce for the event: the node's
    /// shape afterwards and the messages, in registration order.  The hit
    /// test sees the shape as it stood when the node was reached.
    pub open spec fn own_fold(self, msg: SystemMessage) -> (Shape, Seq<Message<M>>) {
        match spec_firing(msg, self.shape) {
            Some(f) => fold_fire(self.listeners@, self.shape, f),
            None => (self.shape, Seq::<Message<M>>::empty()),
        }
    }

    /// Every message one dispatch pass over this subtree produces, in
    /// visitation order: the node's own batch first, then each child's
    /// batch, children in order.
    pub open spec fn dispatch_msgs(self, msg: SystemMessage) -> Seq<Message<M>>
        decreases self, 1int,
    {
        self.own_fold(msg).1 + children_msgs(self.children@, msg)
    }

    /// How one dispatch pass rewrites this subtree: the name, the listeners
    /// and the arity are kept, the shape is what the node's own listeners
    /// left, and each child is rewritten the same way.
    pub open spec fn dispatch_rel(pre: Prim<M>, post: Prim<M>, msg: SystemMessage) -> bool
        decreases pre, 1int,
    {
        &&& post.name@ == pre.name@
        &&& post.listeners@ == pre.listeners@
        &&& post.shape == pre.own_fold(msg).0
        &&& children_rel(pre.children@, post.children@, msg)
    }

    /// The number of nodes of this subtree.
    pub open spec fn node_count(self) -> nat
        decreases self, 1int,
    {
        1 + nodes_count(self.children@)
    }

    /// The number of messages one dispatch pass owes this subtree: every
    /// node is visited exactly once and contributes one message per
    /// listener that its firing addresses.
    pub open spec fn fired_count(self, msg: SystemMessage) -> nat
        decreases self, 1int,
    {
        let own = match spec_firing(msg, self.shape) {
            Some(f) => matching(self.listeners@, f).len(),
            None => 0,
        };
        own + children_fired_count(self.children@, msg)
    }
}

/// Unfolds [`fold_fire`] once at position `i` of a listener sequence.
proof fn lemma_fold_fire_skip_unfold<H: Handler>(s: Seq<Listener<H>>, i: int, sh: Shape, f: Firing)
    requires
        0 <= i < s.len(),
    ensures
        fold_fire(s.skip(i), sh, f) == match fire_one(s[i], sh, f) {
            Some(r) => {
                let rest = fold_fire(s.skip(i + 1), r.0, f);
                (rest.0, seq![r.1] + rest.1)
            }
            None => fold_fire(s.skip(i + 1), sh, f),
        },
{
    assert(s.skip(i).len() > 0);
    assert(s.skip(i)[0] == s[i]);
    assert(s.skip(i).drop_first() =~= s.skip(i + 1));
}

/// Unfolds [`children_msgs`] once at position `i` of a child sequence.
proof fn lemma_children_msgs_skip_unfold<M: Model>(cs: Seq<Prim<M>>, i: int, msg: SystemMessage)
    requires
        0 <= i < cs.len(),
    ensures
        children_msgs(cs.skip(i), msg) == cs[i].dispatch_msgs(msg) + children_msgs(
            cs.skip(i + 1),
            msg,
        ),
{
    assert(cs.skip(i).len() > 0);
    assert(cs.skip(i)[0] == cs[i]);
    assert(cs.skip(i).drop_first() =~= cs.skip(i + 1));
}

/// Two child sequences pointwise related by [`Prim::dispatch_rel`] are
/// related by [`children_rel`].
proof fn lemma_children_rel_pointwise<M: Model>(
    pre: Seq<Prim<M>>,
    post: Seq<Prim<M>>,
    msg: SystemMessage,
)
    requires
        post.len() == pre.len(),
        forall|j: int| 0 <= j < pre.len() ==> Prim::dispatch_rel(pre[j], post[j], msg),
    ensures
        children_rel(pre, post, msg),
    decreases pre.len(),
{
    if pre.len() > 0 {
        assert(forall|j: int|
            0 <= j < pre.drop_first().len() ==> pre.drop_first()[j] == pre[j + 1]
                && post.drop_first()[j] == post[j + 1]);
        lemma_children_rel_pointwise(pre.drop_first(), post.drop_first(), msg);
    }
}

/// The messages the children produce, children in order.
pub open spec fn children_msgs<M: Model>(cs: Seq<Prim<M>>, msg: SystemMessage) -> Seq<Message<M>>
    decreases cs, 0int,
{
    if cs.len() == 0 {
        Seq::<Message<M>>::empty()
    } else {
        cs[0].dispatch_msgs(msg) + children_msgs(cs.drop_first(), msg)
    }
}

/// Pointwise [`Prim::dispatch_rel`] over two child sequences of one length.
pub open spec fn children_rel<M: Model>(
    pre: Seq<Prim<M>>,
    post: Seq<Prim<M>>,
    msg: SystemMessage,
) -> bool
    decreases pre, 0int,
{
    &&& post.len() == pre.len()
    &&& pre.len() > 0 ==> Prim::dispatch_rel(pre[0], post[0], msg) && children_rel(
        pre.drop_first(),
        post.drop_first(),
        msg,
    )
}

/// The first match of `id` over a forest, depth-first, child by child; the
/// indices of the children are labelled starting at `base`.
pub open spec fn find_in_children<M: Model>(cs: Seq<Prim<M>>, id: Seq<char>, base: int) -> Option<
    Seq<int>,
>
    decreases cs, 0int,
{
    if cs.len() == 0 {
        None
    } else {
        match cs[0].spec_find(id) {
            Some(path) => Some(seq![base] + path),
            None => find_in_children(cs.drop_first(), id, base + 1),
        }
    }
}

/// Unfolds [`find_in_children`] once at position `i` of a child sequence.
proof fn lemma_find_children_skip_unfold<M: Model>(cs: Seq<Prim<M>>, id: Seq<char>, i: int)
    requires
        0 <= i < cs.len(),
    ensures
        find_in_children(cs.skip(i), id, i) == match cs[i].spec_find(id) {
            Some(path) => Some(seq![i] + path),
            None => find_in_children(cs.skip(i + 1), id, i + 1),
        },
{
    assert(cs.skip(i).len() > 0);
    assert(cs.skip(i)[0] == cs[i]);
    assert(cs.skip(i).drop_first() =~= cs.skip(i + 1));
}

/// Whether the shape's identifier is exactly `key`.
fn shape_id_matches(shape: &Shape, key: &String) -> (r: bool)
    ensures
        r == (shape.spec_id() == Some(key@)),
{
    match shape.id() {
        Some(s) => {
            let owned: String = s.to_owned();
            owned == *key
        }
        None => false,
    }
}

/// Every subtree of the forest composes within `i64` range under
/// `parent_global`.
pub open spec fn forest_recalc_fits<M: Model>(
    cs: Seq<Prim<M>>,
    parent_global: TransformMatrix,
) -> bool
    decreases cs, 0int,
{
    cs.len() > 0 ==> cs[0].tree_recalc_fits(parent_global) && forest_recalc_fits(
        cs.drop_first(),
        parent_global,
    )
}

/// Pointwise [`Prim::recalculated_rel`] over two child sequences of one
/// length.
pub open spec fn forest_recalculated_rel<M: Model>(
    pre: Seq<Prim<M>>,
    post: Seq<Prim<M>>,
    parent_global: TransformMatrix,
) -> bool
    decreases pre, 0int,
{
    &&& post.len() == pre.len()
    &&& pre.len() > 0 ==> Prim::recalculated_rel(pre[0], post[0], parent_global)
        && forest_recalculated_rel(pre.drop_first(), post.drop_first(), parent_global)
}

/// A forest-wide fits bound covers each of its members.
proof fn lemma_forest_recalc_fits_at<M: Model>(
    cs: Seq<Prim<M>>,
    parent_global: TransformMatrix,
    i: int,
)
    requires
        forest_recalc_fits(cs, parent_global),
        0 <= i < cs.len(),
    ensures
        cs[i].tree_recalc_fits(parent_global),
    decreases i,
{
    if i > 0 {
        assert(cs.drop_first()[i - 1] == cs[i]);
        lemma_forest_recalc_fits_at(cs.drop_first(), parent_global, i - 1);
    }
}

/// Two child sequences pointwise related by [`Prim::recalculated_rel`] are
/// related as forests.
proof fn lemma_forest_recalculated_pointwise<M: Model>(
    pre: Seq<Prim<M>>,
    post: Seq<Prim<M>>,
    parent_global: TransformMatrix,
)
    requires
        post.len() == pre.len(),
        forall|j: int|
            0 <= j < pre.len() ==> Prim::recalculated_rel(pre[j], #[trigger] post[j], parent_global),
    ensures
        forest_recalculated_rel(pre, post, parent_global),
    decreases pre.len(),
{
    if pre.len() > 0 {
        assert(forall|j: int|
            0 <= j < pre.drop_first().len() ==> pre.drop_first()[j] == pre[j + 1]
                && post.drop_first()[j] == post[j + 1]);
        lemma_forest_recalculated_pointwise(pre.drop_first(), post.drop_first(), parent_global);
    }
}

/// The merged dirtiness report of a forest: the strongest child demand
/// wins, and `UpdateView::Keep` is the identity of the merge.
pub open spec fn children_update_view<M: Model>(cs: Seq<Prim<M>>) -> UpdateView
    decreases cs, 0int,
{
    if cs.len() == 0 {
        UpdateView::Keep
    } else {
        cs[0].spec_update_view().spec_merge(children_update_view(cs.drop_first()))
    }
}

/// The number of nodes of a forest.
pub open spec fn nodes_count<M: Model>(cs: Seq<Prim<M>>) -> nat
    decreases cs, 0int,
{
    if cs.len() == 0 {
        0
    } else {
        cs[0].node_count() + nodes_count(cs.drop_first())
    }
}

/// The number of messages one dispatch pass owes a forest.
pub open spec fn children_fired_count<M: Model>(cs: Seq<Prim<M>>, msg: SystemMessage) -> nat
    decreases cs, 0int,
{
    if cs.len() == 0 {
        0
    } else {
        cs[0].fired_count(msg) + children_fired_count(cs.drop_first(), msg)
    }
}

/// Dispatch coverage: one pass over a tree visits every node exactly once,
/// independent of hit-test outcomes.  The batch holds exactly one message
/// per (node, listener) pair whose listener the node's firing addresses —
/// every node contributes its own count, hit or miss.
pub proof fn lemma_dispatch_coverage<M: Model>(p: Prim<M>, msg: SystemMessage)
    ensures
        p.dispatch_msgs(msg).len() == p.fired_count(msg),
    decreases p, 1int,
{
    match spec_firing(msg, p.shape) {
        Some(f) => {
            crate::listener::lemma_fold_fire_len(p.listeners@, p.shape, f);
        }
        None => {}
    }
    lemma_forest_coverage(p.children@, msg);
}

/// Dispatch coverage over a forest, child by child.
pub proof fn lemma_forest_coverage<M: Model>(cs: Seq<Prim<M>>, msg: SystemMessage)
    ensures
        children_msgs(cs, msg).len() == children_fired_count(cs, msg),
    decreases cs, 0int,
{
    if cs.len() > 0 {
        lemma_dispatch_coverage(cs[0], msg);
        lemma_forest_coverage(cs.drop_first(), msg);
    }
}

/// A dispatch pass keeps the structure of the tree: the same number of
/// nodes, with only shapes rewritten.
pub proof fn lemma_dispatch_keeps_nodes<M: Model>(pre: Prim<M>, post: Prim<M>, msg: SystemMessage)
    requires
        Prim::dispatch_rel(pre, post, msg),
    ensures
        post.node_count() == pre.node_count(),
    decreases pre, 1int,
{
    lemma_forest_keeps_nodes(pre.children@, post.children@, msg);
}

/// Structure preservation over a forest, child by child.
pub proof fn lemma_forest_keeps_nodes<M: Model>(
    pre: Seq<Prim<M>>,
    post: Seq<Prim<M>>,
    msg: SystemMessage,
)
    requires
        children_rel(pre, post, msg),
    ensures
        nodes_count(post) == nodes_count(pre),
    decreases pre, 0int,
{
    if pre.len() > 0 {
        lemma_dispatch_keeps_nodes(pre[0], post[0], msg);
        lemma_forest_keeps_nodes(pre.drop_first(), post.drop_first(), msg);
    }
}

/// Identifier lookup determinism: when two or more siblings share an
/// identifier, a lookup resolves to the first of them in depth-first
/// pre-order — whatever later siblings carry.  Being a function of the tree
/// and the identifier alone, the lookup answers the same on every call.
pub proof fn lemma_find_first_of_siblings<M: Model>(p: Prim<M>, id: Seq<char>, i: int)
    requires
        p.shape.spec_id() != Some(id),
        0 <= i < p.children@.len(),
        p.children@[i].shape.spec_id() == Some(id),
        forall|k: int| 0 <= k < i ==> (#[trigger] p.children@[k].spec_find(id)) is None,
    ensures
        p.spec_find(id) == Some(seq![i]),
{
    assert(p.children@[i].spec_find(id) == Some(Seq::<int>::empty()));
    lemma_find_children_first(p.children@, id, 0, i);
    assert(seq![i] + Seq::<int>::empty() =~= seq![i]);
}

/// The first match over a forest, when child `i` itself carries the
/// identifier and no earlier child's subtree holds it.
proof fn lemma_find_children_first<M: Model>(cs: Seq<Prim<M>>, id: Seq<char>, base: int, i: int)
    requires
        0 <= i < cs.len(),
        cs[i].spec_find(id) == Some(Seq::<int>::empty()),
        forall|k: int| 0 <= k < i ==> (#[trigger] cs[k].spec_find(id)) is None,
    ensures
        find_in_children(cs, id, base) == Some(seq![base + i]),
    decreases i,
{
    if i == 0 {
        assert(find_in_children(cs, id, base) == Some(seq![base] + Seq::<int>::empty()));
        assert(seq![base] + Seq::<int>::empty() =~= seq![base + 0]);
    } else {
        assert(cs[0].spec_find(id) is None);
        assert(forall|k: int|
            0 <= k < i - 1 ==> (#[trigger] cs.drop_first()[k].spec_find(id)) == cs[k
                + 1].spec_find(id));
        assert(cs.drop_first()[i - 1] == cs[i]);
        lemma_find_children_first(cs.drop_first(), id, base + 1, i - 1);
    }
}

/// Hit-test gating: a press strictly inside the node's shape fires exactly
/// the `MouseDown` listeners of that node, in order; a press outside fires
/// exactly the `Blur` listeners.  Listeners of every other kind contribute
/// nothing and are left untouched by that node's own pass.
pub proof fn lemma_mouse_down_gating<M: Model>(p: Prim<M>, press: MouseDown)
    ensures
        p.shape.spec_intersect(press.pos.x as int, press.pos.y as int) ==> ({
            let f = Firing::MouseDown(press);
            let fired = matching(p.listeners@, f);
            p.own_fold(SystemMessage::Input(InputEvent::MouseDown(press))) == fold_fire(
                fired,
                p.shape,
                f,
            ) && forall|i: int| 0 <= i < fired.len() ==> (#[trigger] fired[i]) is OnMouseDown
        }),
        !p.shape.spec_intersect(press.pos.x as int, press.pos.y as int) ==> ({
            let f = Firing::Blur(press);
            let fired = matching(p.listeners@, f);
            p.own_fold(SystemMessage::Input(InputEvent::MouseDown(press))) == fold_fire(
                fired,
                p.shape,
                f,
            ) && forall|i: int| 0 <= i < fired.len() ==> (#[trigger] fired[i]) is OnBlur
        }),
{
    let msg = SystemMessage::Input(InputEvent::MouseDown(press));
    if p.shape.spec_intersect(press.pos.x as int, press.pos.y as int) {
        let f = Firing::MouseDown(press);
        crate::listener::lemma_fold_fire_matching(p.listeners@, p.shape, f);
        crate::listener::lemma_matching_applicable(p.listeners@, f);
        assert forall|i: int|
            0 <= i < matching(p.listeners@, f).len() implies (#[trigger] matching(
            p.listeners@,
            f,
        )[i]) is OnMouseDown by {
            assert(crate::listener::applicable(matching(p.listeners@, f)[i], f));
        }
    } else {
        let f = Firing::Blur(press);
        crate::listener::lemma_fold_fire_matching(p.listeners@, p.shape, f);
        crate::listener::lemma_matching_applicable(p.listeners@, f);
        assert forall|i: int|
            0 <= i < matching(p.listeners@, f).len() implies (#[trigger] matching(
            p.listeners@,
            f,
        )[i]) is OnBlur by {
            assert(crate::listener::applicable(matching(p.listeners@, f)[i], f));
        }
    }
}

} // verus!
