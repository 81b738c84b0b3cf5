//! The driver of the update cycle.
//!
//! A [`Comp`] owns one application-state value and the current tree.  Per
//! system event it runs the cycle: translate the event at the state level,
//! dispatch it through the tree, fold every resulting message into the
//! state while merging the view-change demands, and then rebuild the tree,
//! patch it in place, or leave it untouched — whichever the strongest
//! demand asks for.

use vstd::prelude::*;

use crate::event::SystemMessage;
use crate::model::Model;
use crate::node::{Message, Prim};
use crate::view::{ChangeView, UpdateView};

verus! {

/// At most one message, as a batch.
pub open spec fn opt_msg_seq<T>(o: Option<T>) -> Seq<T> {
    match o {
        Some(m) => seq![m],
        None => Seq::<T>::empty(),
    }
}

/// Folds a batch of messages into the state, in order, merging the
/// view-change demands of the steps; the strongest demand wins.
pub open spec fn fold_update<M: Model>(m: M, cv: ChangeView, msgs: Seq<Message<M>>) -> (
    M,
    ChangeView,
)
    decreases msgs.len(),
{
    if msgs.len() == 0 {
        (m, cv)
    } else {
        let step = m.spec_update(msgs[0]);
        fold_update(step.0, cv.spec_merge(step.1), msgs.drop_first())
    }
}

/// The driver: one application-state value, the current tree, and whether
/// a cycle changed anything since the last redraw decision.
#[verifier::reject_recursive_types(M)]
pub struct Comp<M: Model> {
    pub model: M,
    pub view: Prim<M>,
    pub dirty: bool,
}

impl<M: Model> Comp<M> {
    /// How one cycle rewrites the driver.  The event is offered to the
    /// state's translator first; the tree is dispatched next; the
    /// translated message and then every listener message are folded into
    /// the state in order; and the merged demand decides: `Rebuild`
    /// discards the dispatched tree entirely and builds a fresh one from
    /// the state, `Modify` patches the dispatched tree in place, `Keep`
    /// leaves it.
    pub open spec fn cycle_rel(pre: Comp<M>, post: Comp<M>, msg: SystemMessage) -> bool {
        let step1 = pre.model.spec_system_update(msg);
        let all = opt_msg_seq(step1.1) + pre.view.dispatch_msgs(msg);
        let folded = fold_update(step1.0, ChangeView::Keep, all);
        let m2 = folded.0;
        let cv = folded.1;
        &&& post.dirty == (pre.dirty || cv != ChangeView::Keep)
        &&& exists|mid: Prim<M>|
            #[trigger] Prim::dispatch_rel(pre.view, mid, msg) && match cv {
                ChangeView::Rebuild => post.model == m2 && post.view == m2.spec_build_view(),
                ChangeView::Modify => ({
                    let patched = m2.spec_modify_view(mid);
                    post.model == patched.0 && post.view == patched.1
                }),
                ChangeView::Keep => post.model == m2 && post.view == mid,
            }
    }

    /// Makes a driver: the state builds the first tree, and the first
    /// redraw is owed.
    pub fn new(model: M) -> (c: Comp<M>)
        ensures
            c.model == model,
            c.view == model.spec_build_view(),
            c.dirty,
    {
        let view = model.build_view();
        Comp { model, view, dirty: true }
    }

    /// Runs one full cycle for the event.
    pub fn send_system_msg(&mut self, msg: SystemMessage)
        ensures
            Comp::cycle_rel(*old(self), *final(self), msg),
    {
        let ghost pre = *old(self);
        let translated = self.model.system_update(msg);
        let ghost m1 = self.model;
        let mut outputs: Vec<Message<M>> = Vec::new();
        self.view.send_system_msg(msg, &mut outputs);
        let ghost mid_view = self.view;
        let mut msgs: Vec<Message<M>> = Vec::new();
        match translated {
            Some(m) => msgs.push(m),
            None => {}
        }
        msgs.append(&mut outputs);
        let ghost all = msgs@;
        proof {
            assert(Seq::<Message<M>>::empty() + pre.view.dispatch_msgs(msg) =~= pre.view.dispatch_msgs(msg));
            assert(all =~= opt_msg_seq(pre.model.spec_system_update(msg).1)
                + pre.view.dispatch_msgs(msg));
        }
        let mut cv = ChangeView::Keep;
        while msgs.len() > 0
            invariant
                self.view == mid_view,
                self.dirty == pre.dirty,
                fold_update(m1, ChangeView::Keep, all) == fold_update(self.model, cv, msgs@),
            decreases msgs@.len(),
        {
            let ghost before = msgs@;
            let m = msgs.remove(0);
            proof {
                assert(msgs@ =~= before.drop_first());
            }
            let step_cv = self.model.update(m);
            cv = cv.merge(step_cv);
        }
        proof {
            assert(fold_update(m1, ChangeView::Keep, all) == (self.model, cv));
        }
        match cv {
            ChangeView::Rebuild => {
                self.view = self.model.build_view();
                self.dirty = true;
            }
            ChangeView::Modify => {
                let model = &mut self.model;
                let view = &mut self.view;
                model.modify_view(view);
                self.dirty = true;
            }
            ChangeView::Keep => {}
        }
        proof {
            assert(Prim::dispatch_rel(pre.view, mid_view, msg));
        }
    }

    /// A rebuild discards the prior tree wholly: when a cycle's folded
    /// demand is `Rebuild`, the tree afterwards is what the folded state
    /// builds from scratch, so a lookup for an identifier that the fresh
    /// build does not re-create finds nothing — whatever the previous tree
    /// held.
    pub proof fn lemma_rebuild_discards(
        pre: Comp<M>,
        post: Comp<M>,
        msg: SystemMessage,
        id: Seq<char>,
    )
        requires
            Comp::cycle_rel(pre, post, msg),
            ({
                let step1 = pre.model.spec_system_update(msg);
                let all = opt_msg_seq(step1.1) + pre.view.dispatch_msgs(msg);
                fold_update(step1.0, ChangeView::Keep, all).1 == ChangeView::Rebuild
            }),
            ({
                let step1 = pre.model.spec_system_update(msg);
                let all = opt_msg_seq(step1.1) + pre.view.dispatch_msgs(msg);
                fold_update(step1.0, ChangeView::Keep, all).0.spec_build_view().spec_find(id)
                    is None
            }),
        ensures
            post.view.spec_find(id) is None,
    {
    }

    /// The redraw demand of this moment: the tree's own dirtiness report,
    /// raised to `Modify` when a cycle since the last call changed state or
    /// tree.  Asking resets the record.
    pub fn update_view(&mut self) -> (r: UpdateView)
        ensures
            final(self).model == old(self).model,
            final(self).view == old(self).view,
            !final(self).dirty,
            r == old(self).view.spec_update_view().spec_merge(
                if old(self).dirty {
                    UpdateView::Modify
                } else {
                    UpdateView::Keep
                },
            ),
    {
        let tree = self.view.update_view();
        let raised = if self.dirty {
            UpdateView::Modify
        } else {
            UpdateView::Keep
        };
        self.dirty = false;
        tree.merge(raised)
    }
}

} // verus!
