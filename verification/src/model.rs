//! The application-state contract of the driver.

use vstd::prelude::*;

use crate::event::SystemMessage;
use crate::listener::Handler;
use crate::node::Prim;
use crate::view::ChangeView;

verus! {

/// The application state driven by the update cycle.
///
/// The driver owns one value of a `Model` type and the current tree.  Per
/// system event it asks the model for a state-level translation, dispatches
/// the event through the tree, folds every resulting message back into the
/// model, and then rebuilds or patches the tree as the folded demand asks.
/// Each executable method is pinned to a specification function, so the
/// driver's own contract can state the whole cycle exactly.
pub trait Model: Sized {
    type Properties;

    type Handler: Handler;

    /// Makes the initial state.
    fn create(props: Self::Properties) -> Self;

    /// What the state-level translation of a system event yields: the state
    /// afterwards and at most one application message.
    spec fn spec_system_update(self, msg: SystemMessage) -> (
        Self,
        Option<<Self::Handler as Handler>::Message>,
    );

    /// Offers a system event to the state; it may produce one message.
    fn system_update(&mut self, msg: SystemMessage) -> (r: Option<
        <Self::Handler as Handler>::Message,
    >)
        ensures
            (*final(self), r) == old(self).spec_system_update(msg),
    ;

    /// What folding one application message into the state yields: the state
    /// afterwards and the view-change demand of this step.
    spec fn spec_update(self, msg: <Self::Handler as Handler>::Message) -> (Self, ChangeView);

    /// Folds one application message into the state.
    fn update(&mut self, msg: <Self::Handler as Handler>::Message) -> (cv: ChangeView)
        ensures
            (*final(self), cv) == old(self).spec_update(msg),
    ;

    /// The tree that the state builds from scratch.
    spec fn spec_build_view(self) -> Prim<Self>;

    /// Builds a fresh tree from the state.
    fn build_view(&self) -> (view: Prim<Self>)
        ensures
            view == self.spec_build_view(),
    ;

    /// What the patch step yields: the state and the tree afterwards.
    spec fn spec_modify_view(self, view: Prim<Self>) -> (Self, Prim<Self>);

    /// Patches specific nodes of the existing tree in place.
    fn modify_view(&mut self, view: &mut Prim<Self>)
        ensures
            (*final(self), *final(view)) == old(self).spec_modify_view(*old(view)),
    ;
}

} // verus!
