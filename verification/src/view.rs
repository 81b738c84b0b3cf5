//! Update demands produced by one cycle of the driver.
//!
//! `ChangeView` is the state-level decision about what to do with the tree
//! after a batch of messages has been folded into the model: leave it alone,
//! patch specific nodes in place, or rebuild it from scratch.  `UpdateView`
//! is the tree-local dirtiness signal gathered by walking the tree.  Both
//! carry the same combination rule: demands are ordered and merging two
//! demands keeps the stronger one.

use vstd::prelude::*;

verus! {

/// State-level decision after a cycle: `Keep < Modify < Rebuild`.
#[derive(Clone, Copy, Debug, PartialEq, Eq, Structural)]
pub enum ChangeView {
    Keep,
    Modify,
    Rebuild,
}

/// Tree-local dirtiness aggregate: `Keep < Modify`.
#[derive(Clone, Copy, Debug, PartialEq, Eq, Structural)]
pub enum UpdateView {
    Keep,
    Modify,
}

impl ChangeView {
    /// Rank of a demand in the `Keep < Modify < Rebuild` order.
    pub open spec fn rank(self) -> int {
        match self {
            ChangeView::Keep => 0,
            ChangeView::Modify => 1,
            ChangeView::Rebuild => 2,
        }
    }

    /// The stronger of two demands.
    pub open spec fn spec_merge(self, other: ChangeView) -> ChangeView {
        if self.rank() >= other.rank() {
            self
        } else {
            other
        }
    }

    /// Combines two demands; the stronger one wins.
    pub fn merge(self, other: ChangeView) -> (r: ChangeView)
        ensures
            r == self.spec_merge(other),
    {
        match (self, other) {
            (ChangeView::Rebuild, _) => ChangeView::Rebuild,
            (_, ChangeView::Rebuild) => ChangeView::Rebuild,
            (ChangeView::Modify, _) => ChangeView::Modify,
            (_, ChangeView::Modify) => ChangeView::Modify,
            (ChangeView::Keep, ChangeView::Keep) => ChangeView::Keep,
        }
    }
}

impl UpdateView {
    /// Rank of a demand in the `Keep < Modify` order.
    pub open spec fn rank(self) -> int {
        match self {
            UpdateView::Keep => 0,
            UpdateView::Modify => 1,
        }
    }

    /// The stronger of two demands.
    pub open spec fn spec_merge(self, other: UpdateView) -> UpdateView {
        if self.rank() >= other.rank() {
            self
        } else {
            other
        }
    }

    /// Combines two demands; the stronger one wins.
    pub fn merge(self, other: UpdateView) -> (r: UpdateView)
        ensures
            r == self.spec_merge(other),
    {
        match (self, other) {
            (UpdateView::Modify, _) => UpdateView::Modify,
            (_, UpdateView::Modify) => UpdateView::Modify,
            (UpdateView::Keep, UpdateView::Keep) => UpdateView::Keep,
        }
    }
}

/// Merging view-change demands is associative.
pub proof fn lemma_change_view_merge_associative(a: ChangeView, b: ChangeView, c: ChangeView)
    ensures
        a.spec_merge(b).spec_merge(c) == a.spec_merge(b.spec_merge(c)),
{
}

/// `ChangeView::Keep` is the identity of the merge, on either side.
pub proof fn lemma_change_view_merge_identity(a: ChangeView)
    ensures
        a.spec_merge(ChangeView::Keep) == a,
        ChangeView::Keep.spec_merge(a) == a,
{
}

/// `ChangeView::Rebuild` absorbs every other demand, on either side.
pub proof fn lemma_change_view_merge_rebuild(a: ChangeView)
    ensures
        a.spec_merge(ChangeView::Rebuild) == ChangeView::Rebuild,
        ChangeView::Rebuild.spec_merge(a) == ChangeView::Rebuild,
{
}

/// Merging tree-local demands is associative, `UpdateView::Keep` is its
/// identity, and `UpdateView::Modify` absorbs everything.
pub proof fn lemma_update_view_merge(a: UpdateView, b: UpdateView, c: UpdateView)
    ensures
        a.spec_merge(b).spec_merge(c) == a.spec_merge(b.spec_merge(c)),
        a.spec_merge(UpdateView::Keep) == a,
        UpdateView::Keep.spec_merge(a) == a,
        a.spec_merge(UpdateView::Modify) == UpdateView::Modify,
        UpdateView::Modify.spec_merge(a) == UpdateView::Modify,
{
}

} // verus!
