//! Inner padding of a rectangular shape, in integer units.

use vstd::prelude::*;

verus! {

/// Space kept free inside each edge of a rectangle.
#[derive(Clone, Copy, Debug, PartialEq, Eq, Structural)]
pub struct Padding {
    pub top: i64,
    pub left: i64,
    pub right: i64,
    pub bottom: i64,
}

impl Padding {
    /// Total vertical padding.
    pub fn top_and_bottom(&self) -> (r: i64)
        requires
            i64::MIN <= self.top + self.bottom <= i64::MAX,
        ensures
            r == self.top + self.bottom,
    {
        self.top + self.bottom
    }

    /// Total horizontal padding.
    pub fn left_and_right(&self) -> (r: i64)
        requires
            i64::MIN <= self.left + self.right <= i64::MAX,
        ensures
            r == self.left + self.right,
    {
        self.left + self.right
    }
}

impl Default for Padding {
    /// Zero padding on every edge.
    fn default() -> (r: Padding)
        ensures
            r == (Padding { top: 0, left: 0, right: 0, bottom: 0 }),
    {
        Padding { top: 0, left: 0, right: 0, bottom: 0 }
    }
}

impl From<i64> for Padding {
    /// The same padding on every edge.
    fn from(padding: i64) -> (r: Padding)
    {
        Padding { top: padding, left: padding, right: padding, bottom: padding }
    }
}

impl vstd::std_specs::convert::FromSpecImpl<i64> for Padding {
    open spec fn obeys_from_spec() -> bool {
        true
    }

    open spec fn from_spec(padding: i64) -> Padding {
        Padding { top: padding, left: padding, right: padding, bottom: padding }
    }
}

} // verus!
