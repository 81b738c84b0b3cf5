//! Integer affine transforms.
//!
//! A shape carries a local transform and a derived global matrix; the global
//! matrix is recomputed top-down by composing the local transform with the
//! parent's freshly computed global matrix, and only when that recompute is
//! asked for explicitly.  All entries are integer units, so composition and
//! point mapping are exact.

use vstd::prelude::*;

use crate::arith::lemma_mul_bound;

verus! {

/// A 2D affine matrix with integer entries.
///
/// The matrix maps a point `(x, y)` to `(a*x + c*y + tx, b*x + d*y + ty)`.
#[derive(Clone, Copy, Debug, PartialEq, Eq, Structural)]
pub struct TransformMatrix {
    pub a: i64,
    pub b: i64,
    pub c: i64,
    pub d: i64,
    pub tx: i64,
    pub ty: i64,
}

impl TransformMatrix {
    /// Entry `a` of `self` composed with `other` (apply `other`, then `self`).
    pub open spec fn compose_a(self, other: TransformMatrix) -> int {
        self.a * other.a + self.c * other.b
    }

    /// Entry `b` of the composition.
    pub open spec fn compose_b(self, other: TransformMatrix) -> int {
        self.b * other.a + self.d * other.b
    }

    /// Entry `c` of the composition.
    pub open spec fn compose_c(self, other: TransformMatrix) -> int {
        self.a * other.c + self.c * other.d
    }

    /// Entry `d` of the composition.
    pub open spec fn compose_d(self, other: TransformMatrix) -> int {
        self.b * other.c + self.d * other.d
    }

    /// Entry `tx` of the composition.
    pub open spec fn compose_tx(self, other: TransformMatrix) -> int {
        self.a * other.tx + self.c * other.ty + self.tx
    }

    /// Entry `ty` of the composition.
    pub open spec fn compose_ty(self, other: TransformMatrix) -> int {
        self.b * other.tx + self.d * other.ty + self.ty
    }

    /// Every entry of the composition of `self` with `other` fits in `i64`.
    pub open spec fn compose_fits(self, other: TransformMatrix) -> bool {
        &&& i64::MIN <= self.compose_a(other) <= i64::MAX
        &&& i64::MIN <= self.compose_b(other) <= i64::MAX
        &&& i64::MIN <= self.compose_c(other) <= i64::MAX
        &&& i64::MIN <= self.compose_d(other) <= i64::MAX
        &&& i64::MIN <= self.compose_tx(other) <= i64::MAX
        &&& i64::MIN <= self.compose_ty(other) <= i64::MAX
    }

    /// `self` composed with `other`: the matrix that applies `other` first
    /// and `self` second.
    pub open spec fn spec_compose(self, other: TransformMatrix) -> TransformMatrix
        recommends
            self.compose_fits(other),
    {
        TransformMatrix {
            a: self.compose_a(other) as i64,
            b: self.compose_b(other) as i64,
            c: self.compose_c(other) as i64,
            d: self.compose_d(other) as i64,
            tx: self.compose_tx(other) as i64,
            ty: self.compose_ty(other) as i64,
        }
    }

    /// The identity matrix.
    pub fn identity() -> (r: TransformMatrix)
        ensures
            r == TransformMatrix::spec_identity(),
    {
        TransformMatrix { a: 1, b: 0, c: 0, d: 1, tx: 0, ty: 0 }
    }

    /// The identity matrix as a spec value.
    pub open spec fn spec_identity() -> TransformMatrix {
        TransformMatrix { a: 1, b: 0, c: 0, d: 1, tx: 0, ty: 0 }
    }

    /// Composes `self` with `other`: the result applies `other` first and
    /// `self` second.
    pub fn compose(self, other: TransformMatrix) -> (r: TransformMatrix)
        requires
            self.compose_fits(other),
        ensures
            r == self.spec_compose(other),
    {
        proof {
            let b: int = 0x8000_0000_0000_0000;
            lemma_mul_bound(self.a as int, other.a as int, b, b);
            lemma_mul_bound(self.c as int, other.b as int, b, b);
            lemma_mul_bound(self.b as int, other.a as int, b, b);
            lemma_mul_bound(self.d as int, other.b as int, b, b);
            lemma_mul_bound(self.a as int, other.c as int, b, b);
            lemma_mul_bound(self.c as int, other.d as int, b, b);
            lemma_mul_bound(self.b as int, other.c as int, b, b);
            lemma_mul_bound(self.d as int, other.d as int, b, b);
            lemma_mul_bound(self.a as int, other.tx as int, b, b);
            lemma_mul_bound(self.c as int, other.ty as int, b, b);
            lemma_mul_bound(self.b as int, other.tx as int, b, b);
            lemma_mul_bound(self.d as int, other.ty as int, b, b);
        }
        let sa = self.a as i128;
        let sb = self.b as i128;
        let sc = self.c as i128;
        let sd = self.d as i128;
        let oa = other.a as i128;
        let ob = other.b as i128;
        let oc = other.c as i128;
        let od = other.d as i128;
        let otx = other.tx as i128;
        let oty = other.ty as i128;
        TransformMatrix {
            a: (sa * oa + sc * ob) as i64,
            b: (sb * oa + sd * ob) as i64,
            c: (sa * oc + sc * od) as i64,
            d: (sb * oc + sd * od) as i64,
            tx: (sa * otx + sc * oty + self.tx as i128) as i64,
            ty: (sb * otx + sd * oty + self.ty as i128) as i64,
        }
    }
}

/// A local transform paired with the derived global matrix.
///
/// The global matrix is meaningful only after an explicit top-down
/// [`Transform::calculate_global`] pass; a freshly made transform has the
/// identity in both places.
#[derive(Clone, Copy, Debug, PartialEq, Eq, Structural)]
pub struct Transform {
    pub local: TransformMatrix,
    pub global: TransformMatrix,
}

impl Transform {
    /// A transform with identity local and global matrices.
    pub open spec fn spec_new() -> Transform {
        Transform {
            local: TransformMatrix::spec_identity(),
            global: TransformMatrix::spec_identity(),
        }
    }

    /// Makes the identity transform.
    pub fn new() -> (r: Transform)
        ensures
            r == Transform::spec_new(),
    {
        Transform {
            local: TransformMatrix::identity(),
            global: TransformMatrix::identity(),
        }
    }

    /// Replaces the translation part of the local transform.
    pub fn with_translation(self, x: i64, y: i64) -> (r: Transform)
        ensures
            r.local == (TransformMatrix { tx: x, ty: y, ..self.local }),
            r.global == self.global,
    {
        Transform { local: TransformMatrix { tx: x, ty: y, ..self.local }, ..self }
    }

    /// Replaces the axis scale factors of the local transform.
    pub fn with_scale(self, sx: i64, sy: i64) -> (r: Transform)
        ensures
            r.local == (TransformMatrix { a: sx, d: sy, ..self.local }),
            r.global == self.global,
    {
        Transform { local: TransformMatrix { a: sx, d: sy, ..self.local }, ..self }
    }

    /// Recomputes the global matrix from the parent's freshly computed global
    /// matrix and returns it.
    pub fn calculate_global(&mut self, parent_global: TransformMatrix) -> (r: TransformMatrix)
        requires
            parent_global.compose_fits(old(self).local),
        ensures
            final(self).local == old(self).local,
            final(self).global == parent_global.spec_compose(old(self).local),
            r == final(self).global,
    {
        self.global = parent_global.compose(self.local);
        self.global
    }
}

/// A transform that only translates by `(x, y)`.
pub fn translate(x: i64, y: i64) -> (r: Transform)
    ensures
        r.local == (TransformMatrix { tx: x, ty: y, ..TransformMatrix::spec_identity() }),
        r.global == TransformMatrix::spec_identity(),
{
    Transform::new().with_translation(x, y)
}

} // verus!
