//! Visual primitives and their hit-testing.
//!
//! A [`Shape`] is a closed union over rectangle, circle, path, text and
//! group.  Each variant carries its geometry, optional paint, a transparency,
//! an optional stable identifier and its own [`Transform`].  Hit-testing asks
//! whether a point, given in global coordinates, lies inside the shape once
//! the shape's resolved global matrix is taken into account.
//!
//! Geometry is exact integer arithmetic.  A point `p` lies inside a shape
//! with global matrix `M` when the preimage `M⁻¹(p)` lies inside the local
//! geometry; the test is carried out with determinant-scaled coordinates so
//! that no division is needed.  Inputs beyond [`GEOM_LIMIT`] are treated as
//! out of range and never hit.  Paths report no containment (a conservative
//! stub: listeners gated on pointer position never fire on a bare path), and
//! text reports none either, since the core knows no font metrics; groups
//! carry no geometry of their own by design.

use vstd::prelude::*;

use crate::arith::lemma_mul_bound;
use crate::padding::Padding;
use crate::transform::{Transform, TransformMatrix};

verus! {

/// Largest magnitude of a coordinate, extent or matrix entry that takes part
/// in hit-testing.
pub const GEOM_LIMIT: i64 = 0x10_0000;

/// A color, either opaque or with an alpha channel.
#[derive(Clone, Copy, Debug, PartialEq, Eq, Structural)]
pub enum Color {
    RGB(u8, u8, u8),
    RGBA(u8, u8, u8, u8),
}

/// How the end of a stroked line is drawn.
#[derive(Clone, Copy, Debug, PartialEq, Eq, Structural)]
pub enum LineCap {
    Butt,
    Round,
    Square,
}

/// How the corner between two stroked segments is drawn.
#[derive(Clone, Copy, Debug, PartialEq, Eq, Structural)]
pub enum LineJoin {
    Miter,
    Round,
    Bevel,
}

/// Interior paint of a shape.
#[derive(Clone, Copy, Debug, PartialEq, Eq, Structural)]
pub struct Fill {
    pub color: Color,
}

/// Outline paint of a shape.
#[derive(Clone, Copy, Debug, PartialEq, Eq, Structural)]
pub struct Stroke {
    pub color: Color,
    pub width: i64,
    pub line_cap: LineCap,
    pub line_join: LineJoin,
}

impl Default for Stroke {
    /// A hairline black stroke.
    fn default() -> (r: Stroke)
        ensures
            r == (Stroke {
                color: Color::RGB(0, 0, 0),
                width: 1,
                line_cap: LineCap::Butt,
                line_join: LineJoin::Miter,
            }),
    {
        Stroke { color: Color::RGB(0, 0, 0), width: 1, line_cap: LineCap::Butt, line_join: LineJoin::Miter }
    }
}

/// A rectangular clip region with its own transform.
#[derive(Clone, Copy, Debug, PartialEq, Eq, Structural)]
pub struct ClipRect {
    pub width: i64,
    pub height: i64,
    pub transform: Transform,
}

/// Optional clipping of a shape's rendering.
#[derive(Clone, Copy, Debug, PartialEq, Eq, Structural)]
pub enum Clip {
    Disabled,
    Rect(ClipRect),
}

/// The value lies within the hit-testing range.
pub open spec fn coord_in_bounds(v: int) -> bool {
    -(GEOM_LIMIT as int) <= v <= GEOM_LIMIT as int
}

/// Every entry of the matrix lies within the hit-testing range.
pub open spec fn matrix_in_bounds(m: TransformMatrix) -> bool {
    &&& coord_in_bounds(m.a as int)
    &&& coord_in_bounds(m.b as int)
    &&& coord_in_bounds(m.c as int)
    &&& coord_in_bounds(m.d as int)
    &&& coord_in_bounds(m.tx as int)
    &&& coord_in_bounds(m.ty as int)
}

/// Determinant of the linear part of `m`.
pub open spec fn matrix_det(m: TransformMatrix) -> int {
    m.a * m.d - m.b * m.c
}

/// First determinant-scaled local coordinate of the point `(px, py)` under
/// the inverse of `m`: `matrix_det(m)` times the local x coordinate.
pub open spec fn local_x_scaled(m: TransformMatrix, px: int, py: int) -> int {
    m.d * (px - m.tx) - m.c * (py - m.ty)
}

/// Second determinant-scaled local coordinate: `matrix_det(m)` times the
/// local y coordinate.
pub open spec fn local_y_scaled(m: TransformMatrix, px: int, py: int) -> int {
    m.a * (py - m.ty) - m.b * (px - m.tx)
}

/// The preimage of `(px, py)` under `m` lies in the local axis-aligned box
/// `[0, w] × [0, h]`.  A singular matrix contains nothing.
pub open spec fn box_preimage_contains(m: TransformMatrix, w: int, h: int, px: int, py: int) -> bool {
    let det = matrix_det(m);
    let ux = local_x_scaled(m, px, py);
    let uy = local_y_scaled(m, px, py);
    if det > 0 {
        0 <= ux <= det * w && 0 <= uy <= det * h
    } else if det < 0 {
        det * w <= ux <= 0 && det * h <= uy <= 0
    } else {
        false
    }
}

/// The preimage of `(px, py)` under `m` lies in the local disc of radius `r`
/// centered at the origin.  A singular matrix contains nothing.
pub open spec fn disc_preimage_contains(m: TransformMatrix, r: int, px: int, py: int) -> bool {
    let det = matrix_det(m);
    let ux = local_x_scaled(m, px, py);
    let uy = local_y_scaled(m, px, py);
    det != 0 && ux * ux + uy * uy <= (det * r) * (det * r)
}

/// A point hits a rectangle of extent `w × h` under the global matrix `m`:
/// everything is in range and the preimage lies in the local box.
pub open spec fn rect_hit(m: TransformMatrix, w: int, h: int, px: int, py: int) -> bool {
    &&& matrix_in_bounds(m)
    &&& coord_in_bounds(w)
    &&& coord_in_bounds(h)
    &&& coord_in_bounds(px)
    &&& coord_in_bounds(py)
    &&& box_preimage_contains(m, w, h, px, py)
}

/// A point hits a circle of radius `r` under the global matrix `m`.
pub open spec fn circle_hit(m: TransformMatrix, r: int, px: int, py: int) -> bool {
    &&& matrix_in_bounds(m)
    &&& coord_in_bounds(r)
    &&& coord_in_bounds(px)
    &&& coord_in_bounds(py)
    &&& disc_preimage_contains(m, r, px, py)
}

/// The value lies within the hit-testing range.
fn coord_ok(v: i64) -> (r: bool)
    ensures
        r == coord_in_bounds(v as int),
{
    -GEOM_LIMIT <= v && v <= GEOM_LIMIT
}

/// Every entry of the matrix lies within the hit-testing range.
fn matrix_ok(m: &TransformMatrix) -> (r: bool)
    ensures
        r == matrix_in_bounds(*m),
{
    coord_ok(m.a) && coord_ok(m.b) && coord_ok(m.c) && coord_ok(m.d) && coord_ok(m.tx)
        && coord_ok(m.ty)
}

/// Bounds every product that the hit tests form from in-range inputs.
proof fn lemma_hit_products_bounded(m: TransformMatrix, px: int, py: int)
    requires
        matrix_in_bounds(m),
        coord_in_bounds(px),
        coord_in_bounds(py),
    ensures
        -0x4_0000_0000_0000 <= m.d * (px - m.tx) <= 0x4_0000_0000_0000,
        -0x4_0000_0000_0000 <= m.c * (py - m.ty) <= 0x4_0000_0000_0000,
        -0x4_0000_0000_0000 <= m.a * (py - m.ty) <= 0x4_0000_0000_0000,
        -0x4_0000_0000_0000 <= m.b * (px - m.tx) <= 0x4_0000_0000_0000,
        -0x200_0000_0000 <= m.a * m.d <= 0x200_0000_0000,
        -0x200_0000_0000 <= m.b * m.c <= 0x200_0000_0000,
{
    let l: int = GEOM_LIMIT as int;
    lemma_mul_bound(m.d as int, px - m.tx, l, 2 * l);
    lemma_mul_bound(m.c as int, py - m.ty, l, 2 * l);
    lemma_mul_bound(m.a as int, py - m.ty, l, 2 * l);
    lemma_mul_bound(m.b as int, px - m.tx, l, 2 * l);
    lemma_mul_bound(m.a as int, m.d as int, l, l);
    lemma_mul_bound(m.b as int, m.c as int, l, l);
}

/// Exact test of [`rect_hit`].
fn rect_hit_test(m: &TransformMatrix, w: i64, h: i64, px: i64, py: i64) -> (r: bool)
    ensures
        r == rect_hit(*m, w as int, h as int, px as int, py as int),
{
    if !(matrix_ok(m) && coord_ok(w) && coord_ok(h) && coord_ok(px) && coord_ok(py)) {
        return false;
    }
    proof {
        lemma_hit_products_bounded(*m, px as int, py as int);
        lemma_mul_bound(matrix_det(*m), w as int, 0x400_0000_0000, GEOM_LIMIT as int);
        lemma_mul_bound(matrix_det(*m), h as int, 0x400_0000_0000, GEOM_LIMIT as int);
    }
    let dx = px - m.tx;
    let dy = py - m.ty;
    let ux = m.d * dx - m.c * dy;
    let uy = m.a * dy - m.b * dx;
    let det = m.a * m.d - m.b * m.c;
    if det > 0 {
        0 <= ux && ux <= det * w && 0 <= uy && uy <= det * h
    } else if det < 0 {
        det * w <= ux && ux <= 0 && det * h <= uy && uy <= 0
    } else {
        false
    }
}

/// Exact test of [`circle_hit`].
fn circle_hit_test(m: &TransformMatrix, rad: i64, px: i64, py: i64) -> (r: bool)
    ensures
        r == circle_hit(*m, rad as int, px as int, py as int),
{
    if !(matrix_ok(m) && coord_ok(rad) && coord_ok(px) && coord_ok(py)) {
        return false;
    }
    proof {
        lemma_hit_products_bounded(*m, px as int, py as int);
        lemma_mul_bound(matrix_det(*m), rad as int, 0x400_0000_0000, GEOM_LIMIT as int);
    }
    let dx = px - m.tx;
    let dy = py - m.ty;
    let ux = m.d * dx - m.c * dy;
    let uy = m.a * dy - m.b * dx;
    let det = m.a * m.d - m.b * m.c;
    if det == 0 {
        return false;
    }
    let sr = det * rad;
    proof {
        lemma_mul_bound(ux as int, ux as int, 0x8_0000_0000_0000, 0x8_0000_0000_0000);
        lemma_mul_bound(uy as int, uy as int, 0x8_0000_0000_0000, 0x8_0000_0000_0000);
        lemma_mul_bound(sr as int, sr as int, 0x4000_0000_0000_0000, 0x4000_0000_0000_0000);
    }
    let ux2 = ux as i128 * ux as i128;
    let uy2 = uy as i128 * uy as i128;
    let sr2 = sr as i128 * sr as i128;
    ux2 + uy2 <= sr2
}

/// An axis-aligned rectangle of extent `width × height`, positioned by its
/// transform.
#[derive(Clone, Debug, PartialEq)]
pub struct Rect {
    pub id: Option<String>,
    pub width: i64,
    pub height: i64,
    pub padding: Padding,
    pub transparency: u8,
    pub stroke: Option<Stroke>,
    pub fill: Option<Fill>,
    pub transform: Transform,
}

/// A circle centered at the local origin, positioned by its transform.
#[derive(Clone, Debug, PartialEq)]
pub struct Circle {
    pub id: Option<String>,
    pub radius: i64,
    pub transparency: u8,
    pub stroke: Option<Stroke>,
    pub fill: Option<Fill>,
    pub transform: Transform,
}

/// A run of text, positioned by its transform.
#[derive(Clone, Debug, PartialEq)]
pub struct Text {
    pub id: Option<String>,
    pub content: String,
    pub font_name: String,
    pub font_size: i64,
    pub transparency: u8,
    pub fill: Option<Fill>,
    pub transform: Transform,
}

/// A container with no geometry of its own; its transparency, when set,
/// fades all of its descendants.
#[derive(Clone, Debug, PartialEq)]
pub struct Group {
    pub id: Option<String>,
    pub transparency: Option<u8>,
    pub transform: Transform,
}

/// One step of a path outline.
#[derive(Clone, Copy, Debug, PartialEq, Eq)]
pub enum PathCommand {
    Move([i64; 2]),
    MoveRel([i64; 2]),
    Line([i64; 2]),
    LineRel([i64; 2]),
    LineAlonX(i64),
    LineAlonXRel(i64),
    LineAlonY(i64),
    LineAlonYRel(i64),
    Close,
    BezCtrl([i64; 2]),
    BezCtrlRel([i64; 2]),
    BezReflectCtrl,
    QuadBezTo([i64; 2]),
    QuadBezToRel([i64; 2]),
    CubBezTo([i64; 2]),
    CubBezToRel([i64; 2]),
}

/// A free-form outline given by a command list.
#[derive(Clone, Debug, PartialEq)]
pub struct Path {
    pub id: Option<String>,
    pub cmd: Vec<PathCommand>,
    pub transparency: u8,
    pub stroke: Option<Stroke>,
    pub fill: Option<Fill>,
    pub clip: Clip,
    pub transform: Transform,
}

impl Path {
    /// The identifier, if one is set.
    pub fn id(&self) -> (r: Option<&str>)
        ensures
            r is Some <==> self.id is Some,
            r is Some ==> r->0@ == self.id->0@,
    {
        match &self.id {
            Some(s) => Some(s.as_str()),
            None => None,
        }
    }

    /// The clip's transform and the path's own transform both compose with
    /// `parent_global` within `i64` range.
    pub open spec fn recalc_fits(self, parent_global: TransformMatrix) -> bool {
        &&& parent_global.compose_fits(self.transform.local)
        &&& match self.clip {
            Clip::Disabled => true,
            Clip::Rect(cr) => parent_global.compose_fits(cr.transform.local),
        }
    }

    /// The path after a recompute of its global matrices from
    /// `parent_global`.
    pub open spec fn spec_recalculated(self, parent_global: TransformMatrix) -> Path {
        Path {
            clip: match self.clip {
                Clip::Disabled => Clip::Disabled,
                Clip::Rect(cr) => Clip::Rect(ClipRect {
                    transform: Transform {
                        global: parent_global.spec_compose(cr.transform.local),
                        ..cr.transform
                    },
                    ..cr
                }),
            },
            transform: Transform {
                global: parent_global.spec_compose(self.transform.local),
                ..self.transform
            },
            ..self
        }
    }

    /// Recomputes the global matrices of the path and of its clip region
    /// from the parent's freshly computed global matrix.
    pub fn recalculate_transform(&mut self, parent_global: TransformMatrix) -> (r: TransformMatrix)
        requires
            old(self).recalc_fits(parent_global),
        ensures
            *final(self) == old(self).spec_recalculated(parent_global),
            r == final(self).transform.global,
    {
        match &mut self.clip {
            Clip::Rect(cr) => {
                cr.transform.calculate_global(parent_global);
            }
            Clip::Disabled => {}
        }
        self.transform.calculate_global(parent_global)
    }

    /// Whether the point lies inside the outline.  Containment for free-form
    /// paths is deliberately unresolved: this always answers no, so pointer
    /// events are never gated onto a bare path.
    pub fn intersect(&self, x: i64, y: i64) -> (r: bool)
        ensures
            !r,
    {
        let _ = x;
        let _ = y;
        false
    }
}

/// A visual primitive: one of the closed set of variants.
#[derive(Clone, Debug, PartialEq)]
pub enum Shape {
    Rect(Rect),
    Circle(Circle),
    Path(Path),
    Text(Text),
    Group(Group),
}

impl Shape {
    /// The identifier of the shape, as a spec value.
    pub open spec fn spec_id(self) -> Option<Seq<char>> {
        match self.id_field() {
            Some(s) => Some(s@),
            None => None,
        }
    }

    /// The identifier field of the variant.
    pub open spec fn id_field(self) -> Option<String> {
        match self {
            Shape::Rect(r) => r.id,
            Shape::Circle(c) => c.id,
            Shape::Path(p) => p.id,
            Shape::Text(t) => t.id,
            Shape::Group(g) => g.id,
        }
    }

    /// The shape with its identifier field replaced.
    pub open spec fn spec_with_id(self, id: Option<String>) -> Shape {
        match self {
            Shape::Rect(r) => Shape::Rect(Rect { id, ..r }),
            Shape::Circle(c) => Shape::Circle(Circle { id, ..c }),
            Shape::Path(p) => Shape::Path(Path { id, ..p }),
            Shape::Text(t) => Shape::Text(Text { id, ..t }),
            Shape::Group(g) => Shape::Group(Group { id, ..g }),
        }
    }

    /// The transform of the variant.
    pub open spec fn spec_transform(self) -> Transform {
        match self {
            Shape::Rect(r) => r.transform,
            Shape::Circle(c) => c.transform,
            Shape::Path(p) => p.transform,
            Shape::Text(t) => t.transform,
            Shape::Group(g) => g.transform,
        }
    }

    /// The shape with its transform replaced.
    pub open spec fn spec_with_transform(self, transform: Transform) -> Shape {
        match self {
            Shape::Rect(r) => Shape::Rect(Rect { transform, ..r }),
            Shape::Circle(c) => Shape::Circle(Circle { transform, ..c }),
            Shape::Path(p) => Shape::Path(Path { transform, ..p }),
            Shape::Text(t) => Shape::Text(Text { transform, ..t }),
            Shape::Group(g) => Shape::Group(Group { transform, ..g }),
        }
    }

    /// Whether the point `(x, y)`, in global coordinates, lies inside the
    /// shape under its resolved global matrix.  Rectangles and circles test
    /// their geometry; paths and text answer no (see the module note), and a
    /// group has no geometry of its own.
    pub open spec fn spec_intersect(self, x: int, y: int) -> bool {
        match self {
            Shape::Rect(r) => rect_hit(
                r.transform.global,
                r.width as int,
                r.height as int,
                x,
                y,
            ),
            Shape::Circle(c) => circle_hit(c.transform.global, c.radius as int, x, y),
            Shape::Path(_) => false,
            Shape::Text(_) => false,
            Shape::Group(_) => false,
        }
    }

    /// The identifier, if one is set.
    pub fn id(&self) -> (r: Option<&str>)
        ensures
            r is Some <==> self.spec_id() is Some,
            r is Some ==> Some(r->0@) == self.spec_id(),
    {
        match self {
            Shape::Rect(r) => match &r.id {
                Some(s) => Some(s.as_str()),
                None => None,
            },
            Shape::Circle(c) => match &c.id {
                Some(s) => Some(s.as_str()),
                None => None,
            },
            Shape::Path(p) => match &p.id {
                Some(s) => Some(s.as_str()),
                None => None,
            },
            Shape::Text(t) => match &t.id {
                Some(s) => Some(s.as_str()),
                None => None,
            },
            Shape::Group(g) => match &g.id {
                Some(s) => Some(s.as_str()),
                None => None,
            },
        }
    }

    /// Replaces the identifier.
    pub fn set_id(&mut self, id: String)
        ensures
            *final(self) == old(self).spec_with_id(Some(id)),
    {
        match self {
            Shape::Rect(r) => r.id = Some(id),
            Shape::Circle(c) => c.id = Some(id),
            Shape::Path(p) => p.id = Some(id),
            Shape::Text(t) => t.id = Some(id),
            Shape::Group(g) => g.id = Some(id),
        }
    }

    /// The shape's transform.
    pub fn transform(&self) -> (r: &Transform)
        ensures
            *r == self.spec_transform(),
    {
        match self {
            Shape::Rect(r) => &r.transform,
            Shape::Circle(c) => &c.transform,
            Shape::Path(p) => &p.transform,
            Shape::Text(t) => &t.transform,
            Shape::Group(g) => &g.transform,
        }
    }

    /// Mutable access to the shape's transform.
    pub fn transform_mut(&mut self) -> (r: &mut Transform)
        ensures
            *r == old(self).spec_transform(),
            *final(self) == old(self).spec_with_transform(*final(r)),
    {
        match self {
            Shape::Rect(r) => &mut r.transform,
            Shape::Circle(c) => &mut c.transform,
            Shape::Path(p) => &mut p.transform,
            Shape::Text(t) => &mut t.transform,
            Shape::Group(g) => &mut g.transform,
        }
    }

    /// Mutable access to the group variant, if this shape is a group.
    pub fn group_mut(&mut self) -> (r: Option<&mut Group>)
        ensures
            match r {
                Some(g) => *old(self) is Group && *g == (*old(self))->Group_0 && *final(self)
                    == Shape::Group(*final(g)),
                None => !(*old(self) is Group) && *final(self) == *old(self),
            },
    {
        match self {
            Shape::Group(g) => Some(g),
            _ => None,
        }
    }

    /// Every matrix this shape recomputes composes with `parent_global`
    /// within `i64` range.
    pub open spec fn recalc_fits(self, parent_global: TransformMatrix) -> bool {
        match self {
            Shape::Path(p) => p.recalc_fits(parent_global),
            _ => parent_global.compose_fits(self.spec_transform().local),
        }
    }

    /// The shape after a recompute of its global matrices from
    /// `parent_global`.
    pub open spec fn spec_recalculated(self, parent_global: TransformMatrix) -> Shape {
        match self {
            Shape::Path(p) => Shape::Path(p.spec_recalculated(parent_global)),
            _ => self.spec_with_transform(
                Transform {
                    global: parent_global.spec_compose(self.spec_transform().local),
                    ..self.spec_transform()
                },
            ),
        }
    }

    /// Recomputes the shape's global matrix — and, for a path, its clip's —
    /// from the parent's freshly computed global matrix, and returns it.
    pub fn recalculate_transform(&mut self, parent_global: TransformMatrix) -> (r: TransformMatrix)
        requires
            old(self).recalc_fits(parent_global),
        ensures
            *final(self) == old(self).spec_recalculated(parent_global),
            r == final(self).spec_transform().global,
    {
        match self {
            Shape::Rect(rect) => rect.transform.calculate_global(parent_global),
            Shape::Circle(c) => c.transform.calculate_global(parent_global),
            Shape::Path(p) => p.recalculate_transform(parent_global),
            Shape::Text(t) => t.transform.calculate_global(parent_global),
            Shape::Group(g) => g.transform.calculate_global(parent_global),
        }
    }

    /// Whether the point `(x, y)` lies inside the shape.
    pub fn intersect(&self, x: i64, y: i64) -> (r: bool)
        ensures
            r == self.spec_intersect(x as int, y as int),
    {
        match self {
            Shape::Rect(rect) => rect_hit_test(&rect.transform.global, rect.width, rect.height, x, y),
            Shape::Circle(c) => circle_hit_test(&c.transform.global, c.radius, x, y),
            Shape::Path(p) => p.intersect(x, y),
            Shape::Text(_) => false,
            Shape::Group(_) => false,
        }
    }
}

} // verus!
