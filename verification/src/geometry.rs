//! Vertex buffers, the meshes of the canonical shapes, and what is measured
//! of a mesh.
//!
//! A vertex is four components, `x`, `y`, `z = 1` and `w = 1`; three vertices
//! make a triangle; a buffer is a list of whole triangles, flattened.

use vstd::prelude::*;
use crate::constants::{one, zero, TRIANGLE_SIZE, VERTEX_SIZE};
use crate::error::{Error, ErrorView};
use crate::scalar::{lemma_units_sign, Scalar};
use crate::types::XYTuple;

verus! {

/// The four components of the vertex at a point.
pub open spec fn vertex(p: XYTuple) -> Seq<Scalar> {
    seq![p.x, p.y, one(), one()]
}

/// The twelve components of the triangle with corners `a`, `b` and `c`.
pub open spec fn triangle(a: XYTuple, b: XYTuple, c: XYTuple) -> Seq<Scalar> {
    vertex(a) + vertex(b) + vertex(c)
}

/// The point of the `i`-th vertex of a buffer.
pub open spec fn vertex_at(components: Seq<Scalar>, i: int) -> XYTuple {
    XYTuple { x: components[4 * i], y: components[4 * i + 1] }
}

/// The two triangles of the rectangle with one corner at the origin and the
/// opposite one at `(width, height)`. They share the diagonal from
/// `(width, 0)` to `(0, height)`.
pub open spec fn rectangle(width: Scalar, height: Scalar) -> Seq<Scalar> {
    let o = XYTuple { x: zero(), y: zero() };
    let a = XYTuple { x: width, y: zero() };
    let b = XYTuple { x: zero(), y: height };
    let c = XYTuple { x: width, y: height };
    triangle(o, a, b) + triangle(a, b, c)
}

/// The triangles that fan out from `origin` over the points of a rim: one
/// for every two neighbours, in the order of the rim.
pub open spec fn fan(origin: XYTuple, rim: Seq<XYTuple>) -> Seq<Scalar>
    decreases rim.len(),
{
    if rim.len() < 2 {
        Seq::empty()
    } else {
        fan(origin, rim.drop_last()) + triangle(
            origin,
            rim[rim.len() - 2],
            rim[rim.len() - 1],
        )
    }
}

/// The corners of the `k`-th triangle of a buffer.
pub open spec fn corners(components: Seq<Scalar>, k: int) -> (XYTuple, XYTuple, XYTuple) {
    (
        vertex_at(components, 3 * k),
        vertex_at(components, 3 * k + 1),
        vertex_at(components, 3 * k + 2),
    )
}

/// Whether the `i`-th vertex of a buffer has `z = 1` and `w = 1`.
pub open spec fn homogeneous(components: Seq<Scalar>, i: int) -> bool {
    components[4 * i + 2] == one() && components[4 * i + 3] == one()
}

/// A fan over `n + 1` points has `n` triangles. Triangle `k` starts at the
/// origin, goes to point `k` and ends at point `k + 1`, and every vertex has
/// `z = 1` and `w = 1`.
pub proof fn lemma_fan(origin: XYTuple, rim: Seq<XYTuple>)
    requires
        rim.len() >= 1,
    ensures
        fan(origin, rim).len() == 12 * (rim.len() - 1),
        forall|k: int|
            0 <= k < rim.len() - 1 ==> #[trigger] corners(fan(origin, rim), k) == (
                origin,
                rim[k],
                rim[k + 1],
            ),
        forall|i: int|
            0 <= i < 3 * (rim.len() - 1) ==> #[trigger] homogeneous(fan(origin, rim), i),
    decreases rim.len(),
{
    if rim.len() >= 2 {
        let head = rim.drop_last();
        let n = rim.len() - 1;
        lemma_fan(origin, head);
        let before = fan(origin, head);
        let whole = fan(origin, rim);
        // The triangles before the last one are those of the fan over the head.
        assert forall|k: int| 0 <= k < n implies #[trigger] corners(whole, k) == (
            origin,
            rim[k],
            rim[k + 1],
        ) by {
            if k < n - 1 {
                assert(corners(before, k) == (origin, head[k], head[k + 1]));
            }
        }
        assert forall|i: int| 0 <= i < 3 * n implies #[trigger] homogeneous(whole, i) by {
            if i < 3 * (n - 1) {
                assert(homogeneous(before, i));
            }
        }
    }
}

/// A point of the plane on a grid: its coordinates are whole numbers of some
/// unit of length.
pub struct GridPoint {
    pub x: int,
    pub y: int,
}

/// The place of a point with finite coordinates on the grid whose unit is
/// the `scale`-th part of `2^-149`. Every such point is on every such grid.
pub open spec fn place(p: XYTuple, scale: int) -> GridPoint {
    GridPoint { x: p.x.units() * scale, y: p.y.units() * scale }
}

/// Twice the area of the triangle `a`, `b`, `p`, with the sign of its
/// winding: above zero where `p` is to the left of the line from `a` to `b`,
/// zero where it is on the line.
pub open spec fn winding(a: GridPoint, b: GridPoint, p: GridPoint) -> int {
    (b.x - a.x) * (p.y - a.y) - (b.y - a.y) * (p.x - a.x)
}

/// Whether `p` is in the triangle with the corners `a`, `b` and `c`, its
/// edges included: it is on one side of all three edges.
pub open spec fn in_triangle(a: GridPoint, b: GridPoint, c: GridPoint, p: GridPoint) -> bool {
    let ab = winding(a, b, p);
    let bc = winding(b, c, p);
    let ca = winding(c, a, p);
    (ab >= 0 && bc >= 0 && ca >= 0) || (ab <= 0 && bc <= 0 && ca <= 0)
}

/// Whether `p` is in one of the triangles of a buffer of `n` triangles.
pub open spec fn covers(components: Seq<Scalar>, n: int, scale: int, p: GridPoint) -> bool {
    exists|k: int|
        0 <= k < n && {
            let (a, b, c) = #[trigger] corners(components, k);
            in_triangle(place(a, scale), place(b, scale), place(c, scale), p)
        }
}

/// The two triangles of a rectangle of a positive, finite width and height
/// cover the rectangle with one corner at the origin and the opposite one at
/// `(width, height)`, and nothing else: a point of a grid, however fine, is in
/// one of the triangles exactly when it is in the rectangle.
pub proof fn lemma_rectangle_covered(width: Scalar, height: Scalar, scale: int, p: GridPoint)
    requires
        width.positive() && width.finite(),
        height.positive() && height.finite(),
        scale > 0,
    ensures
        covers(rectangle(width, height), 2, scale, p) <==> {
            &&& 0 <= p.x <= width.units() * scale
            &&& 0 <= p.y <= height.units() * scale
        },
{
    lemma_units_sign(width);
    lemma_units_sign(height);
    let mesh = rectangle(width, height);
    let w = width.units() * scale;
    let h = height.units() * scale;
    assert(w > 0 && h > 0 && w * h > 0) by (nonlinear_arith)
        requires
            width.units() > 0,
            height.units() > 0,
            scale > 0,
            w == width.units() * scale,
            h == height.units() * scale,
    ;
    // The corners of the two triangles, on the grid.
    let o = GridPoint { x: 0, y: 0 };
    let a = GridPoint { x: w, y: 0 };
    let b = GridPoint { x: 0, y: h };
    let c = GridPoint { x: w, y: h };
    assert(zero().units() == 0);
    let first = corners(mesh, 0);
    let second = corners(mesh, 1);
    assert(place(first.0, scale) == o && place(first.1, scale) == a && place(first.2, scale) == b);
    assert(place(second.0, scale) == a && place(second.1, scale) == b && place(second.2, scale)
        == c);
    // The windings of both triangles, written out.
    let (x, y) = (p.x, p.y);
    assert(winding(o, a, p) == w * y && winding(a, b, p) == w * h - w * y - h * x && winding(
        b,
        o,
        p,
    ) == h * x) by (nonlinear_arith)
        requires
            o.x == 0 && o.y == 0 && a.x == w && a.y == 0 && b.x == 0 && b.y == h && p.x == x && p.y
                == y,
    ;
    assert(winding(b, c, p) == w * y - w * h && winding(c, a, p) == h * x - h * w)
        by (nonlinear_arith)
        requires
            a.x == w && a.y == 0 && b.x == 0 && b.y == h && c.x == w && c.y == h && p.x == x && p.y
                == y,
    ;
    // The sign of a product with a positive factor is that of the other factor.
    assert((w * y >= 0 <==> y >= 0) && (w * y <= 0 <==> y <= 0) && (h * x >= 0 <==> x >= 0) && (h
        * x <= 0 <==> x <= 0)) by (nonlinear_arith)
        requires
            w > 0,
            h > 0,
    ;
    assert((w * y - w * h >= 0 <==> y >= h) && (w * y - w * h <= 0 <==> y <= h) && (h * x - h * w
        >= 0 <==> x >= w) && (h * x - h * w <= 0 <==> x <= w)) by (nonlinear_arith)
        requires
            w > 0,
            h > 0,
    ;
    // No point is on the far side of all three edges of a triangle.
    assert(x <= 0 && y <= 0 ==> w * y + h * x <= 0) by (nonlinear_arith)
        requires
            w > 0,
            h > 0,
    ;
    assert(x >= w && y >= h ==> w * y + h * x >= 2 * (w * h)) by (nonlinear_arith)
        requires
            w > 0,
            h > 0,
    ;
    assert(x <= w && y <= h ==> h * x <= w * h && w * y <= w * h) by (nonlinear_arith)
        requires
            w > 0,
            h > 0,
    ;
    // The first triangle is the half of the rectangle on the side of the
    // origin of the diagonal, the second one the other half.
    assert(in_triangle(o, a, b, p) <==> (x >= 0 && y >= 0 && w * y + h * x <= w * h));
    assert(in_triangle(a, b, c, p) <==> (x <= w && y <= h && w * y + h * x >= w * h));
}

/// The outline of an ellipse as a caller sampled it: the number of steps that
/// the caller cut the circumference into, the quotient of the circumference
/// and the budget, rounded; and the points of the outline at the angles of
/// the steps, from the angle zero once around, the first angle again
/// included. Both are results of rounding arithmetic, which this crate takes
/// as they are.
#[derive(Clone, Debug, PartialEq, Eq)]
pub struct Outline {
    pub steps: i64,
    pub points: Vec<XYTuple>,
}

/// Whether an ellipse can be meshed: the radius and the budget are greater
/// than zero, there is at least one step, and the outline has one point more
/// than there are steps.
pub open spec fn meshable(
    radius: Scalar,
    segment_length_budget: Scalar,
    steps: i64,
    points: Seq<XYTuple>,
) -> bool {
    &&& radius.positive()
    &&& segment_length_budget.positive()
    &&& steps >= 1
    &&& points.len() == steps + 1
}

/// Whether the outline of an ellipse can be sampled: the radius and the
/// budget are greater than zero, there is at least one step, and the number
/// of points, one more than there are steps, is one that a list can have.
pub open spec fn samplable(radius: Scalar, segment_length_budget: Scalar, steps: i64) -> bool {
    &&& radius.positive()
    &&& segment_length_budget.positive()
    &&& 1 <= steps < usize::MAX
}

/// The number of points that the outline of an ellipse is to be sampled at,
/// one more than there are steps. It fails with `InvalidParameter` exactly
/// when the outline is not samplable.
pub fn outline_length(radius: Scalar, segment_length_budget: Scalar, steps: i64) -> (r: Result<
    usize,
    Error,
>)
    ensures
        match r {
            Ok(points) => samplable(radius, segment_length_budget, steps) && points == steps + 1,
            Err(e) => !samplable(radius, segment_length_budget, steps) && e@
                == ErrorView::InvalidParameter,
        },
{
    if !radius.is_positive() || !segment_length_budget.is_positive() || steps < 1 {
        return Err(Error::InvalidParameter);
    }
    if steps as u64 >= usize::MAX as u64 {
        return Err(Error::InvalidParameter);
    }
    Ok(steps as usize + 1)
}

/// A list of whole triangles.
#[derive(Debug, PartialEq, Eq)]
pub struct VertexBuffer {
    components: Vec<Scalar>,
}

impl View for VertexBuffer {
    type V = Seq<Scalar>;

    closed spec fn view(&self) -> Seq<Scalar> {
        self.components@
    }
}

impl VertexBuffer {
    /// What holds of every buffer: it has twelve components for every
    /// triangle.
    #[verifier::type_invariant]
    pub open spec fn whole_triangles(&self) -> bool {
        self@.len() % 12 == 0
    }

    /// Takes the components as a buffer. It fails with `InvalidParameter`
    /// exactly when they are not whole triangles.
    pub fn from_components(components: Vec<Scalar>) -> (r: Result<VertexBuffer, Error>)
        ensures
            match r {
                Ok(buffer) => components@.len() % 12 == 0 && buffer@ == components@,
                Err(e) => components@.len() % 12 != 0 && e@ == ErrorView::InvalidParameter,
            },
    {
        if components.len() % TRIANGLE_SIZE == 0 {
            Ok(VertexBuffer { components })
        } else {
            Err(Error::InvalidParameter)
        }
    }

    /// The components, twelve for every triangle.
    pub fn components(&self) -> (r: &Vec<Scalar>)
        ensures
            r@ == self@,
            r@.len() % 12 == 0,
    {
        proof {
            use_type_invariant(self);
        }
        &self.components
    }

    /// A copy of the buffer.
    pub fn duplicate(&self) -> (r: VertexBuffer)
        ensures
            r@ == self@,
    {
        proof {
            use_type_invariant(self);
        }
        let components = copy_components(&self.components);
        VertexBuffer { components }
    }

    /// The number of vertices: a fourth of the number of components.
    pub fn vertex_count(&self) -> (n: usize)
        ensures
            n == self@.len() / 4,
            n % 3 == 0,
    {
        proof {
            use_type_invariant(self);
        }
        self.components.len() / VERTEX_SIZE
    }

    /// The point of a vertex, or nothing where the buffer has no such vertex.
    pub fn vertex(&self, i: usize) -> (r: Option<XYTuple>)
        ensures
            r == if i < self@.len() / 4 {
                Some(vertex_at(self@, i as int))
            } else {
                None
            },
    {
        proof {
            use_type_invariant(self);
        }
        if i < self.components.len() / VERTEX_SIZE {
            Some(XYTuple { x: self.components[4 * i], y: self.components[4 * i + 1] })
        } else {
            None
        }
    }
}

/// A copy of a list of components.
pub fn copy_components(components: &Vec<Scalar>) -> (r: Vec<Scalar>)
    ensures
        r@ == components@,
{
    let mut copy: Vec<Scalar> = Vec::new();
    let mut i: usize = 0;
    while i < components.len()
        invariant
            i <= components@.len(),
            copy@ == components@.take(i as int),
        decreases components@.len() - i,
    {
        copy.push(components[i]);
        i += 1;
    }
    copy
}

/// The points of all vertices of a list of components, in their order: the
/// first two of every four components. Components after the last whole
/// vertex are left out. It fails with `EmptyInput` exactly when there is no
/// whole vertex.
pub fn vertex_points(components: &Vec<Scalar>) -> (r: Result<Vec<XYTuple>, Error>)
    ensures
        match r {
            Ok(points) => {
                &&& components@.len() >= 4
                &&& points@.len() == components@.len() / 4
                &&& forall|i: int|
                    0 <= i < points@.len() ==> #[trigger] points@[i] == vertex_at(components@, i)
            },
            Err(e) => components@.len() < 4 && e@ == ErrorView::EmptyInput,
        },
{
    let count: usize = components.len() / VERTEX_SIZE;
    if count == 0 {
        return Err(Error::EmptyInput);
    }
    let mut points: Vec<XYTuple> = Vec::new();
    let mut i: usize = 0;
    while i < count
        invariant
            count == components@.len() / 4,
            components@.len() <= usize::MAX,
            i <= count,
            points@.len() == i,
            forall|j: int| 0 <= j < i ==> #[trigger] points@[j] == vertex_at(components@, j),
        decreases count - i,
    {
        points.push(XYTuple { x: components[4 * i], y: components[4 * i + 1] });
        i += 1;
    }
    Ok(points)
}

/// The largest of a list of distances and zero, as numbers compare. A NaN is
/// passed over, and of equal distances the first one is taken.
pub open spec fn largest(distances: Seq<Scalar>) -> Scalar
    decreases distances.len(),
{
    if distances.len() == 0 {
        zero()
    } else {
        let before = largest(distances.drop_last());
        if distances.last().greater(before) {
            distances.last()
        } else {
            before
        }
    }
}

/// The largest of a list of distances and zero is zero or one of the
/// distances; it is not a NaN and not below zero; and no distance is greater.
pub proof fn lemma_largest(distances: Seq<Scalar>)
    ensures
        largest(distances) == zero() || distances.contains(largest(distances)),
        !largest(distances).nan(),
        largest(distances).key() >= 0,
        forall|i: int|
            0 <= i < distances.len() ==> !(#[trigger] distances[i]).greater(largest(distances)),
    decreases distances.len(),
{
    if distances.len() > 0 {
        let head = distances.drop_last();
        lemma_largest(head);
        let before = largest(head);
        if head.contains(before) {
            // What is among the distances before the last is among all of them.
            let i = choose|i: int| 0 <= i < head.len() && head[i] == before;
            assert(distances[i] == before);
        }
        assert forall|i: int| 0 <= i < distances.len() implies !(#[trigger] distances[i]).greater(
            largest(distances),
        ) by {
            if i < head.len() {
                assert(!head[i].greater(before));
            }
        }
    }
}

/// The bounding radius of a mesh, given the distances from its center to its
/// vertices: the largest of them, and zero where there is no vertex.
pub fn bounding_radius(distances: &Vec<Scalar>) -> (radius: Scalar)
    ensures
        radius == largest(distances@),
{
    let mut radius = Scalar::zero();
    let mut i: usize = 0;
    while i < distances.len()
        invariant
            i <= distances@.len(),
            radius == largest(distances@.take(i as int)),
        decreases distances@.len() - i,
    {
        proof {
            let grown = distances@.take(i + 1);
            assert(grown.drop_last() == distances@.take(i as int));
        }
        if distances[i].gt(radius) {
            radius = distances[i];
        }
        i += 1;
    }
    assert(distances@.take(i as int) == distances@);
    radius
}

/// Appends the vertex at a point.
fn push_vertex(components: &mut Vec<Scalar>, p: XYTuple)
    ensures
        final(components)@ == old(components)@ + vertex(p),
{
    components.push(p.x);
    components.push(p.y);
    components.push(Scalar::one());
    components.push(Scalar::one());
}

/// Appends the triangle with the corners `a`, `b` and `c`.
fn push_triangle(components: &mut Vec<Scalar>, a: XYTuple, b: XYTuple, c: XYTuple)
    ensures
        final(components)@ == old(components)@ + triangle(a, b, c),
{
    push_vertex(components, a);
    push_vertex(components, b);
    push_vertex(components, c);
}

/// The mesh of the rectangle with one corner at the origin and the opposite
/// one at `(width, height)`: six vertices, two triangles.
pub fn rectangle_vertices(width: Scalar, height: Scalar) -> (buffer: VertexBuffer)
    ensures
        buffer@ == rectangle(width, height),
        buffer@.len() == 24,
{
    let z = Scalar::zero();
    let o = XYTuple { x: z, y: z };
    let a = XYTuple { x: width, y: z };
    let b = XYTuple { x: z, y: height };
    let c = XYTuple { x: width, y: height };
    let mut components: Vec<Scalar> = Vec::new();
    push_triangle(&mut components, o, a, b);
    push_triangle(&mut components, a, b, c);
    VertexBuffer { components }
}

/// The mesh of the triangles that fan out from `origin` over a rim. A rim of
/// fewer than two points gives the empty mesh.
pub fn triangle_fan(origin: XYTuple, rim: &Vec<XYTuple>) -> (buffer: VertexBuffer)
    ensures
        buffer@ == fan(origin, rim@),
{
    let mut components: Vec<Scalar> = Vec::new();
    if rim.len() < 2 {
        return VertexBuffer { components };
    }
    let mut k: usize = 1;
    while k < rim.len()
        invariant
            1 <= k <= rim@.len(),
            components@ == fan(origin, rim@.take(k as int)),
            components@.len() % 12 == 0,
        decreases rim@.len() - k,
    {
        push_triangle(&mut components, origin, rim[k - 1], rim[k]);
        proof {
            let grown = rim@.take(k + 1);
            assert(grown.drop_last() == rim@.take(k as int));
        }
        k += 1;
    }
    assert(rim@.take(k as int) == rim@);
    VertexBuffer { components }
}

/// The mesh that approximates an ellipse by a fan around `origin` over the
/// points of its outline. It fails with `InvalidParameter` exactly when the
/// ellipse is not meshable: a radius or a budget that is not greater than
/// zero, no step, or an outline that does not have one point more than there
/// are steps. The mesh has three vertices for every step.
pub fn polygon_approximating_ellipse(
    radius: Scalar,
    segment_length_budget: Scalar,
    origin: XYTuple,
    outline: &Outline,
) -> (r: Result<VertexBuffer, Error>)
    ensures
        match r {
            Ok(buffer) => {
                &&& meshable(radius, segment_length_budget, outline.steps, outline.points@)
                &&& buffer@ == fan(origin, outline.points@)
                &&& buffer@.len() == 4 * (3 * outline.steps)
            },
            Err(e) => {
                &&& !meshable(radius, segment_length_budget, outline.steps, outline.points@)
                &&& e@ == ErrorView::InvalidParameter
            },
        },
{
    if !radius.is_positive() || !segment_length_budget.is_positive() || outline.steps < 1 {
        return Err(Error::InvalidParameter);
    }
    let points: usize = outline.points.len();
    if points == 0 || (points - 1) as u64 != outline.steps as u64 {
        return Err(Error::InvalidParameter);
    }
    let buffer = triangle_fan(origin, &outline.points);
    proof {
        lemma_fan(origin, outline.points@);
    }
    Ok(buffer)
}

} // verus!
