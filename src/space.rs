//! The geometry that the builders are generic over.
use vstd::prelude::*;

verus! {

/// The coordinate space a builder draws in: what a point, a color and a
/// transform are, and the few operations the builders need on them. The
/// builders only move these values around; the arithmetic lives in the
/// implementation, which must be deterministic: each operation returns
/// what its spec function names for the same arguments.
pub trait Space {
    type Point: Copy;
    type Color: Copy;
    type Transform: Copy;
    type Depth: Copy;

    /// The transform that leaves every point where it is.
    spec fn spec_identity() -> Self::Transform;

    /// The transform that applies `inner` first and `outer` after it.
    spec fn spec_compose(outer: Self::Transform, inner: Self::Transform) -> Self::Transform;

    /// `p` moved by `tf`.
    spec fn spec_apply(tf: Self::Transform, p: Self::Point) -> Self::Point;

    /// The color used while no color is pushed.
    spec fn spec_default_color() -> Self::Color;

    /// The point at depth `z` for grid corner `(x, y)` of a `width` x
    /// `height` grid, in normalized device coordinates
    /// `(2x / width - 1, 2y / height - 1)`.
    spec fn spec_grid_point(x: usize, y: usize, width: usize, height: usize, z: Self::Depth) -> Self::Point;

    fn identity() -> (r: Self::Transform)
        ensures
            r == Self::spec_identity(),
    ;

    fn compose(outer: &Self::Transform, inner: &Self::Transform) -> (r: Self::Transform)
        ensures
            r == Self::spec_compose(*outer, *inner),
    ;

    fn apply(tf: &Self::Transform, p: &Self::Point) -> (r: Self::Point)
        ensures
            r == Self::spec_apply(*tf, *p),
    ;

    fn default_color() -> (r: Self::Color)
        ensures
            r == Self::spec_default_color(),
    ;

    fn grid_point(x: usize, y: usize, width: usize, height: usize, z: &Self::Depth) -> (r: Self::Point)
        ensures
            r == Self::spec_grid_point(x, y, width, height, *z),
    ;
}

/// The transform in force for a transform stack: its top, or the identity
/// when it is empty.
pub open spec fn top_of<S: Space>(s: Seq<S::Transform>) -> S::Transform {
    if s.len() > 0 {
        s.last()
    } else {
        S::spec_identity()
    }
}

/// The color in force for a color stack: its top, or the default color
/// when it is empty.
pub open spec fn color_of<S: Space>(s: Seq<S::Color>) -> S::Color {
    if s.len() > 0 {
        s.last()
    } else {
        S::spec_default_color()
    }
}

/// `v` with its position moved by `tf` and its color kept.
pub open spec fn moved<S: Space>(tf: S::Transform, v: Vertex<S::Point, S::Color>) -> Vertex<S::Point, S::Color> {
    Vertex { pos: S::spec_apply(tf, v.pos), color: v.color }
}

/// One vertex of a mesh: a position and a color.
#[derive(Clone, Copy)]
pub struct Vertex<P, C> {
    pub pos: P,
    pub color: C,
}

} // verus!
