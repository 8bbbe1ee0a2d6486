//! Turning a two-dimensional grid into a colored mesh.
use vstd::prelude::*;
use crate::array2d::Array2D;
use crate::graphics_builder::vertex_limit;
use crate::shape_builder::ShapeBuilder;
use crate::space::{Space, Vertex, top_of};

verus! {

/// Which corner of a cell's quad the `k`-th index of its two triangles
/// names: 0 is `(x, y)`, 1 is `(x + 1, y)`, 2 is `(x, y + 1)` and 3 is
/// `(x + 1, y + 1)`.
pub open spec fn quad_corner(k: int) -> int {
    if k == 0 {
        2
    } else if k == 1 {
        1
    } else if k == 2 {
        0
    } else if k == 3 {
        2
    } else if k == 4 {
        3
    } else {
        1
    }
}

/// Where the `k`-th index of the two triangles drawn for a cell of the
/// fuzzy mesh points, relative to that cell's own vertex, when each column
/// holds `height` vertices: the corners are the cell itself, its neighbour
/// before it in its column and the two matching cells of the column before.
pub open spec fn fuzzy_offset(k: int, height: int) -> int {
    if k == 0 {
        -height
    } else if k == 1 {
        -1
    } else if k == 2 {
        -height - 1
    } else if k == 3 {
        -height
    } else if k == 4 {
        0
    } else {
        -1
    }
}

/// How many cells of the first `cols` columns of a grid `height` cells high
/// have both a neighbour before them in their column and one in the column
/// before.
pub open spec fn fuzzy_cells(cols: int, height: int) -> int {
    if cols > 0 && height > 0 {
        (cols - 1) * (height - 1)
    } else {
        0
    }
}

/// Vertex `d` of cell `(x, y)` drawn by [`draw_grid`] after `base` earlier
/// vertices: the four vertices of the cell carry the one color that `color`
/// gave for it, and vertex `d` is the corner `(x + d % 2, y + d / 2)` at
/// depth `z`, moved by `tf`.
pub open spec fn quad_vertex_drawn<S: Space, T, F: Fn(&T) -> S::Color>(
    verts: Seq<Vertex<S::Point, S::Color>>,
    base: int,
    state: Array2D<T>,
    color: F,
    tf: S::Transform,
    z: S::Depth,
    x: int,
    y: int,
    d: int,
) -> bool {
    let w = state.spec_width() as usize;
    let h = state.spec_height() as usize;
    let first = base + 4 * (x * h + y);
    &&& color.ensures((&state.cell((x as usize, y as usize)),), verts[first].color)
    &&& verts[first + d] == Vertex {
        pos: S::spec_apply(tf, S::spec_grid_point((x + d % 2) as usize, (y + d / 2) as usize, w, h, z)),
        color: verts[first].color,
    }
}

/// Draws every cell of `state` as its own quad of four vertices in the
/// cell's color and two triangles, so that no vertex is shared and edges
/// between cells stay sharp. Cells are visited column by column: cell
/// number `c` is `(c / height, c % height)`, its vertices are the four after
/// the `4 * c` drawn before it, and its six indices follow the `6 * c`
/// written before them.
///
/// `color` is an `Fn`: Verus does not support closures that borrow mutably
/// from their context.
pub fn draw_grid<S: Space, T, F: Fn(&T) -> S::Color>(
    builder: &mut ShapeBuilder<S>,
    state: &Array2D<T>,
    color: F,
    z: S::Depth,
)
    requires
        state.wf(),
        forall|t: &T| #[trigger] color.requires((t,)),
        old(builder).vertices@.len() + 4 * (state.spec_width() * state.spec_height()) <= vertex_limit(),
    ensures
        final(builder).vertices@.len() == old(builder).vertices@.len() + 4 * (state.spec_width()
            * state.spec_height()),
        final(builder).vertices@.subrange(0, old(builder).vertices@.len() as int) == old(builder).vertices@,
        final(builder).indices@.len() == old(builder).indices@.len() + 6 * (state.spec_width()
            * state.spec_height()),
        final(builder).indices@.subrange(0, old(builder).indices@.len() as int) == old(builder).indices@,
        forall|c: int, k: int|
            0 <= c < state.spec_width() * state.spec_height() && 0 <= k < 6 ==>
                #[trigger] final(builder).indices@[old(builder).indices@.len() + 6 * c + k]
                    == old(builder).vertices@.len() + 4 * c + quad_corner(k),
        forall|x: int, y: int, d: int|
            0 <= x < state.spec_width() && 0 <= y < state.spec_height() && 0 <= d < 4 ==> #[trigger] quad_vertex_drawn::<S, T, F>(final(builder).vertices@, old(builder).vertices@.len() as int, *state, color, top_of::<S>(old(builder).transforms@), z, x, y, d),
        final(builder).transforms@ == old(builder).transforms@,
        final(builder).colors@ == old(builder).colors@,
{
    let w = state.width();
    let h = state.height();
    let ghost nb = old(builder).vertices@.len() as int;
    let ghost ni = old(builder).indices@.len() as int;
    let mut i: usize = 0;
    while i < w
        invariant
            w == state.spec_width(),
            h == state.spec_height(),
            state.wf(),
            forall|t: &T| #[trigger] color.requires((t,)),
            nb == old(builder).vertices@.len(),
            ni == old(builder).indices@.len(),
            nb + 4 * (w * h) <= vertex_limit(),
            i <= w,
            builder.vertices@.len() == nb + 4 * (i * h),
            builder.vertices@.subrange(0, nb) == old(builder).vertices@,
            builder.indices@.len() == ni + 6 * (i * h),
            builder.indices@.subrange(0, ni) == old(builder).indices@,
            forall|c: int, k: int|
                0 <= c < i * h && 0 <= k < 6 ==> #[trigger] builder.indices@[ni + 6 * c + k] == nb + 4 * c
                    + quad_corner(k),
            forall|x: int, y: int, d: int|
                0 <= x < i && 0 <= y < h && 0 <= d < 4 ==> #[trigger] quad_vertex_drawn::<S, T, F>(builder.vertices@, nb, *state, color, top_of::<S>(old(builder).transforms@), z, x, y, d),
            builder.transforms@ == old(builder).transforms@,
            builder.colors@ == old(builder).colors@,
        decreases w - i,
    {
        let mut j: usize = 0;
        proof {
            assert forall|x: int, y: int, d: int|
                0 <= x < w && 0 <= y < h && 0 <= d < 4 && x * h + y < i * h implies #[trigger] quad_vertex_drawn::<S, T, F>(builder.vertices@, nb, *state, color, top_of::<S>(old(builder).transforms@), z, x, y, d) by {
                assert(x < i) by (nonlinear_arith)
                    requires 0 <= x, 0 <= y < h, x * h + y < i * h, 0 <= i;
            }
        }
        while j < h
            invariant
                w == state.spec_width(),
                h == state.spec_height(),
                state.wf(),
                forall|t: &T| #[trigger] color.requires((t,)),
                nb == old(builder).vertices@.len(),
                ni == old(builder).indices@.len(),
                nb + 4 * (w * h) <= vertex_limit(),
                i < w,
                j <= h,
                builder.vertices@.len() == nb + 4 * (i * h + j),
                builder.vertices@.subrange(0, nb) == old(builder).vertices@,
                builder.indices@.len() == ni + 6 * (i * h + j),
                builder.indices@.subrange(0, ni) == old(builder).indices@,
                forall|c: int, k: int|
                    0 <= c < i * h + j && 0 <= k < 6 ==> #[trigger] builder.indices@[ni + 6 * c + k] == nb
                        + 4 * c + quad_corner(k),
                forall|x: int, y: int, d: int|
                    0 <= x < w && 0 <= y < h && 0 <= d < 4 && x * h + y < i * h + j ==> #[trigger] quad_vertex_drawn::<S, T, F>(builder.vertices@, nb, *state, color, top_of::<S>(old(builder).transforms@), z, x, y, d),
                builder.transforms@ == old(builder).transforms@,
                builder.colors@ == old(builder).colors@,
            decreases h - j,
        {
            let ghost c0 = i * h + j;
            proof {
                assert(i * h + j < w * h) by (nonlinear_arith)
                    requires i < w, j < h;
            }
            let ghost v0 = builder.vertices@;
            let col = color(state.get((i, j)));
            builder.push_color(col);
            let tl = builder.push_vertex(S::grid_point(i, j, w, h, &z));
            builder.pop_color();
            builder.push_color(col);
            let tr = builder.push_vertex(S::grid_point(i + 1, j, w, h, &z));
            builder.pop_color();
            builder.push_color(col);
            let bl = builder.push_vertex(S::grid_point(i, j + 1, w, h, &z));
            builder.pop_color();
            builder.push_color(col);
            let br = builder.push_vertex(S::grid_point(i + 1, j + 1, w, h, &z));
            builder.pop_color();
            proof {
                let v4 = builder.vertices@;
                let tf = top_of::<S>(old(builder).transforms@);
                assert(v4.len() == v0.len() + 4);
                assert(v4.subrange(0, v0.len() as int) =~= v0);
                assert forall|d: int| 0 <= d < 4 implies #[trigger] v4[v0.len() + d] == (Vertex {
                    pos: S::spec_apply(tf, S::spec_grid_point((i + d % 2) as usize, (j + d / 2) as usize, w, h, z)),
                    color: col,
                }) by {
                    if d == 0 {
                    } else if d == 1 {
                    } else if d == 2 {
                    } else {
                    }
                }
            }
            let quad = vec![bl, tr, tl, bl, br, tr];
            let ghost before = builder.indices@;
            builder.push_indices(quad.as_slice());
            proof {
                assert(tl == nb + 4 * c0);
                assert forall|c: int, k: int|
                    0 <= c < i * h + j + 1 && 0 <= k < 6 implies #[trigger] builder.indices@[ni + 6 * c + k]
                        == nb + 4 * c + quad_corner(k) by {
                    if c < c0 {
                        assert(builder.indices@[ni + 6 * c + k] == before[ni + 6 * c + k]);
                    } else {
                        assert(builder.indices@[ni + 6 * c + k] == quad@[k]);
                    }
                }
                assert forall|x: int, y: int, d: int|
                    0 <= x < w && 0 <= y < h && 0 <= d < 4 && x * h + y < i * h + j + 1 implies #[trigger] quad_vertex_drawn::<S, T, F>(builder.vertices@, nb, *state, color, top_of::<S>(old(builder).transforms@), z, x, y, d) by {
                    if x * h + y == c0 {
                        assert(x == i && y == j) by (nonlinear_arith)
                            requires x * h + y == i * h + j, 0 <= x, 0 <= y < h, 0 <= j < h, 0 <= i;
                        assert(builder.vertices@[nb + 4 * (x * h + y)] == builder.vertices@[v0.len() as int]);
                        assert(builder.vertices@[nb + 4 * (x * h + y) + d] == builder.vertices@[v0.len() as int + d]);
                    } else {
                        assert(builder.vertices@[nb + 4 * (x * h + y)] == v0[nb + 4 * (x * h + y)]);
                        assert(builder.vertices@[nb + 4 * (x * h + y) + d] == v0[nb + 4 * (x * h + y) + d]);
                        assert(quad_vertex_drawn::<S, T, F>(v0, nb, *state, color, top_of::<S>(old(builder).transforms@), z, x, y, d));
                    }
                }
                assert(builder.vertices@.subrange(0, nb) =~= old(builder).vertices@);
                assert(builder.indices@.subrange(0, ni) =~= old(builder).indices@);
            }
            j = j + 1;
        }
        proof {
            assert(i * h + h == (i + 1) * h) by (nonlinear_arith);
            assert forall|x: int, y: int, d: int|
                0 <= x < i + 1 && 0 <= y < h && 0 <= d < 4 implies #[trigger] quad_vertex_drawn::<S, T, F>(builder.vertices@, nb, *state, color, top_of::<S>(old(builder).transforms@), z, x, y, d) by {
                assert(x * h + y < (i + 1) * h) by (nonlinear_arith)
                    requires 0 <= x < i + 1, 0 <= y < h;
            }
        }
        i = i + 1;
    }
}

/// The vertex of cell `(x, y)` drawn by [`draw_grid_fuzzy`] after `base`
/// earlier vertices: the cell's corner point at depth `z` moved by `tf`, in
/// the color that `color` gave for the cell.
pub open spec fn grid_vertex_drawn<S: Space, T, F: Fn(&T) -> S::Color>(
    verts: Seq<Vertex<S::Point, S::Color>>,
    base: int,
    state: Array2D<T>,
    color: F,
    tf: S::Transform,
    z: S::Depth,
    x: int,
    y: int,
) -> bool {
    let w = state.spec_width() as usize;
    let h = state.spec_height() as usize;
    let v = verts[base + x * h + y];
    &&& color.ensures((&state.cell((x as usize, y as usize)),), v.color)
    &&& v.pos == S::spec_apply(tf, S::spec_grid_point(x as usize, y as usize, w, h, z))
}

/// Draws `state` with one vertex per cell, at the cell's corner point and
/// in its color, so that neighbouring cells share vertices and colors blend
/// across them. Cells are visited column by column, cell `(x, y)` getting
/// vertex number `x * height + y` after those already in the builder. Each
/// cell with a cell before it in its column and one in the column before
/// adds two triangles over those four vertices; the one for cell `(x, y)`
/// comes after those of the `(x - 1) * (height - 1) + (y - 1)` such cells
/// visited before it. `color` is an `Fn`, as for [`draw_grid`].
pub fn draw_grid_fuzzy<S: Space, T, F: Fn(&T) -> S::Color>(
    builder: &mut ShapeBuilder<S>,
    state: &Array2D<T>,
    color: F,
    z: S::Depth,
)
    requires
        state.wf(),
        forall|t: &T| #[trigger] color.requires((t,)),
        old(builder).vertices@.len() + state.spec_width() * state.spec_height() <= vertex_limit(),
    ensures
        final(builder).vertices@.len() == old(builder).vertices@.len() + state.spec_width()
            * state.spec_height(),
        final(builder).vertices@.subrange(0, old(builder).vertices@.len() as int) == old(builder).vertices@,
        forall|x: int, y: int|
            0 <= x < state.spec_width() && 0 <= y < state.spec_height() ==> #[trigger] grid_vertex_drawn::<S, T, F>(final(builder).vertices@, old(builder).vertices@.len() as int, *state, color, top_of::<S>(old(builder).transforms@), z, x, y),
        final(builder).indices@.len() == old(builder).indices@.len() + 6 * fuzzy_cells(
            state.spec_width() as int,
            state.spec_height() as int,
        ),
        final(builder).indices@.subrange(0, old(builder).indices@.len() as int) == old(builder).indices@,
        forall|x: int, y: int, k: int|
            1 <= x < state.spec_width() && 1 <= y < state.spec_height() && 0 <= k < 6 ==>
                #[trigger] final(builder).indices@[old(builder).indices@.len() + 6 * ((x - 1) * (
                state.spec_height() - 1) + (y - 1)) + k] == old(builder).vertices@.len() + x
                    * state.spec_height() + y + fuzzy_offset(k, state.spec_height() as int),
        final(builder).transforms@ == old(builder).transforms@,
        final(builder).colors@ == old(builder).colors@,
{
    let w = state.width();
    let h = state.height();
    let ghost nb = old(builder).vertices@.len() as int;
    let ghost ni = old(builder).indices@.len() as int;
    let mut i: usize = 0;
    while i < w
        invariant
            w == state.spec_width(),
            h == state.spec_height(),
            state.wf(),
            forall|t: &T| #[trigger] color.requires((t,)),
            nb == old(builder).vertices@.len(),
            ni == old(builder).indices@.len(),
            nb + w * h <= vertex_limit(),
            i <= w,
            builder.vertices@.len() == nb + i * h,
            builder.vertices@.subrange(0, nb) == old(builder).vertices@,
            forall|x: int, y: int|
                0 <= x < i && 0 <= y < h ==> #[trigger] grid_vertex_drawn::<S, T, F>(builder.vertices@, nb, *state, color, top_of::<S>(old(builder).transforms@), z, x, y),
            builder.indices@.len() == ni + 6 * fuzzy_cells(i as int, h as int),
            builder.indices@.subrange(0, ni) == old(builder).indices@,
            forall|x: int, y: int, k: int|
                1 <= x < i && 1 <= y < h && 0 <= k < 6 ==> #[trigger] builder.indices@[ni + 6 * ((x - 1)
                    * (h - 1) + (y - 1)) + k] == nb + x * h + y + fuzzy_offset(k, h as int),
            builder.transforms@ == old(builder).transforms@,
            builder.colors@ == old(builder).colors@,
        decreases w - i,
    {
        let mut j: usize = 0;
        while j < h
            invariant
                w == state.spec_width(),
                h == state.spec_height(),
                state.wf(),
                forall|t: &T| #[trigger] color.requires((t,)),
                nb == old(builder).vertices@.len(),
                ni == old(builder).indices@.len(),
                nb + w * h <= vertex_limit(),
                i < w,
                j <= h,
                builder.vertices@.len() == nb + i * h + j,
                builder.vertices@.subrange(0, nb) == old(builder).vertices@,
                forall|x: int, y: int|
                    0 <= x < w && 0 <= y < h && (x < i || (x == i && y < j)) ==> #[trigger] grid_vertex_drawn::<S, T, F>(builder.vertices@, nb, *state, color, top_of::<S>(old(builder).transforms@), z, x, y),
                builder.indices@.len() == ni + 6 * (fuzzy_cells(i as int, h as int) + if i > 0 && j > 0 {
                    j - 1
                } else {
                    0
                }),
                builder.indices@.subrange(0, ni) == old(builder).indices@,
                forall|x: int, y: int, k: int|
                    1 <= x < w && 1 <= y < h && 0 <= k < 6 && (x < i || (x == i && y < j)) ==>
                        #[trigger] builder.indices@[ni + 6 * ((x - 1) * (h - 1) + (y - 1)) + k] == nb + x * h
                        + y + fuzzy_offset(k, h as int),
                builder.transforms@ == old(builder).transforms@,
                builder.colors@ == old(builder).colors@,
            decreases h - j,
        {
            proof {
                assert(i * h + j < w * h) by (nonlinear_arith)
                    requires i < w, j < h;
            }
            let ghost v0 = builder.vertices@;
            let col = color(state.get((i, j)));
            builder.push_color(col);
            let cur = builder.push_vertex(S::grid_point(i, j, w, h, &z));
            builder.pop_color();
            proof {
                let v1 = builder.vertices@;
                assert(v1.subrange(0, v0.len() as int) =~= v0);
                assert forall|x: int, y: int|
                    0 <= x < w && 0 <= y < h && (x < i || (x == i && y < j + 1)) implies #[trigger] grid_vertex_drawn::<S, T, F>(builder.vertices@, nb, *state, color, top_of::<S>(old(builder).transforms@), z, x, y) by {
                    if x == i && y == j {
                    } else {
                        assert(x * h + y < i * h + j) by (nonlinear_arith)
                            requires 0 <= x, 0 <= y < h, x < i || (x == i && y < j);
                        assert(builder.vertices@[nb + x * h + y] == v0[nb + x * h + y]);
                        assert(grid_vertex_drawn::<S, T, F>(v0, nb, *state, color, top_of::<S>(old(builder).transforms@), z, x, y));
                    }
                }
                assert(builder.vertices@.subrange(0, nb) =~= old(builder).vertices@);
            }
            let ghost e = fuzzy_cells(i as int, h as int) + if i > 0 && j > 0 {
                j - 1
            } else {
                0
            };
            if i > 0 && j > 0 {
                proof {
                    assert(h <= i * h) by (nonlinear_arith)
                        requires i >= 1, h >= 0;
                }
                let hh = h as u32;
                let left = cur - hh;
                let up = cur - 1;
                let diag = left - 1;
                let quad = vec![left, up, diag, left, cur, up];
                let ghost before = builder.indices@;
                builder.push_indices(quad.as_slice());
                proof {
                    assert(e == (i - 1) * (h - 1) + (j - 1));
                    assert forall|x: int, y: int, k: int|
                        1 <= x < w && 1 <= y < h && 0 <= k < 6 && (x < i || (x == i && y < j + 1)) implies
                            #[trigger] builder.indices@[ni + 6 * ((x - 1) * (h - 1) + (y - 1)) + k] == nb + x * h
                            + y + fuzzy_offset(k, h as int) by {
                        if x == i && y == j {
                            assert(builder.indices@[ni + 6 * e + k] == quad@[k]);
                        } else {
                            if x < i {
                                assert((x - 1) * (h - 1) + (y - 1) < x * (h - 1)) by (nonlinear_arith)
                                    requires 1 <= x, 1 <= y < h;
                                assert(x * (h - 1) <= (i - 1) * (h - 1)) by (nonlinear_arith)
                                    requires x <= i - 1, 1 <= h;
                            }
                            assert((x - 1) * (h - 1) + (y - 1) < e);
                            assert(builder.indices@[ni + 6 * ((x - 1) * (h - 1) + (y - 1)) + k] == before[ni + 6 * ((x - 1) * (h - 1) + (y - 1)) + k]);
                        }
                    }
                    assert(builder.indices@.subrange(0, ni) =~= old(builder).indices@);
                }
            }
            j = j + 1;
        }
        proof {
            assert(fuzzy_cells(i + 1, h as int) == fuzzy_cells(i as int, h as int) + if i > 0 && h > 0 {
                h - 1
            } else {
                0
            }) by (nonlinear_arith);
            assert(i * h + h == (i + 1) * h) by (nonlinear_arith);
        }
        i = i + 1;
    }
}

} // verus!
