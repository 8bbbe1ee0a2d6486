use idek_basics::draw_array2d::{draw_grid, draw_grid_fuzzy};
use idek_basics::{Array2D, GraphicsBuilder, OffsetBuilder, ShapeBuilder, Space, Vertex};
use nalgebra::{Point3, Similarity3, Vector3};

struct Ndc;

impl Space for Ndc {
    type Point = [f32; 3];
    type Color = [f32; 3];
    type Transform = Similarity3<f32>;
    type Depth = f32;

    fn spec_identity() -> Similarity3<f32> {
        Self::identity()
    }

    fn spec_compose(outer: Similarity3<f32>, inner: Similarity3<f32>) -> Similarity3<f32> {
        Self::compose(&outer, &inner)
    }

    fn spec_apply(tf: Similarity3<f32>, p: [f32; 3]) -> [f32; 3] {
        Self::apply(&tf, &p)
    }

    fn spec_default_color() -> [f32; 3] {
        Self::default_color()
    }

    fn spec_grid_point(x: usize, y: usize, width: usize, height: usize, z: f32) -> [f32; 3] {
        Self::grid_point(x, y, width, height, &z)
    }

    fn identity() -> Similarity3<f32> {
        Similarity3::identity()
    }

    fn compose(outer: &Similarity3<f32>, inner: &Similarity3<f32>) -> Similarity3<f32> {
        outer * inner
    }

    fn apply(tf: &Similarity3<f32>, p: &[f32; 3]) -> [f32; 3] {
        (tf * Point3::from(*p)).into()
    }

    fn default_color() -> [f32; 3] {
        [0.5; 3]
    }

    fn grid_point(x: usize, y: usize, width: usize, height: usize, z: &f32) -> [f32; 3] {
        [
            (x as f32 / width as f32) * 2. - 1.,
            (y as f32 / height as f32) * 2. - 1.,
            *z,
        ]
    }
}

fn shift(x: f32, y: f32, z: f32) -> Similarity3<f32> {
    Similarity3::new(Vector3::new(x, y, z), Vector3::zeros(), 1.)
}

fn close(a: [f32; 3], b: [f32; 3]) -> bool {
    a.iter().zip(b.iter()).all(|(p, q)| (p - q).abs() < 1e-5)
}

fn vert(pos: [f32; 3], color: [f32; 3]) -> Vertex<[f32; 3], [f32; 3]> {
    Vertex { pos, color }
}

#[test]
fn push_vertex_counts_up() {
    let mut b: GraphicsBuilder<u8> = GraphicsBuilder::new();
    for k in 0..10u32 {
        assert_eq!(b.push_vertex(k as u8), k);
    }
    assert_eq!(b.vertices.len(), 10);
    assert!(b.indices.is_empty());
}

#[test]
fn graphics_push_indices_and_clear() {
    let mut b: GraphicsBuilder<char> = GraphicsBuilder::new();
    b.push_vertex('a');
    b.push_indices(&[0, 0, 0]);
    b.push_indices(&[7]);
    assert_eq!(b.indices, vec![0, 0, 0, 7]);
    b.clear();
    assert!(b.vertices.is_empty());
    assert!(b.indices.is_empty());
    assert_eq!(b.push_vertex('b'), 0);
}

#[test]
fn offset_push_vertex_moves_position_keeps_color() {
    let mut b: OffsetBuilder<Ndc> = OffsetBuilder::new();
    assert_eq!(b.push_vertex(vert([1., 2., 3.], [0.1, 0.2, 0.3])), 0);
    b.push_tf(shift(10., 0., 0.));
    assert_eq!(b.push_vertex(vert([1., 2., 3.], [0.4, 0.5, 0.6])), 1);
    assert!(close(b.vertices[0].pos, [1., 2., 3.]));
    assert!(close(b.vertices[1].pos, [11., 2., 3.]));
    assert_eq!(b.vertices[1].color, [0.4, 0.5, 0.6]);
}

#[test]
fn transforms_nest_parent_then_child() {
    let a = shift(1., 2., 3.);
    let s = Similarity3::from_scaling(2.);
    let p = [1., 1., 1.];
    let mut b: ShapeBuilder<Ndc> = ShapeBuilder::new();
    b.push_tf(a);
    b.push_tf(s);
    b.push_vertex(p);
    let expected: [f32; 3] = (a * (s * Point3::from(p))).into();
    assert!(close(b.vertices[0].pos, expected));
    assert!(close(b.vertices[0].pos, [3., 4., 5.]));
    let popped = b.pop_tf().unwrap();
    assert!(close(Ndc::apply(&popped, &p), [3., 4., 5.]));
    b.push_vertex(p);
    assert!(close(b.vertices[1].pos, [2., 3., 4.]));
    b.pop_tf();
    assert!(b.pop_tf().is_none());
    b.push_vertex(p);
    assert!(close(b.vertices[2].pos, p));
}

#[test]
fn offset_transforms_nest() {
    let mut b: OffsetBuilder<Ndc> = OffsetBuilder::new();
    b.push_tf(Similarity3::from_scaling(3.));
    b.push_tf(shift(1., 0., 0.));
    b.push_vertex(vert([0., 0., 0.], [0.; 3]));
    assert!(close(b.vertices[0].pos, [3., 0., 0.]));
    b.pop_tf();
    b.push_vertex(vert([1., 0., 0.], [0.; 3]));
    assert!(close(b.vertices[1].pos, [3., 0., 0.]));
}

#[test]
fn get_tf_is_identity_when_empty() {
    let mut b: ShapeBuilder<Ndc> = ShapeBuilder::new();
    let tf = b.get_tf();
    assert!(close(Ndc::apply(&tf, &[4., 5., 6.]), [4., 5., 6.]));
    assert!(b.transforms.is_empty());
}

#[test]
fn colors_shadow_and_restore() {
    let mut b: ShapeBuilder<Ndc> = ShapeBuilder::new();
    assert_eq!(b.get_color(), [0.5; 3]);
    b.push_color([1., 0., 0.]);
    b.push_tf(shift(5., 5., 5.));
    b.push_color([0., 1., 0.]);
    assert_eq!(b.get_color(), [0., 1., 0.]);
    assert_eq!(b.pop_color(), Some([0., 1., 0.]));
    assert_eq!(b.get_color(), [1., 0., 0.]);
    b.push_vertex([0., 0., 0.]);
    assert_eq!(b.vertices[0].color, [1., 0., 0.]);
    assert_eq!(b.pop_color(), Some([1., 0., 0.]));
    assert_eq!(b.pop_color(), None);
    b.push_vertex([0., 0., 0.]);
    assert_eq!(b.vertices[1].color, [0.5; 3]);
}

#[test]
fn append_offsets_indices_and_transforms() {
    let mut other: ShapeBuilder<Ndc> = ShapeBuilder::new();
    other.push_tf(shift(0., 1., 0.));
    other.push_color([0., 0., 1.]);
    other.push_vertex([0., 0., 0.]);
    other.push_vertex([1., 0., 0.]);
    other.push_indices(&[0, 1, 1]);

    let mut b: ShapeBuilder<Ndc> = ShapeBuilder::new();
    b.push_vertex([0., 0., 0.]);
    b.push_vertex([0., 0., 0.]);
    b.push_vertex([0., 0., 0.]);
    b.push_indices(&[0, 1, 2]);
    b.push_tf(shift(10., 0., 0.));
    b.append(&other);

    assert_eq!(b.vertices.len(), 5);
    assert_eq!(b.indices, vec![0, 1, 2, 3, 4, 4]);
    assert!(close(b.vertices[3].pos, [10., 1., 0.]));
    assert!(close(b.vertices[4].pos, [11., 1., 0.]));
    assert_eq!(b.vertices[4].color, [0., 0., 1.]);
    assert_eq!(other.vertices.len(), 2);
    assert_eq!(other.indices, vec![0, 1, 1]);
    assert!(close(other.vertices[1].pos, [1., 1., 0.]));
}

#[test]
fn offset_append_and_clear() {
    let mut other: OffsetBuilder<Ndc> = OffsetBuilder::new();
    other.push_vertex(vert([1., 1., 1.], [0.2; 3]));
    other.push_indices(&[0]);
    let mut b: OffsetBuilder<Ndc> = OffsetBuilder::new();
    b.push_vertex(vert([0., 0., 0.], [0.; 3]));
    b.append(&other);
    b.append(&other);
    assert_eq!(b.indices, vec![1, 2]);
    assert_eq!(b.vertices.len(), 3);
    b.push_tf(shift(1., 0., 0.));
    b.clear();
    assert!(b.vertices.is_empty() && b.indices.is_empty());
    assert_eq!(b.transforms.len(), 1);
}

#[test]
fn hard_edge_grid_two_by_two() {
    let grid = Array2D::from_array(2, vec![0u8, 1, 2, 3]);
    let mut b: ShapeBuilder<Ndc> = ShapeBuilder::new();
    draw_grid(&mut b, &grid, |v: &u8| [*v as f32, 0., 0.], 0.25);
    assert_eq!(b.vertices.len(), 16);
    assert_eq!(b.indices.len(), 24);
    assert_eq!(&b.indices[..6], &[2, 1, 0, 2, 3, 1]);
    assert_eq!(&b.indices[18..], &[14, 13, 12, 14, 15, 13]);
    // cell (0, 1) is the second one drawn
    assert_eq!(b.vertices[4].color, [2., 0., 0.]);
    assert!(close(b.vertices[0].pos, [-1., -1., 0.25]));
    assert!(close(b.vertices[3].pos, [0., 0., 0.25]));
    assert!(b.colors.is_empty());
}

#[test]
fn fuzzy_grid_two_by_two() {
    let grid = Array2D::from_array(2, vec![0u8, 1, 2, 3]);
    let mut b: ShapeBuilder<Ndc> = ShapeBuilder::new();
    draw_grid_fuzzy(&mut b, &grid, |v: &u8| [0., *v as f32, 0.], 0.);
    assert_eq!(b.vertices.len(), 4);
    assert_eq!(b.indices, vec![1, 2, 0, 1, 3, 2]);
    assert_eq!(b.vertices[1].color, [0., 2., 0.]);
    assert!(close(b.vertices[3].pos, [0., 0., 0.]));
}

#[test]
fn fuzzy_grid_three_by_two_after_existing_vertex() {
    let grid: Array2D<u8> = Array2D::new(3, 2);
    let mut b: ShapeBuilder<Ndc> = ShapeBuilder::new();
    b.push_vertex([0.; 3]);
    draw_grid_fuzzy(&mut b, &grid, |_: &u8| [1.; 3], 0.);
    assert_eq!(b.vertices.len(), 7);
    assert_eq!(b.indices, vec![2, 3, 1, 2, 4, 3, 4, 5, 3, 4, 6, 5]);
}

#[test]
fn fuzzy_grid_single_column_draws_no_triangles() {
    let grid: Array2D<u8> = Array2D::new(1, 4);
    let mut b: ShapeBuilder<Ndc> = ShapeBuilder::new();
    draw_grid_fuzzy(&mut b, &grid, |_: &u8| [1.; 3], 0.);
    assert_eq!(b.vertices.len(), 4);
    assert!(b.indices.is_empty());
}

#[test]
fn builders_default_to_empty() {
    let g: GraphicsBuilder<u8> = Default::default();
    assert!(g.vertices.is_empty() && g.indices.is_empty());
    let o: OffsetBuilder<Ndc> = Default::default();
    assert!(o.vertices.is_empty() && o.transforms.is_empty());
    let s: ShapeBuilder<Ndc> = Default::default();
    assert!(s.colors.is_empty() && s.transforms.is_empty() && s.indices.is_empty());
}

#[test]
fn grid_corners_follow_current_transform() {
    let grid: Array2D<u8> = Array2D::new(1, 1);
    let mut b: ShapeBuilder<Ndc> = ShapeBuilder::new();
    b.push_tf(shift(0., 0., 1.));
    draw_grid(&mut b, &grid, |_: &u8| [0.25; 3], 0.5);
    assert!(close(b.vertices[0].pos, [-1., -1., 1.5]));
    assert!(close(b.vertices[1].pos, [1., -1., 1.5]));
    assert!(close(b.vertices[2].pos, [-1., 1., 1.5]));
    assert!(close(b.vertices[3].pos, [1., 1., 1.5]));
    assert!(b.vertices.iter().all(|v| v.color == [0.25; 3]));
    let mut f: ShapeBuilder<Ndc> = ShapeBuilder::new();
    f.push_tf(Similarity3::from_scaling(2.));
    draw_grid_fuzzy(&mut f, &Array2D::<u8>::new(2, 2), |_: &u8| [0.; 3], 1.);
    assert!(close(f.vertices[1].pos, [-2., 0., 2.]));
}
