//! Dense grid containers and stack-based mesh builders.
pub mod array2d;
pub mod array3d;
pub mod draw_array2d;
pub mod graphics_builder;
pub mod offset_builder;
pub mod shape_builder;
pub mod space;

pub use array2d::{Array2D, Index2D};
pub use array3d::{Array3D, Index3D};
pub use graphics_builder::GraphicsBuilder;
pub use offset_builder::OffsetBuilder;
pub use shape_builder::ShapeBuilder;
pub use space::{Space, Vertex};
