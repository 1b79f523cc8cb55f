//! Rasterized shapes on the integer lattice.

pub mod any_shape;
pub mod circle;
pub mod iter;
pub mod line;
pub mod octant;
pub mod point_set;
pub mod rectangle;
pub mod shape;

pub use self::any_shape::AnyShape;
pub use self::circle::Circle;
pub use self::line::Line;
pub use self::octant::Octant;
pub use self::rectangle::Rectangle;
pub use self::shape::Shape;
