//! Walks over the points of shapes.

pub mod rect_iter;

pub use self::rect_iter::RectIter;
