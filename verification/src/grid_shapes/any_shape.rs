//! One type for a line, a circle or a rectangle.
use vstd::prelude::*;
use crate::grid_shapes::circle::Circle;
use crate::grid_shapes::line::Line;
use crate::grid_shapes::rectangle::Rectangle;
use crate::grid_shapes::shape::Shape;

verus! {

/// A line, a circle or a rectangle.
#[derive(Debug, Clone, Copy, Eq, PartialEq)]
pub enum AnyShape {
    Line(Line),
    Circle(Circle),
    Rectangle(Rectangle),
}

impl From<Line> for AnyShape {
    fn from(value: Line) -> (shape: Self) {
        AnyShape::Line(value)
    }
}

impl vstd::std_specs::convert::FromSpecImpl<Line> for AnyShape {
    open spec fn obeys_from_spec() -> bool {
        true
    }

    open spec fn from_spec(value: Line) -> Self {
        AnyShape::Line(value)
    }
}

impl From<Circle> for AnyShape {
    fn from(value: Circle) -> (shape: Self) {
        AnyShape::Circle(value)
    }
}

impl vstd::std_specs::convert::FromSpecImpl<Circle> for AnyShape {
    open spec fn obeys_from_spec() -> bool {
        true
    }

    open spec fn from_spec(value: Circle) -> Self {
        AnyShape::Circle(value)
    }
}

impl From<Rectangle> for AnyShape {
    fn from(value: Rectangle) -> (shape: Self) {
        AnyShape::Rectangle(value)
    }
}

impl vstd::std_specs::convert::FromSpecImpl<Rectangle> for AnyShape {
    open spec fn obeys_from_spec() -> bool {
        true
    }

    open spec fn from_spec(value: Rectangle) -> Self {
        AnyShape::Rectangle(value)
    }
}

impl Shape for AnyShape {
    open spec fn valid(&self) -> bool {
        match self {
            AnyShape::Line(line) => line.valid(),
            AnyShape::Circle(circle) => circle.valid(),
            AnyShape::Rectangle(rectangle) => rectangle.valid(),
        }
    }

    open spec fn point_set(&self) -> Set<(int, int)> {
        match self {
            AnyShape::Line(line) => line.point_set(),
            AnyShape::Circle(circle) => circle.point_set(),
            AnyShape::Rectangle(rectangle) => rectangle.point_set(),
        }
    }

    open spec fn count(&self) -> int {
        match self {
            AnyShape::Line(line) => line.count(),
            AnyShape::Circle(circle) => circle.count(),
            AnyShape::Rectangle(rectangle) => rectangle.count(),
        }
    }

    fn get_count(&self) -> (count: u32) {
        match self {
            AnyShape::Line(line) => line.get_count(),
            AnyShape::Circle(circle) => circle.get_count(),
            AnyShape::Rectangle(rectangle) => rectangle.get_count(),
        }
    }

    fn contains(&self, position: (i32, i32)) -> (found: bool) {
        match self {
            AnyShape::Line(line) => line.contains(position),
            AnyShape::Circle(circle) => circle.contains(position),
            AnyShape::Rectangle(rectangle) => rectangle.contains(position),
        }
    }

    fn get_positions(&self) -> (positions: Vec<(i32, i32)>) {
        match self {
            AnyShape::Line(line) => line.get_positions(),
            AnyShape::Circle(circle) => circle.get_positions(),
            AnyShape::Rectangle(rectangle) => rectangle.get_positions(),
        }
    }
}

} // verus!
