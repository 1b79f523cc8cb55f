//! A row-major walk over the lattice points of a rectangle.
use vstd::prelude::*;
use vstd::arithmetic::div_mod::lemma_fundamental_div_mod_converse;
use vstd::std_specs::convert::FromSpec;
use crate::grid_shapes::rectangle::Rectangle;
use crate::lattice::{point_of, points_of};

verus! {

/// The number of points in each row of the walk from `min` to `max`: both
/// ends count, and a row is never empty.
pub open spec fn rect_columns(min: (int, int), max: (int, int)) -> int {
    if max.0 < min.0 {
        1
    } else {
        max.0 - min.0 + 1
    }
}

/// The number of rows of the walk from `min` to `max`: both ends count, and
/// there is none where `max` lies below `min`.
pub open spec fn rect_rows(min: (int, int), max: (int, int)) -> int {
    if max.1 < min.1 {
        0
    } else {
        max.1 - min.1 + 1
    }
}

/// The points of the walk from `min` to `max`, row by row from `min` on.
pub open spec fn rect_points(min: (int, int), max: (int, int)) -> Seq<(int, int)> {
    Seq::new(
        (rect_columns(min, max) * rect_rows(min, max)) as nat,
        |i: int| (min.0 + i % rect_columns(min, max), min.1 + i / rect_columns(min, max)),
    )
}

/// An iterator over a rectangle.
#[derive(Debug, Clone)]
pub struct RectIter {
    /// How far the walk stands from the minimum corner.
    offset_x: i64,
    offset_y: i64,
    /// How far the maximum corner lies from the minimum corner.
    max_offset_x: i64,
    max_offset_y: i64,
    /// The minimum corner point of the rect.
    min_x: i32,
    min_y: i32,
}

impl RectIter {
    /// The corner at which the walk began.
    pub closed spec fn min_point(&self) -> (int, int) {
        (self.min_x as int, self.min_y as int)
    }

    /// The corner at which the walk ends.
    pub closed spec fn max_point(&self) -> (int, int) {
        (self.min_x + self.max_offset_x, self.min_y + self.max_offset_y)
    }

    /// The number of points that the walk has passed.
    pub closed spec fn passed(&self) -> int {
        self.offset_y * rect_columns(self.min_point(), self.max_point()) + self.offset_x
    }

    /// The walk stands on a point of its rectangle, or at its end.
    pub closed spec fn wf(&self) -> bool {
        &&& -0xffff_ffff <= self.max_offset_x <= 0xffff_ffff
        &&& -0xffff_ffff <= self.max_offset_y <= 0xffff_ffff
        &&& i32::MIN <= self.min_x + self.max_offset_x <= i32::MAX
        &&& i32::MIN <= self.min_y + self.max_offset_y <= i32::MAX
        &&& 0 <= self.offset_x < rect_columns(self.min_point(), self.max_point())
        &&& 0 <= self.offset_y <= rect_rows(self.min_point(), self.max_point())
        &&& self.offset_y == rect_rows(self.min_point(), self.max_point()) ==> self.offset_x == 0
        &&& self.max_offset_y < 0 ==> self.offset_y == 0
    }

    /// The points that are still to come, in their order.
    pub open spec fn remaining(&self) -> Seq<(int, int)> {
        rect_points(self.min_point(), self.max_point()).skip(self.passed())
    }

    /// Creates a new rectangle iterator.
    pub fn new(min: (i32, i32), max: (i32, i32)) -> (iter: Self)
        ensures
            iter.wf(),
            iter.min_point() == point_of(min),
            iter.max_point() == point_of(max),
            iter.passed() == 0,
            iter.remaining() == rect_points(point_of(min), point_of(max)),
    {
        let iter = Self {
            min_x: min.0,
            min_y: min.1,
            max_offset_x: max.0 as i64 - min.0 as i64,
            max_offset_y: max.1 as i64 - min.1 as i64,
            offset_x: 0,
            offset_y: 0,
        };
        proof {
            assert(0 * rect_columns(point_of(min), point_of(max)) + 0 == 0) by (nonlinear_arith);
            assert(rect_points(point_of(min), point_of(max)).skip(0) =~= rect_points(
                point_of(min),
                point_of(max),
            ));
        }
        iter
    }

    /// The next point of the walk, if there is one.
    pub fn next(&mut self) -> (item: Option<(i32, i32)>)
        requires
            old(self).wf(),
        ensures
            final(self).wf(),
            final(self).min_point() == old(self).min_point(),
            final(self).max_point() == old(self).max_point(),
            match item {
                Some(p) => {
                    &&& old(self).remaining().len() > 0
                    &&& point_of(p) == old(self).remaining()[0]
                    &&& final(self).remaining() == old(self).remaining().skip(1)
                    &&& final(self).passed() == old(self).passed() + 1
                },
                None => {
                    &&& old(self).remaining().len() == 0
                    &&& *final(self) == *old(self)
                },
            },
    {
        let ghost columns = rect_columns(self.min_point(), self.max_point());
        let ghost rows = rect_rows(self.min_point(), self.max_point());
        let ghost all = rect_points(self.min_point(), self.max_point());
        proof {
            assert(self.offset_y * columns <= rows * columns) by (nonlinear_arith)
                requires
                    self.offset_y <= rows,
                    0 <= columns,
            ;
            assert(columns * rows == rows * columns) by (nonlinear_arith);
        }
        if self.offset_y > self.max_offset_y {
            return None;
        }
        let p: (i64, i64) = (self.offset_x, self.offset_y);
        proof {
            assert((p.1 + 1) * columns == p.1 * columns + columns) by (nonlinear_arith);
            assert((p.1 + 1) * columns <= rows * columns) by (nonlinear_arith)
                requires
                    p.1 + 1 <= rows,
                    0 <= columns,
            ;
            lemma_fundamental_div_mod_converse(self.passed(), columns, p.1 as int, p.0 as int);
        }
        self.offset_x += 1;
        if self.offset_x > self.max_offset_x {
            self.offset_x = 0;
            self.offset_y += 1;
        }
        proof {
            assert(self.passed() == old(self).passed() + 1);
            assert(all.skip(old(self).passed()).skip(1) =~= all.skip(self.passed()));
        }
        Some(((self.min_x as i64 + p.0) as i32, (self.min_y as i64 + p.1) as i32))
    }

    /// The points that are still to come, in their order.
    pub fn collect(self) -> (points: Vec<(i32, i32)>)
        requires
            self.wf(),
        ensures
            points_of(points@) =~= self.remaining(),
    {
        let mut iter = self;
        let mut points: Vec<(i32, i32)> = Vec::new();
        let ghost all = self.remaining();
        proof {
            assert(all.skip(0) =~= all);
        }
        loop
            invariant
                iter.wf(),
                all == self.remaining(),
                points@.len() <= all.len(),
                iter.remaining() =~= all.skip(points@.len() as int),
                points_of(points@) =~= all.take(points@.len() as int),
            ensures
                points_of(points@) =~= all,
            decreases all.len() - points@.len(),
        {
            let ghost before = points@;
            let ghost rest = iter.remaining();
            match iter.next() {
                Some(p) => {
                    points.push(p);
                    proof {
                        assert(rest[0] == all[before.len() as int]);
                        assert(rest.skip(1) =~= all.skip(points@.len() as int));
                        assert(points_of(points@) =~= points_of(before).push(point_of(p)));
                        assert(all.take(points@.len() as int) =~= all.take(
                            before.len() as int,
                        ).push(all[before.len() as int]));
                    }
                },
                None => {
                    proof {
                        assert(all.take(points@.len() as int) =~= all);
                    }
                    break ;
                },
            }
        }
        points
    }
}

impl From<Rectangle> for RectIter {
    fn from(rect: Rectangle) -> (iter: Self) {
        Self {
            min_x: rect.min.0,
            min_y: rect.min.1,
            max_offset_x: rect.max.0 as i64 - rect.min.0 as i64,
            max_offset_y: rect.max.1 as i64 - rect.min.1 as i64,
            offset_x: 0,
            offset_y: 0,
        }
    }
}

impl vstd::std_specs::convert::FromSpecImpl<Rectangle> for RectIter {
    open spec fn obeys_from_spec() -> bool {
        true
    }

    /// The walk over `rect` from its minimum corner on.
    closed spec fn from_spec(rect: Rectangle) -> Self {
        RectIter {
            min_x: rect.min.0,
            min_y: rect.min.1,
            max_offset_x: (rect.max.0 - rect.min.0) as i64,
            max_offset_y: (rect.max.1 - rect.min.1) as i64,
            offset_x: 0,
            offset_y: 0,
        }
    }
}

/// The walk that `from` makes of a rectangle begins at its minimum corner
/// and has all the points of the walk between its corners before it.
pub proof fn lemma_from_rectangle(rect: Rectangle)
    ensures
        <RectIter as FromSpec<Rectangle>>::from_spec(rect).wf(),
        <RectIter as FromSpec<Rectangle>>::from_spec(rect).remaining() == rect_points(
            point_of(rect.min),
            point_of(rect.max),
        ),
{
    assert(0 * rect_columns(point_of(rect.min), point_of(rect.max)) + 0 == 0) by (nonlinear_arith);
    assert(rect_points(point_of(rect.min), point_of(rect.max)).skip(0) =~= rect_points(
        point_of(rect.min),
        point_of(rect.max),
    ));
}

} // verus!
