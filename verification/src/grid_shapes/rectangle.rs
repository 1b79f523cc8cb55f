//! An axis-aligned rectangle between two corners, both included.
use vstd::prelude::*;
use vstd::arithmetic::div_mod::{
    lemma_div_pos_is_pos, lemma_fundamental_div_mod, lemma_fundamental_div_mod_converse,
    lemma_mod_bound,
};
use crate::grid_shapes::iter::rect_iter::{rect_columns, rect_points, rect_rows, RectIter};
use crate::grid_shapes::shape::Shape;
use crate::lattice::{point_of, points_of};

verus! {

/// Half of `n`, rounded towards zero.
pub open spec fn half_toward_zero(n: int) -> int {
    if n < 0 {
        -((-n) / 2)
    } else {
        n / 2
    }
}

/// The lattice points of the box between `min` and `max`, both included.
pub open spec fn box_points(min: (int, int), max: (int, int)) -> Set<(int, int)> {
    Set::new(|p: (int, int)| min.0 <= p.0 <= max.0 && min.1 <= p.1 <= max.1)
}

/// A 2D rectangle.
#[derive(Debug, Clone, Copy, Eq, PartialEq)]
pub struct Rectangle {
    /// The minimum coordinates of the rectangle.
    pub min: (i32, i32),
    /// The maximum coordinates of the rectangle.
    pub max: (i32, i32),
}

impl Default for Rectangle {
    fn default() -> (rect: Self)
        ensures
            rect.min == (0i32, 0i32),
            rect.max == (0i32, 0i32),
    {
        Self::new_with_size((0, 0), (0, 0))
    }
}

impl Rectangle {
    /// The minimum corner is not beyond the maximum corner on either axis.
    pub open spec fn wf(&self) -> bool {
        self.min.0 <= self.max.0 && self.min.1 <= self.max.1
    }

    /// The rectangle between two corners given in any order: on each axis
    /// the smaller coordinate goes to the minimum, the larger to the maximum.
    pub open spec fn spec_new(a: (i32, i32), b: (i32, i32)) -> Rectangle {
        Rectangle {
            min: (if a.0 <= b.0 { a.0 } else { b.0 }, if a.1 <= b.1 { a.1 } else { b.1 }),
            max: (if a.0 <= b.0 { b.0 } else { a.0 }, if a.1 <= b.1 { b.1 } else { a.1 }),
        }
    }

    /// The closed boxes of the two rectangles share a point.
    pub open spec fn spec_intersects(&self, other: Rectangle) -> bool {
        self.min.0 <= other.max.0 && self.max.0 >= other.min.0 && self.min.1 <= other.max.1
            && self.max.1 >= other.min.1
    }

    /// Creates a new rectangle.
    #[inline]
    pub fn new(min: (i32, i32), max: (i32, i32)) -> (rect: Self)
        ensures
            rect.wf(),
            rect == Self::spec_new(min, max),
    {
        let (left, right) = if min.0 <= max.0 { (min.0, max.0) } else { (max.0, min.0) };
        let (bottom, top) = if min.1 <= max.1 { (min.1, max.1) } else { (max.1, min.1) };
        Self { min: (left, bottom), max: (right, top) }
    }

    /// Creates a new rectangle with the given size.
    #[inline]
    pub fn new_with_size(min: (i32, i32), dimensions: (u32, u32)) -> (rect: Self)
        requires
            min.0 + dimensions.0 <= i32::MAX,
            min.1 + dimensions.1 <= i32::MAX,
        ensures
            rect.wf(),
            rect.min == min,
            rect.max.0 == min.0 + dimensions.0,
            rect.max.1 == min.1 + dimensions.1,
    {
        let max: (i32, i32) = (
            (min.0 as i64 + dimensions.0 as i64) as i32,
            (min.1 as i64 + dimensions.1 as i64) as i32,
        );
        Self::new(min, max)
    }
}

impl Rectangle {
    /// Get the width of the rectangle.
    #[inline]
    pub fn width(&self) -> (width: i32)
        requires
            i32::MIN <= self.max.0 - self.min.0 <= i32::MAX,
        ensures
            width == self.max.0 - self.min.0,
    {
        self.max.0 - self.min.0
    }

    /// Get the height of the rectangle.
    #[inline]
    pub fn height(&self) -> (height: i32)
        requires
            i32::MIN <= self.max.1 - self.min.1 <= i32::MAX,
        ensures
            height == self.max.1 - self.min.1,
    {
        self.max.1 - self.min.1
    }

    /// Get the minimum point of the rectangle.
    #[inline]
    pub fn min(&self) -> (min: (i32, i32))
        ensures
            min == self.min,
    {
        self.min
    }

    /// Get the maximum point of the rectangle.
    #[inline]
    pub fn max(&self) -> (max: (i32, i32))
        ensures
            max == self.max,
    {
        self.max
    }

    /// Check if the rectangle is square.
    #[inline]
    pub fn is_square(&self) -> (square: bool)
        ensures
            square == (self.max.0 - self.min.0 == self.max.1 - self.min.1),
    {
        let diff: (i64, i64) = (
            self.max.0 as i64 - self.min.0 as i64,
            self.max.1 as i64 - self.min.1 as i64,
        );
        diff.0 == diff.1
    }
}

impl Rectangle {
    /// The point halfway between the corners, each coordinate rounded
    /// towards zero.
    #[inline]
    pub fn center(&self) -> (center: (i32, i32))
        ensures
            center.0 == half_toward_zero(self.min.0 + self.max.0),
            center.1 == half_toward_zero(self.min.1 + self.max.1),
    {
        (half(self.min.0 as i64 + self.max.0 as i64), half(self.min.1 as i64 + self.max.1 as i64))
    }

    /// The smaller of the two `x` coordinates.
    #[inline]
    pub fn left(&self) -> (left: i32)
        ensures
            left == if self.min.0 <= self.max.0 { self.min.0 } else { self.max.0 },
    {
        if self.min.0 <= self.max.0 {
            self.min.0
        } else {
            self.max.0
        }
    }

    /// The larger of the two `x` coordinates.
    #[inline]
    pub fn right(&self) -> (right: i32)
        ensures
            right == if self.min.0 <= self.max.0 { self.max.0 } else { self.min.0 },
    {
        if self.min.0 <= self.max.0 {
            self.max.0
        } else {
            self.min.0
        }
    }

    /// The larger of the two `y` coordinates.
    #[inline]
    pub fn top(&self) -> (top: i32)
        ensures
            top == if self.min.1 <= self.max.1 { self.max.1 } else { self.min.1 },
    {
        if self.min.1 <= self.max.1 {
            self.max.1
        } else {
            self.min.1
        }
    }

    /// The smaller of the two `y` coordinates.
    #[inline]
    pub fn bottom(&self) -> (bottom: i32)
        ensures
            bottom == if self.min.1 <= self.max.1 { self.min.1 } else { self.max.1 },
    {
        if self.min.1 <= self.max.1 {
            self.min.1
        } else {
            self.max.1
        }
    }

    /// Check if this rectangle intersects another rectangle.
    #[inline]
    pub fn intersects(&self, other: Self) -> (overlap: bool)
        ensures
            overlap == self.spec_intersects(other),
    {
        self.min.0 <= other.max.0 && self.max.0 >= other.min.0 && self.min.1 <= other.max.1
            && self.max.1 >= other.min.1
    }

    /// The walk over the points of the rectangle, row by row from the
    /// minimum corner to the maximum corner, both included.
    #[inline]
    pub fn into_iter(self) -> (iter: RectIter)
        ensures
            iter.wf(),
            iter.remaining() == rect_points(point_of(self.min), point_of(self.max)),
    {
        RectIter::new(self.min, self.max)
    }

    /// Calls a function for each x/y point in the rectangle
    pub fn for_each<F>(&self, mut f: F) where F: FnMut((i32, i32))
        requires
            forall|p: (i32, i32)|
                rect_points(point_of(self.min), point_of(self.max)).contains(point_of(p))
                    ==> #[trigger] call_requires(f, (p,)),
    {
        let mut iter = RectIter::new(self.min, self.max);
        let ghost all = iter.remaining();
        let ghost f0 = f;
        loop
            invariant
                iter.wf(),
                f == f0,
                forall|i: int|
                    0 <= i < iter.remaining().len() ==> all.contains(
                        #[trigger] iter.remaining()[i],
                    ),
                forall|p: (i32, i32)| all.contains(point_of(p)) ==> #[trigger] call_requires(f, (p,)),
            decreases iter.remaining().len(),
        {
            let ghost rest = iter.remaining();
            match iter.next() {
                Some(p) => {
                    proof {
                        assert(all.contains(rest[0]));
                        assert forall|i: int| 0 <= i < iter.remaining().len() implies all.contains(
                            #[trigger] iter.remaining()[i],
                        ) by {
                            assert(iter.remaining()[i] == rest[i + 1]);
                        }
                    }
                    f(p);
                },
                None => {
                    break ;
                },
            }
        }
    }
}

/// Half of `n`, rounded towards zero.
fn half(n: i64) -> (h: i32)
    requires
        2 * i32::MIN <= n <= 2 * i32::MAX,
    ensures
        h == half_toward_zero(n as int),
{
    if n < 0 {
        (-((-n) / 2)) as i32
    } else {
        (n / 2) as i32
    }
}

/// The order in which the two corners are given makes no difference.
pub proof fn lemma_new_ignores_order(a: (i32, i32), b: (i32, i32))
    ensures
        Rectangle::spec_new(a, b) == Rectangle::spec_new(b, a),
        Rectangle::spec_new(a, b).wf(),
{
}

/// Rectangles intersect each other or not at all, and two rectangles that
/// share a corner do.
pub proof fn lemma_intersects(a: Rectangle, b: Rectangle)
    ensures
        a.spec_intersects(b) == b.spec_intersects(a),
        a.wf() && b.wf() && a.max == b.min ==> a.spec_intersects(b),
        a.wf() && b.wf() ==> (a.spec_intersects(b) <==> exists|p: (int, int)|
            box_points(point_of(a.min), point_of(a.max)).contains(p) && box_points(
                point_of(b.min),
                point_of(b.max),
            ).contains(p)),
{
    if a.wf() && b.wf() && a.spec_intersects(b) {
        let x = if a.min.0 <= b.min.0 { b.min.0 as int } else { a.min.0 as int };
        let y = if a.min.1 <= b.min.1 { b.min.1 as int } else { a.min.1 as int };
        assert(box_points(point_of(a.min), point_of(a.max)).contains((x, y)) && box_points(
            point_of(b.min),
            point_of(b.max),
        ).contains((x, y)));
    }
}

/// The walk over a rectangle whose corners are in order passes every point
/// of the box between them, and none of them twice.
pub proof fn lemma_rect_points_cover_box(min: (int, int), max: (int, int))
    requires
        min.0 <= max.0,
        min.1 <= max.1,
    ensures
        rect_points(min, max).no_duplicates(),
        rect_points(min, max).to_set() =~= box_points(min, max),
        rect_points(min, max).len() == (max.0 - min.0 + 1) * (max.1 - min.1 + 1),
{
    let columns = rect_columns(min, max);
    let rows = rect_rows(min, max);
    let all = rect_points(min, max);
    assert(columns * rows >= 0) by (nonlinear_arith)
        requires
            columns > 0,
            rows > 0,
    ;
    assert forall|i: int| 0 <= i < all.len() implies box_points(min, max).contains(
        #[trigger] all[i],
    ) by {
        lemma_mod_bound(i, columns);
        lemma_fundamental_div_mod(i, columns);
        lemma_div_pos_is_pos(i, columns);
        assert(i / columns < rows) by (nonlinear_arith)
            requires
                i == columns * (i / columns) + i % columns,
                0 <= i % columns,
                i < columns * rows,
                columns > 0,
        ;
    }
    assert forall|i: int, j: int| 0 <= i < all.len() && 0 <= j < all.len() && i != j implies all[i]
        != all[j] by {
        lemma_fundamental_div_mod(i, columns);
        lemma_fundamental_div_mod(j, columns);
    }
    assert forall|p: (int, int)| all.to_set().contains(p) <==> box_points(min, max).contains(
        p,
    ) by {
        if box_points(min, max).contains(p) {
            let i = (p.1 - min.1) * columns + (p.0 - min.0);
            lemma_fundamental_div_mod_converse(i, columns, p.1 - min.1, p.0 - min.0);
            assert(0 <= i < columns * rows) by (nonlinear_arith)
                requires
                    i == (p.1 - min.1) * columns + (p.0 - min.0),
                    0 <= p.1 - min.1 < rows,
                    0 <= p.0 - min.0 < columns,
            ;
            assert(all[i] == p);
        }
    }
}

impl Shape for Rectangle {
    open spec fn valid(&self) -> bool {
        self.wf()
    }

    open spec fn point_set(&self) -> Set<(int, int)> {
        box_points(point_of(self.min), point_of(self.max))
    }

    /// The number of lattice points of the rectangle, its maximum edges
    /// included: one more than the width, times one more than the height.
    open spec fn count(&self) -> int {
        (self.max.0 - self.min.0 + 1) * (self.max.1 - self.min.1 + 1)
    }

    #[inline]
    fn get_count(&self) -> (count: u32) {
        let columns: u64 = (self.max.0 as i64 - self.min.0 as i64 + 1) as u64;
        let rows: u64 = (self.max.1 as i64 - self.min.1 as i64 + 1) as u64;
        proof {
            assert(columns * rows <= u32::MAX) by (nonlinear_arith)
                requires
                    columns == self.max.0 - self.min.0 + 1,
                    rows == self.max.1 - self.min.1 + 1,
                    (self.max.0 - self.min.0 + 1) * (self.max.1 - self.min.1 + 1) <= u32::MAX,
            ;
        }
        (columns * rows) as u32
    }

    #[inline]
    fn contains(&self, position: (i32, i32)) -> (found: bool) {
        self.min.0 <= position.0 && position.0 <= self.max.0 && self.min.1 <= position.1
            && position.1 <= self.max.1
    }

    #[inline]
    fn get_positions(&self) -> (positions: Vec<(i32, i32)>) {
        let positions = self.into_iter().collect();
        proof {
            lemma_rect_points_cover_box(point_of(self.min), point_of(self.max));
            assert forall|i: int, j: int|
                0 <= i < positions@.len() && 0 <= j < positions@.len() && i != j implies positions@[i]
                != positions@[j] by {
                assert(points_of(positions@)[i] != points_of(positions@)[j]);
            }
        }
        positions
    }
}

} // verus!
