//! A line between two lattice points, rasterized in the first octant and
//! mirrored back into its own.
use vstd::prelude::*;
use vstd::arithmetic::div_mod::lemma_fundamental_div_mod_converse;
use crate::grid_shapes::octant::{
    octant_from_offset, octant_tag, octant_to_offset, Octant,
};
use crate::grid_shapes::shape::{positions_contain, Shape};
use crate::lattice::{point_of, points_of};
use crate::text::{decimal, push_decimal};

verus! {

/// The number of unit steps from `start` to `end`: the larger of the two
/// coordinate distances.
pub open spec fn line_steps(start: (int, int), end: (int, int)) -> int {
    let dx = end.0 - start.0;
    let dy = end.1 - start.1;
    let ax = if dx < 0 { -dx } else { dx };
    let ay = if dy < 0 { -dy } else { dy };
    if ax < ay { ay } else { ax }
}

/// The height that a first-octant line of run `dx` and rise `dy` has reached
/// after `k` steps: `k * dy / dx` rounded to the nearest integer, a tie upwards.
pub open spec fn canonical_height(k: int, dx: int, dy: int) -> int {
    if dx == 0 {
        0
    } else {
        (2 * k * dy + dx) / (2 * dx)
    }
}

/// The vector from `start` to `end`, carried into the first octant.
pub open spec fn canonical_delta(start: (int, int), end: (int, int)) -> (int, int) {
    let dx = end.0 - start.0;
    let dy = end.1 - start.1;
    octant_to_offset(octant_tag(dx, dy), (dx, dy))
}

/// The lattice point that the line from `start` to `end` reaches after `k` steps.
pub open spec fn line_point(start: (int, int), end: (int, int), k: int) -> (int, int) {
    let tag = octant_tag(end.0 - start.0, end.1 - start.1);
    let delta = canonical_delta(start, end);
    let offset = octant_from_offset(tag, (k, canonical_height(k, delta.0, delta.1)));
    (start.0 + offset.0, start.1 + offset.1)
}

/// The points of the line from `start` to `end`, both included, in the order
/// in which they are reached.
pub open spec fn line_points(start: (int, int), end: (int, int)) -> Seq<(int, int)> {
    Seq::new((line_steps(start, end) + 1) as nat, |k: int| line_point(start, end, k))
}

/// The set of lattice points that the line from `start` to `end` covers.
pub open spec fn line_point_set(start: (int, int), end: (int, int)) -> Set<(int, int)> {
    Set::new(
        |p: (int, int)|
            exists|k: int| 0 <= k <= line_steps(start, end) && p == line_point(start, end, k),
    )
}

/// The run of the canonical vector is the step count of the line.
pub proof fn lemma_canonical_run(start: (int, int), end: (int, int))
    ensures
        canonical_delta(start, end).0 == line_steps(start, end),
        0 <= canonical_delta(start, end).1 <= canonical_delta(start, end).0,
{
}

/// A first-octant line starts at height 0, ends at height `dy`, and stays
/// between the two.
pub proof fn lemma_canonical_height_bounds(k: int, dx: int, dy: int)
    requires
        0 <= dy <= dx,
        0 <= k <= dx,
    ensures
        0 <= canonical_height(k, dx, dy) <= dy,
        canonical_height(0, dx, dy) == 0,
        canonical_height(dx, dx, dy) == dy,
        k > 0 ==> canonical_height(k - 1, dx, dy) <= canonical_height(k, dx, dy)
            <= canonical_height(k - 1, dx, dy) + 1,
{
    if dx > 0 {
        assert(2 * 0 * dy + dx == 0 * (2 * dx) + dx) by (nonlinear_arith);
        lemma_fundamental_div_mod_converse(2 * 0 * dy + dx, 2 * dx, 0, dx);
        assert(2 * dx * dy + dx == dy * (2 * dx) + dx) by (nonlinear_arith);
        lemma_fundamental_div_mod_converse(2 * dx * dy + dx, 2 * dx, dy, dx);
        lemma_height_monotone(0, k, dx, dy);
        lemma_height_monotone(k, dx, dx, dy);
        if k > 0 {
            lemma_height_monotone(k - 1, k, dx, dy);
            lemma_height_step(k, dx, dy);
        }
    }
}

/// The height does not fall as the line advances.
proof fn lemma_height_monotone(j: int, k: int, dx: int, dy: int)
    requires
        0 < dx,
        0 <= dy,
        j <= k,
    ensures
        canonical_height(j, dx, dy) <= canonical_height(k, dx, dy),
{
    assert(2 * j * dy + dx <= 2 * k * dy + dx) by (nonlinear_arith)
        requires
            j <= k,
            0 <= dy,
    ;
    vstd::arithmetic::div_mod::lemma_div_is_ordered(2 * j * dy + dx, 2 * k * dy + dx, 2 * dx);
}

/// One step raises the height by at most one.
proof fn lemma_height_step(k: int, dx: int, dy: int)
    requires
        0 < dx,
        0 <= dy <= dx,
    ensures
        canonical_height(k, dx, dy) <= canonical_height(k - 1, dx, dy) + 1,
{
    let a = 2 * (k - 1) * dy + dx;
    let q = a / (2 * dx);
    let r = a % (2 * dx);
    vstd::arithmetic::div_mod::lemma_fundamental_div_mod(a, 2 * dx);
    vstd::arithmetic::div_mod::lemma_mod_bound(a, 2 * dx);
    assert(2 * k * dy + dx == a + 2 * dy) by (nonlinear_arith)
        requires
            a == 2 * (k - 1) * dy + dx,
    ;
    assert(a + 2 * dx == (q + 1) * (2 * dx) + r) by (nonlinear_arith)
        requires
            a == (2 * dx) * q + r,
    ;
    lemma_fundamental_div_mod_converse(a + 2 * dx, 2 * dx, q + 1, r);
    vstd::arithmetic::div_mod::lemma_div_is_ordered(a + 2 * dy, a + 2 * dx, 2 * dx);
}

/// The point after `k` steps lies in the box that `start` and `end` span.
pub proof fn lemma_line_point_in_box(start: (int, int), end: (int, int), k: int)
    requires
        0 <= k <= line_steps(start, end),
    ensures
        start.0 <= line_point(start, end, k).0 <= end.0 || end.0 <= line_point(start, end, k).0
            <= start.0,
        start.1 <= line_point(start, end, k).1 <= end.1 || end.1 <= line_point(start, end, k).1
            <= start.1,
{
    let delta = canonical_delta(start, end);
    lemma_canonical_run(start, end);
    lemma_canonical_height_bounds(k, delta.0, delta.1);
}

/// The line begins at `start` and ends at `end`.
pub proof fn lemma_line_endpoints(start: (int, int), end: (int, int))
    ensures
        line_point(start, end, 0) == start,
        line_point(start, end, line_steps(start, end)) == end,
{
    let delta = canonical_delta(start, end);
    lemma_canonical_run(start, end);
    lemma_canonical_height_bounds(0, delta.0, delta.1);
}

/// No point is reached twice: different step counts give different points.
pub proof fn lemma_line_points_distinct(start: (int, int), end: (int, int), j: int, k: int)
    requires
        j != k,
    ensures
        line_point(start, end, j) != line_point(start, end, k),
{
}

/// A vertical line covers exactly the lattice points between its ends.
pub proof fn lemma_vertical_line(x: int, y0: int, y1: int, p: (int, int))
    ensures
        line_point_set((x, y0), (x, y1)).contains(p) <==> p.0 == x && (y0 <= p.1 <= y1 || y1
            <= p.1 <= y0),
{
    let start = (x, y0);
    let end = (x, y1);
    let steps = line_steps(start, end);
    assert forall|k: int| 0 <= k <= steps implies line_point(start, end, k) == (
        x,
        if y0 <= y1 {
            y0 + k
        } else {
            y0 - k
        },
    ) by {
        lemma_canonical_run(start, end);
        lemma_canonical_height_bounds(
            k,
            canonical_delta(start, end).0,
            canonical_delta(start, end).1,
        );
    }
    if p.0 == x && (y0 <= p.1 <= y1 || y1 <= p.1 <= y0) {
        let k = if y0 <= y1 { p.1 - y0 } else { y0 - p.1 };
        assert(0 <= k <= steps && p == line_point(start, end, k));
    }
}

/// A horizontal line covers exactly the lattice points between its ends.
pub proof fn lemma_horizontal_line(y: int, x0: int, x1: int, p: (int, int))
    ensures
        line_point_set((x0, y), (x1, y)).contains(p) <==> p.1 == y && (x0 <= p.0 <= x1 || x1
            <= p.0 <= x0),
{
    let start = (x0, y);
    let end = (x1, y);
    let steps = line_steps(start, end);
    assert forall|k: int| 0 <= k <= steps implies line_point(start, end, k) == (
        if x0 <= x1 {
            x0 + k
        } else {
            x0 - k
        },
        y,
    ) by {
        lemma_canonical_run(start, end);
        lemma_canonical_height_bounds(
            k,
            canonical_delta(start, end).0,
            canonical_delta(start, end).1,
        );
    }
    if p.1 == y && (x0 <= p.0 <= x1 || x1 <= p.0 <= x0) {
        let k = if x0 <= x1 { p.0 - x0 } else { x0 - p.0 };
        assert(0 <= k <= steps && p == line_point(start, end, k));
    }
}

/// After `k` steps a first-octant line of run `dx` and rise `dy` stands exactly
/// halfway between two lattice points.
pub open spec fn is_tie(k: int, dx: int, dy: int) -> bool {
    dx > 0 && (2 * k * dy) % (2 * dx) == dx
}

/// No step of the line from `start` to `end` is a tie.
pub open spec fn line_has_no_tie(start: (int, int), end: (int, int)) -> bool {
    let delta = canonical_delta(start, end);
    forall|k: int| 0 <= k <= delta.0 ==> !#[trigger] is_tie(k, delta.0, delta.1)
}

/// Where step `k` is no tie, the heights after `k` steps and after `dx - k`
/// steps add up to the rise.
proof fn lemma_height_reflects(k: int, dx: int, dy: int)
    requires
        0 < dx,
        0 <= dy <= dx,
        0 <= k <= dx,
        !is_tie(k, dx, dy),
    ensures
        canonical_height(k, dx, dy) + canonical_height(dx - k, dx, dy) == dy,
{
    let a = 2 * k * dy;
    let q = a / (2 * dx);
    let r = a % (2 * dx);
    vstd::arithmetic::div_mod::lemma_fundamental_div_mod(a, 2 * dx);
    vstd::arithmetic::div_mod::lemma_mod_bound(a, 2 * dx);
    assert(2 * (dx - k) * dy + dx == 2 * dx * dy - a + dx) by (nonlinear_arith)
        requires
            a == 2 * k * dy,
    ;
    if r < dx {
        assert(a + dx == q * (2 * dx) + (r + dx)) by (nonlinear_arith)
            requires
                a == (2 * dx) * q + r,
        ;
        lemma_fundamental_div_mod_converse(a + dx, 2 * dx, q, r + dx);
        assert(2 * dx * dy - a + dx == (dy - q) * (2 * dx) + (dx - r)) by (nonlinear_arith)
            requires
                a == (2 * dx) * q + r,
        ;
        lemma_fundamental_div_mod_converse(2 * dx * dy - a + dx, 2 * dx, dy - q, dx - r);
    } else {
        assert(a + dx == (q + 1) * (2 * dx) + (r - dx)) by (nonlinear_arith)
            requires
                a == (2 * dx) * q + r,
        ;
        lemma_fundamental_div_mod_converse(a + dx, 2 * dx, q + 1, r - dx);
        assert(2 * dx * dy - a + dx == (dy - q - 1) * (2 * dx) + (3 * dx - r))
            by (nonlinear_arith)
            requires
                a == (2 * dx) * q + r,
        ;
        lemma_fundamental_div_mod_converse(
            2 * dx * dy - a + dx,
            2 * dx,
            dy - q - 1,
            3 * dx - r,
        );
    }
}

/// Where step `k` is no tie, the line from `end` back to `start` reaches after
/// `steps - k` steps the point that the line from `start` reaches after `k`.
pub proof fn lemma_line_point_reversed(start: (int, int), end: (int, int), k: int)
    requires
        0 <= k <= line_steps(start, end),
        !is_tie(k, canonical_delta(start, end).0, canonical_delta(start, end).1),
    ensures
        line_point(end, start, line_steps(start, end) - k) == line_point(start, end, k),
{
    let delta = canonical_delta(start, end);
    lemma_canonical_run(start, end);
    lemma_canonical_run(end, start);
    assert(canonical_delta(end, start) == delta);
    if delta.0 > 0 {
        lemma_height_reflects(k, delta.0, delta.1);
    }
}

/// A tie at step `k` is a tie at step `dx - k` too.
proof fn lemma_tie_reflects(k: int, dx: int, dy: int)
    requires
        0 <= dy <= dx,
        0 <= k <= dx,
        is_tie(k, dx, dy),
    ensures
        is_tie(dx - k, dx, dy),
{
    let a = 2 * k * dy;
    let q = a / (2 * dx);
    vstd::arithmetic::div_mod::lemma_fundamental_div_mod(a, 2 * dx);
    assert(2 * (dx - k) * dy == (dy - q - 1) * (2 * dx) + dx) by (nonlinear_arith)
        requires
            2 * k * dy == (2 * dx) * q + dx,
    ;
    lemma_fundamental_div_mod_converse(2 * (dx - k) * dy, 2 * dx, dy - q - 1, dx);
}

/// Where step `k` is a tie, the heights after `k` steps and after `dx - k`
/// steps add up to one more than the rise: both were rounded upwards.
proof fn lemma_tie_heights(k: int, dx: int, dy: int)
    requires
        0 <= dy <= dx,
        0 <= k <= dx,
        is_tie(k, dx, dy),
    ensures
        canonical_height(k, dx, dy) + canonical_height(dx - k, dx, dy) == dy + 1,
{
    let a = 2 * k * dy;
    let q = a / (2 * dx);
    vstd::arithmetic::div_mod::lemma_fundamental_div_mod(a, 2 * dx);
    assert(a + dx == (q + 1) * (2 * dx) + 0) by (nonlinear_arith)
        requires
            a == (2 * dx) * q + dx,
    ;
    lemma_fundamental_div_mod_converse(a + dx, 2 * dx, q + 1, 0);
    assert(2 * (dx - k) * dy + dx == (dy - q) * (2 * dx) + 0) by (nonlinear_arith)
        requires
            2 * k * dy == (2 * dx) * q + dx,
    ;
    lemma_fundamental_div_mod_converse(2 * (dx - k) * dy + dx, 2 * dx, dy - q, 0);
}

/// Where step `k` is a tie, the line from `end` back to `start` misses the
/// point that the line from `start` reaches after `k` steps.
pub proof fn lemma_line_tie_breaks_symmetry(start: (int, int), end: (int, int), k: int)
    requires
        0 <= k <= line_steps(start, end),
        is_tie(k, canonical_delta(start, end).0, canonical_delta(start, end).1),
    ensures
        line_point_set(start, end).contains(line_point(start, end, k)),
        !line_point_set(end, start).contains(line_point(start, end, k)),
{
    let delta = canonical_delta(start, end);
    let steps = line_steps(start, end);
    let p = line_point(start, end, k);
    lemma_canonical_run(start, end);
    lemma_canonical_run(end, start);
    assert(canonical_delta(end, start) == delta);
    lemma_tie_heights(k, delta.0, delta.1);
    assert(0 <= k <= steps && p == line_point(start, end, k));
    if line_point_set(end, start).contains(p) {
        let j = choose|j: int| 0 <= j <= steps && p == line_point(end, start, j);
        lemma_canonical_height_bounds(j, delta.0, delta.1);
        assert(j == steps - k);
    }
}

/// A line without a tie covers the same points in either direction.
pub proof fn lemma_line_symmetric(start: (int, int), end: (int, int))
    requires
        line_has_no_tie(start, end),
    ensures
        line_point_set(start, end) =~= line_point_set(end, start),
{
    let delta = canonical_delta(start, end);
    let steps = line_steps(start, end);
    lemma_canonical_run(start, end);
    lemma_canonical_run(end, start);
    assert(canonical_delta(end, start) == delta);
    assert forall|p: (int, int)|
        line_point_set(start, end).contains(p) <==> line_point_set(end, start).contains(
            p,
        ) by {
        if line_point_set(start, end).contains(p) {
            let k = choose|k: int| 0 <= k <= steps && p == line_point(start, end, k);
            assert(!is_tie(k, delta.0, delta.1));
            lemma_line_point_reversed(start, end, k);
            assert(0 <= steps - k <= line_steps(end, start) && p == line_point(
                end,
                start,
                steps - k,
            ));
        }
        if line_point_set(end, start).contains(p) {
            let k = choose|k: int| 0 <= k <= steps && p == line_point(end, start, k);
            if is_tie(k, delta.0, delta.1) {
                lemma_tie_reflects(k, delta.0, delta.1);
                assert(!is_tie(steps - k, delta.0, delta.1));
            }
            lemma_line_point_reversed(end, start, k);
            assert(0 <= steps - k <= steps && p == line_point(start, end, steps - k));
        }
    }
}

/// The points of a line from `start` to `end`, in the order in which they
/// are reached; the last one, `end`, is left out unless `inclusive`.
fn rasterize(start: (i32, i32), end: (i32, i32), inclusive: bool) -> (points: Vec<(i32, i32)>)
    ensures
        points@.len() == line_steps(point_of(start), point_of(end)) + if inclusive {
            1int
        } else {
            0int
        },
        forall|k: int|
            0 <= k < points@.len() ==> point_of(#[trigger] points@[k]) == line_point(
                point_of(start),
                point_of(end),
                k,
            ),
{
    let octant = Octant::new(start, end);
    let delta = octant.to_offset_wide(
        (end.0 as i64 - start.0 as i64, end.1 as i64 - start.1 as i64),
    );
    let dx: i64 = delta.0;
    let dy: i64 = delta.1;
    let mut points: Vec<(i32, i32)> = Vec::new();
    proof {
        lemma_canonical_run(point_of(start), point_of(end));
        lemma_line_endpoints(point_of(start), point_of(end));
    }
    if !inclusive && dx == 0 {
        return points;
    }
    points.push(start);
    let last: i64 = if inclusive { dx } else { dx - 1 };
    let mut k: i64 = 0;
    let mut y: i64 = 0;
    let mut error: i64 = 0;
    while k < last
        invariant
            octant.wf(),
            octant.0 as int == octant_tag(end.0 - start.0, end.1 - start.1),
            (dx as int, dy as int) == canonical_delta(point_of(start), point_of(end)),
            dx == line_steps(point_of(start), point_of(end)),
            0 <= dy <= dx <= 0xffff_ffff,
            0 <= k <= last <= dx,
            last == if inclusive { dx as int } else { dx - 1 },
            0 <= y <= dy,
            error == k * dy - y * dx,
            dx > 0 ==> -dx <= 2 * error < dx,
            dx > 0 ==> y == canonical_height(k as int, dx as int, dy as int),
            points@.len() == k + 1,
            forall|j: int|
                0 <= j < points@.len() ==> point_of(#[trigger] points@[j]) == line_point(
                    point_of(start),
                    point_of(end),
                    j,
                ),
        decreases last - k,
    {
        proof {
            assert((k + 1) * dy - y * dx == k * dy - y * dx + dy) by (nonlinear_arith);
            assert((k + 1) * dy - (y + 1) * dx == k * dy - y * dx + dy - dx) by (nonlinear_arith);
        }
        k += 1;
        error += dy;
        if 2 * error >= dx {
            y += 1;
            error -= dx;
        }
        proof {
            assert(2 * k * dy + dx == y * (2 * dx) + (2 * error + dx)) by (nonlinear_arith)
                requires
                    error == k * dy - y * dx,
            ;
            lemma_fundamental_div_mod_converse(
                2 * k * dy + dx,
                2 * dx as int,
                y as int,
                2 * error + dx,
            );
            lemma_canonical_height_bounds(k as int, dx as int, dy as int);
            lemma_line_point_in_box(point_of(start), point_of(end), k as int);
        }
        let offset = octant.from_offset_wide((k, y));
        let x_wide: i64 = start.0 as i64 + offset.0;
        let y_wide: i64 = start.1 as i64 + offset.1;
        points.push((x_wide as i32, y_wide as i32));
    }
    points
}

/// A line.
#[derive(Debug, Clone, Copy, Eq, PartialEq)]
pub struct Line {
    end: (i32, i32),
    start: (i32, i32),
}

impl Line {
    /// The point at which the line starts.
    pub closed spec fn start_point(&self) -> (int, int) {
        point_of(self.start)
    }

    /// The point at which the line ends.
    pub closed spec fn end_point(&self) -> (int, int) {
        point_of(self.end)
    }

    /// Creates a new line.
    #[inline(always)]
    pub fn new(start: (i32, i32), end: (i32, i32)) -> (line: Self)
        ensures
            line.start_point() == point_of(start),
            line.end_point() == point_of(end),
    {
        Self { start, end }
    }

    /// The point at which the line starts.
    pub fn start(&self) -> (start: (i32, i32))
        ensures
            point_of(start) == self.start_point(),
    {
        self.start
    }

    /// The point at which the line ends.
    pub fn end(&self) -> (end: (i32, i32))
        ensures
            point_of(end) == self.end_point(),
    {
        self.end
    }

    /// The line in words: its start and its end.
    pub open spec fn spec_text(&self) -> Seq<char> {
        "Line {Start: ("@ + decimal(self.start_point().0) + ", "@ + decimal(self.start_point().1)
            + "), End: ("@ + decimal(self.end_point().0) + ", "@ + decimal(self.end_point().1)
            + ")}"@
    }

    /// The line in words: its start and its end.
    pub fn to_string(&self) -> (text: String)
        ensures
            text@ == self.spec_text(),
    {
        let mut text = String::from_str("Line {Start: (");
        push_decimal(&mut text, self.start.0);
        text.append(", ");
        push_decimal(&mut text, self.start.1);
        text.append("), End: (");
        push_decimal(&mut text, self.end.0);
        text.append(", ");
        push_decimal(&mut text, self.end.1);
        text.append(")}");
        text
    }

    /// The points of the line in the order in which they are reached, from
    /// the start up to the end, which is left out.
    #[inline]
    pub fn iter_exlusive(&self) -> (points: Vec<(i32, i32)>)
        ensures
            points_of(points@) =~= line_points(self.start_point(), self.end_point()).drop_last(),
    {
        rasterize(self.start, self.end, false)
    }

    /// The points of the line in the order in which they are reached, from
    /// the start to the end, both included.
    #[inline]
    pub fn iter(&self) -> (points: Vec<(i32, i32)>)
        ensures
            points_of(points@) =~= line_points(self.start_point(), self.end_point()),
            points@.len() == line_steps(self.start_point(), self.end_point()) + 1,
            point_of(points@[0]) == self.start_point(),
            point_of(points@.last()) == self.end_point(),
            points@.no_duplicates(),
    {
        let points = rasterize(self.start, self.end, true);
        proof {
            lemma_line_endpoints(self.start_point(), self.end_point());
            assert forall|i: int, j: int|
                0 <= i < points@.len() && 0 <= j < points@.len() && i != j implies points@[i]
                != points@[j] by {
                lemma_line_points_distinct(self.start_point(), self.end_point(), i, j);
            }
        }
        points
    }

}

impl Shape for Line {
    open spec fn valid(&self) -> bool {
        true
    }

    open spec fn point_set(&self) -> Set<(int, int)> {
        line_point_set(self.start_point(), self.end_point())
    }

    /// The number of steps from the start to the end, one less than the
    /// number of points.
    open spec fn count(&self) -> int {
        line_steps(self.start_point(), self.end_point())
    }

    #[inline]
    fn get_count(&self) -> (count: u32) {
        let dx: i64 = self.end.0 as i64 - self.start.0 as i64;
        let dy: i64 = self.end.1 as i64 - self.start.1 as i64;
        let ax: i64 = if dx < 0 { -dx } else { dx };
        let ay: i64 = if dy < 0 { -dy } else { dy };
        if ax < ay {
            ay as u32
        } else {
            ax as u32
        }
    }

    #[inline]
    fn contains(&self, position: (i32, i32)) -> (found: bool) {
        let positions = self.get_positions();
        positions_contain(&positions, position)
    }

    #[inline]
    fn get_positions(&self) -> (positions: Vec<(i32, i32)>) {
        let positions = self.iter();
        proof {
            let start = self.start_point();
            let end = self.end_point();
            assert forall|p: (int, int)| #[trigger]
                points_of(positions@).to_set().contains(p) <==> line_point_set(
                    start,
                    end,
                ).contains(p) by {
                if points_of(positions@).to_set().contains(p) {
                    let i = choose|i: int|
                        0 <= i < points_of(positions@).len() && points_of(positions@)[i] == p;
                    assert(line_points(start, end)[i] == p);
                    assert(0 <= i <= line_steps(start, end) && p == line_point(start, end, i));
                }
                if line_point_set(start, end).contains(p) {
                    let k = choose|k: int|
                        0 <= k <= line_steps(start, end) && p == line_point(start, end, k);
                    assert(points_of(positions@)[k] == p);
                }
            }
        }
        positions
    }
}

} // verus!
