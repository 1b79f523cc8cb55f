//! A circle on the lattice, rasterized by the midpoint method.
use vstd::prelude::*;
use crate::grid_shapes::line::{lemma_vertical_line, Line};
use crate::grid_shapes::point_set::{lemma_point_set_len, PointSet};
use crate::grid_shapes::shape::Shape;
use crate::lattice::{lemma_points_of_injective, point_of, points_of};

verus! {

/// The state of the midpoint method before one of its steps: the offset
/// `(x, y)` from the center at which the arc stands, and the decision value.
pub struct MidpointState {
    pub x: int,
    pub y: int,
    pub d: int,
}

/// The decision value at the top of the circle: `(5 - 4 * radius) / 4`,
/// rounded towards zero.
pub open spec fn initial_decision(radius: int) -> int {
    if 4 * radius <= 5 {
        (5 - 4 * radius) / 4
    } else {
        -((4 * radius - 5) / 4)
    }
}

/// The state that follows `s`: one step to the right, and one step down
/// unless the midpoint below still lies inside the circle.
pub open spec fn midpoint_next(s: MidpointState) -> MidpointState {
    if s.d < 0 {
        MidpointState { x: s.x + 1, y: s.y, d: s.d + 2 * s.x + 1 }
    } else {
        MidpointState { x: s.x + 1, y: s.y - 1, d: s.d + 2 * (s.x - s.y) + 1 }
    }
}

/// The state of the midpoint method for `radius` after `k` steps.
pub open spec fn midpoint_state(radius: int, k: nat) -> MidpointState
    decreases k,
{
    if k == 0 {
        MidpointState { x: 0, y: radius, d: initial_decision(radius) }
    } else {
        midpoint_next(midpoint_state(radius, (k - 1) as nat))
    }
}

/// The arc has not crossed the diagonal after `k` steps, so that step `k`
/// still contributes points.
pub open spec fn midpoint_emits(radius: int, k: nat) -> bool {
    midpoint_state(radius, k).x <= midpoint_state(radius, k).y
}

/// `p` is one of the eight mirror images, around `center`, of the offset at
/// which the arc stands in state `s`.
pub open spec fn on_ring(center: (int, int), s: MidpointState, p: (int, int)) -> bool {
    let u = if p.0 < center.0 { center.0 - p.0 } else { p.0 - center.0 };
    let v = if p.1 < center.1 { center.1 - p.1 } else { p.1 - center.1 };
    (u == s.x && v == s.y) || (u == s.y && v == s.x)
}

/// `p` lies on one of the four spans that join the mirror images of state `s`
/// across the axis through `center`.
pub open spec fn on_span(center: (int, int), s: MidpointState, p: (int, int)) -> bool {
    let u = if p.0 < center.0 { center.0 - p.0 } else { p.0 - center.0 };
    let v = if p.1 < center.1 { center.1 - p.1 } else { p.1 - center.1 };
    (u == s.x && v <= s.y) || (u == s.y && v <= s.x)
}

/// The lattice points on the boundary of the circle.
pub open spec fn circle_boundary(center: (int, int), radius: int) -> Set<(int, int)> {
    Set::new(
        |p: (int, int)|
            exists|k: nat| #[trigger]
                midpoint_emits(radius, k) && on_ring(center, midpoint_state(radius, k), p),
    )
}

/// The lattice points of the filled circle.
pub open spec fn circle_filled(center: (int, int), radius: int) -> Set<(int, int)> {
    Set::new(
        |p: (int, int)|
            exists|k: nat| #[trigger]
                midpoint_emits(radius, k) && on_span(center, midpoint_state(radius, k), p),
    )
}

/// After `k` steps the arc stands `k` to the right of the top, and not above it.
pub proof fn lemma_midpoint_state(radius: int, k: nat)
    requires
        0 <= radius,
    ensures
        midpoint_state(radius, k).x == k,
        midpoint_state(radius, k).y <= radius,
    decreases k,
{
    if k > 0 {
        lemma_midpoint_state(radius, (k - 1) as nat);
    }
}

/// Once the arc has crossed the diagonal it stays across.
pub proof fn lemma_midpoint_stops(radius: int, j: nat, k: nat)
    requires
        0 <= radius,
        j <= k,
        !midpoint_emits(radius, j),
    ensures
        !midpoint_emits(radius, k),
    decreases k - j,
{
    if j < k {
        lemma_midpoint_stops(radius, j, (k - 1) as nat);
    }
}

/// What the decision value measures of the offset `(x, y)`: the square of its
/// distance from the point half a step below the center.
pub open spec fn arc_measure(x: int, y: int) -> int {
    x * x + y * y + y
}

/// The measure from which on the arc steps down.
pub open spec fn arc_threshold(radius: int) -> int {
    radius * radius + radius - initial_decision(radius)
}

/// The decision value is the measure of the offset at which the arc stands,
/// less the threshold: the arc steps down where the measure has reached it.
pub proof fn lemma_decision_measures(radius: int, k: nat)
    requires
        0 <= radius,
    ensures
        midpoint_state(radius, k).d == arc_measure(
            midpoint_state(radius, k).x,
            midpoint_state(radius, k).y,
        ) - arc_threshold(radius),
    decreases k,
{
    if k > 0 {
        let s = midpoint_state(radius, (k - 1) as nat);
        lemma_decision_measures(radius, (k - 1) as nat);
        assert(arc_measure(s.x + 1, s.y) == arc_measure(s.x, s.y) + 2 * s.x + 1)
            by (nonlinear_arith);
        assert(arc_measure(s.x + 1, s.y - 1) == arc_measure(s.x, s.y) + 2 * (s.x - s.y) + 1)
            by (nonlinear_arith);
    } else {
        assert(arc_measure(0, radius) == radius * radius + radius) by (nonlinear_arith);
    }
}

/// The height of the arc after `k` steps is the greatest height, up to the
/// radius, whose measure one column to the left lies below the threshold.
pub proof fn lemma_arc_height(radius: int, k: nat)
    requires
        1 <= radius,
        1 <= k,
        midpoint_emits(radius, (k - 1) as nat),
    ensures
        arc_measure(k - 1, midpoint_state(radius, k).y) < arc_threshold(radius),
        midpoint_state(radius, k).y == radius || arc_measure(
            k - 1,
            midpoint_state(radius, k).y + 1,
        ) >= arc_threshold(radius),
    decreases k,
{
    let before = midpoint_state(radius, (k - 1) as nat);
    let limit = arc_threshold(radius);
    lemma_midpoint_state(radius, (k - 1) as nat);
    lemma_decision_measures(radius, (k - 1) as nat);
    assert(arc_measure(before.x, before.y - 1) == arc_measure(before.x, before.y) - 2 * before.y)
        by (nonlinear_arith);
    if k == 1 {
        assert(arc_measure(0, radius) == radius * radius + radius) by (nonlinear_arith);
    } else {
        if !midpoint_emits(radius, (k - 2) as nat) {
            lemma_midpoint_stops(radius, (k - 2) as nat, (k - 1) as nat);
        }
        lemma_arc_height(radius, (k - 1) as nat);
        assert(arc_measure(k - 1, before.y) == arc_measure(k - 2, before.y) + 2 * (k - 1) - 1)
            by (nonlinear_arith);
        assert(arc_measure(k - 1, before.y + 1) >= arc_measure(k - 2, before.y + 1))
            by (nonlinear_arith)
            requires
                k >= 2,
        ;
    }
}

/// The filled circle covers its boundary.
pub proof fn lemma_filled_covers_boundary(center: (int, int), radius: int)
    requires
        0 <= radius,
    ensures
        circle_boundary(center, radius).subset_of(circle_filled(center, radius)),
{
    assert forall|p: (int, int)| circle_boundary(center, radius).contains(p) implies circle_filled(
        center,
        radius,
    ).contains(p) by {
        let k = choose|k: nat| #[trigger]
            midpoint_emits(radius, k) && on_ring(center, midpoint_state(radius, k), p);
        lemma_midpoint_state(radius, k);
        assert(midpoint_emits(radius, k) && on_span(center, midpoint_state(radius, k), p));
    }
}

/// The boundary holds the four points at distance `radius` from the center
/// along the axes.
pub proof fn lemma_boundary_has_extrema(center: (int, int), radius: int)
    requires
        0 <= radius,
    ensures
        circle_boundary(center, radius).contains((center.0 + radius, center.1)),
        circle_boundary(center, radius).contains((center.0 - radius, center.1)),
        circle_boundary(center, radius).contains((center.0, center.1 + radius)),
        circle_boundary(center, radius).contains((center.0, center.1 - radius)),
{
    assert(midpoint_emits(radius, 0));
}

/// What one state contributes: its spans where the circle is `filled`, its
/// eight mirror images where it is not.
pub open spec fn on_step(center: (int, int), s: MidpointState, p: (int, int), filled: bool) -> bool {
    if filled {
        on_span(center, s, p)
    } else {
        on_ring(center, s, p)
    }
}

/// The points of the circle: all of them where it is `filled`, those of its
/// boundary where it is not.
pub open spec fn circle_points(center: (int, int), radius: int, filled: bool) -> Set<(int, int)> {
    if filled {
        circle_filled(center, radius)
    } else {
        circle_boundary(center, radius)
    }
}

/// `p` is contributed by one of the first `k` states.
spec fn covered_before(center: (int, int), radius: int, k: nat, filled: bool, p: (int, int)) -> bool {
    exists|j: nat|
        j < k && #[trigger] midpoint_emits(radius, j) && on_step(
            center,
            midpoint_state(radius, j),
            p,
            filled,
        )
}

/// What the first `k + 1` states contribute is what the first `k` do and what
/// state `k` does.
proof fn lemma_covered_step(center: (int, int), radius: int, k: nat, filled: bool, p: (int, int))
    requires
        midpoint_emits(radius, k),
    ensures
        covered_before(center, radius, k + 1, filled, p) <==> covered_before(
            center,
            radius,
            k,
            filled,
            p,
        ) || on_step(center, midpoint_state(radius, k), p, filled),
{
    if covered_before(center, radius, k + 1, filled, p) {
        let j = choose|j: nat|
            j < k + 1 && #[trigger] midpoint_emits(radius, j) && on_step(
                center,
                midpoint_state(radius, j),
                p,
                filled,
            );
        if j < k {
            assert(covered_before(center, radius, k, filled, p));
        }
    }
    if covered_before(center, radius, k, filled, p) {
        let j = choose|j: nat|
            j < k && #[trigger] midpoint_emits(radius, j) && on_step(
                center,
                midpoint_state(radius, j),
                p,
                filled,
            );
        assert(j < k + 1 && midpoint_emits(radius, j));
    }
    if on_step(center, midpoint_state(radius, k), p, filled) {
        assert(k < k + 1 && midpoint_emits(radius, k));
    }
}

/// Once the arc has crossed the diagonal, the states before that one have
/// contributed every point of the circle.
proof fn lemma_covered_all(center: (int, int), radius: int, k: nat, filled: bool, p: (int, int))
    requires
        0 <= radius,
        !midpoint_emits(radius, k),
    ensures
        covered_before(center, radius, k, filled, p) <==> circle_points(
            center,
            radius,
            filled,
        ).contains(p),
{
    if circle_points(center, radius, filled).contains(p) {
        let j = choose|j: nat| #[trigger]
            midpoint_emits(radius, j) && on_step(center, midpoint_state(radius, j), p, filled);
        if j >= k {
            lemma_midpoint_stops(radius, k, j);
        }
        assert(j < k && midpoint_emits(radius, j));
    }
    if covered_before(center, radius, k, filled, p) {
        let j = choose|j: nat|
            j < k && #[trigger] midpoint_emits(radius, j) && on_step(
                center,
                midpoint_state(radius, j),
                p,
                filled,
            );
        assert(midpoint_emits(radius, j) && on_step(
            center,
            midpoint_state(radius, j),
            p,
            filled,
        ));
    }
}

/// Adds the points of `line` to `set`.
fn insert_line(set: &mut PointSet, line: &Line)
    requires
        old(set).wf(),
    ensures
        final(set).wf(),
        forall|p: (i32, i32)|
            final(set)@.contains(p) <==> old(set)@.contains(p) || line.point_set().contains(
                point_of(p),
            ),
{
    let positions = line.get_positions();
    let mut i: usize = 0;
    while i < positions.len()
        invariant
            i <= positions.len(),
            set.wf(),
            forall|p: (i32, i32)|
                set@.contains(p) <==> old(set)@.contains(p) || exists|j: int|
                    0 <= j < i && positions@[j] == p,
        decreases positions.len() - i,
    {
        let ghost before = set@;
        set.insert(positions[i]);
        i += 1;
        proof {
            assert forall|p: (i32, i32)|
                set@.contains(p) <==> old(set)@.contains(p) || exists|j: int|
                    0 <= j < i && positions@[j] == p by {
                if before.contains(p) && !old(set)@.contains(p) {
                    let j = choose|j: int| 0 <= j < i - 1 && positions@[j] == p;
                    assert(0 <= j < i && positions@[j] == p);
                }
                if p == positions@[i - 1] {
                    assert(0 <= i - 1 < i && positions@[i - 1] == p);
                }
            }
        }
    }
    proof {
        assert forall|p: (i32, i32)|
            set@.contains(p) <==> old(set)@.contains(p) || line.point_set().contains(
                point_of(p),
            ) by {
            lemma_points_of_injective(positions@, p);
            if positions@.contains(p) {
                let j = choose|j: int| 0 <= j < positions@.len() && positions@[j] == p;
                assert(0 <= j < i && positions@[j] == p);
            }
        }
    }
}

/// The offset `(x, y)` can be laid off from `center` in every direction
/// without leaving the machine integers.
spec fn offset_fits(center: (i32, i32), x: i64, y: i64) -> bool {
    &&& 0 <= x
    &&& 0 <= y
    &&& i32::MIN <= center.0 - x && center.0 + x <= i32::MAX
    &&& i32::MIN <= center.0 - y && center.0 + y <= i32::MAX
    &&& i32::MIN <= center.1 - x && center.1 + x <= i32::MAX
    &&& i32::MIN <= center.1 - y && center.1 + y <= i32::MAX
}

/// Adds the eight mirror images of the offset `(x, y)` around `center`.
fn insert_ring(set: &mut PointSet, center: (i32, i32), x: i64, y: i64)
    requires
        old(set).wf(),
        offset_fits(center, x, y),
    ensures
        final(set).wf(),
        forall|p: (i32, i32)|
            final(set)@.contains(p) <==> old(set)@.contains(p) || on_ring(
                point_of(center),
                MidpointState { x: x as int, y: y as int, d: 0 },
                point_of(p),
            ),
{
    let cx: i64 = center.0 as i64;
    let cy: i64 = center.1 as i64;
    set.insert(((cx + x) as i32, (cy + y) as i32));
    set.insert(((cx + x) as i32, (cy - y) as i32));
    set.insert(((cx - x) as i32, (cy + y) as i32));
    set.insert(((cx - x) as i32, (cy - y) as i32));
    set.insert(((cx + y) as i32, (cy + x) as i32));
    set.insert(((cx + y) as i32, (cy - x) as i32));
    set.insert(((cx - y) as i32, (cy + x) as i32));
    set.insert(((cx - y) as i32, (cy - x) as i32));
}

/// Adds the four spans that join the mirror images of the offset `(x, y)`
/// around `center`.
fn insert_spans(set: &mut PointSet, center: (i32, i32), x: i64, y: i64)
    requires
        old(set).wf(),
        offset_fits(center, x, y),
    ensures
        final(set).wf(),
        forall|p: (i32, i32)|
            final(set)@.contains(p) <==> old(set)@.contains(p) || on_span(
                point_of(center),
                MidpointState { x: x as int, y: y as int, d: 0 },
                point_of(p),
            ),
{
    let cx: i64 = center.0 as i64;
    let cy: i64 = center.1 as i64;
    let right: i32 = (cx + x) as i32;
    let left: i32 = (cx - x) as i32;
    let up: i32 = (cy + y) as i32;
    let down: i32 = (cy - y) as i32;
    let far_right: i32 = (cx + y) as i32;
    let far_left: i32 = (cx - y) as i32;
    let near_up: i32 = (cy + x) as i32;
    let near_down: i32 = (cy - x) as i32;
    insert_line(set, &Line::new((right, up), (right, down)));
    insert_line(set, &Line::new((left, up), (left, down)));
    insert_line(set, &Line::new((far_right, near_up), (far_right, near_down)));
    insert_line(set, &Line::new((far_left, near_up), (far_left, near_down)));
    proof {
        assert forall|p: (i32, i32)|
            set@.contains(p) <==> old(set)@.contains(p) || on_span(
                point_of(center),
                MidpointState { x: x as int, y: y as int, d: 0 },
                point_of(p),
            ) by {
            lemma_vertical_line(right as int, up as int, down as int, point_of(p));
            lemma_vertical_line(left as int, up as int, down as int, point_of(p));
            lemma_vertical_line(far_right as int, near_up as int, near_down as int, point_of(p));
            lemma_vertical_line(far_left as int, near_up as int, near_down as int, point_of(p));
        }
    }
}

/// A Grid based circle
#[derive(Debug, Clone, Copy, Eq, PartialEq)]
pub struct Circle {
    center: (i32, i32),
    radius: u32,
}

impl Circle {
    /// The center of the circle.
    pub closed spec fn center_point(&self) -> (int, int) {
        point_of(self.center)
    }

    /// The radius of the circle.
    pub closed spec fn radius_len(&self) -> int {
        self.radius as int
    }

    /// Creates a new circle.
    pub fn new(center: (i32, i32), radius: u32) -> (circle: Self)
        ensures
            circle.center_point() == point_of(center),
            circle.radius_len() == radius,
    {
        Self { center, radius }
    }

    /// The four points at distance `radius` from the center along the axes
    /// have coordinates that fit the machine integers.
    pub open spec fn fits(&self) -> bool {
        &&& i32::MIN <= self.center_point().0 - self.radius_len()
        &&& self.center_point().0 + self.radius_len() <= i32::MAX
        &&& i32::MIN <= self.center_point().1 - self.radius_len()
        &&& self.center_point().1 + self.radius_len() <= i32::MAX
    }

    /// Get the center of the circle
    #[inline]
    pub fn center(&self) -> (center: (i32, i32))
        ensures
            point_of(center) == self.center_point(),
    {
        self.center
    }

    /// Get the radius of the circle
    #[inline]
    pub fn radius(&self) -> (radius: u32)
        ensures
            radius == self.radius_len(),
    {
        self.radius
    }

    /// Get the left point of the circle
    #[inline]
    pub fn left(&self) -> (left: (i32, i32))
        requires
            i32::MIN <= self.center_point().0 - self.radius_len(),
        ensures
            point_of(left) == (self.center_point().0 - self.radius_len(), self.center_point().1),
    {
        ((self.center.0 as i64 - self.radius as i64) as i32, self.center.1)
    }

    /// Get the right point of the circle
    #[inline]
    pub fn right(&self) -> (right: (i32, i32))
        requires
            self.center_point().0 + self.radius_len() <= i32::MAX,
        ensures
            point_of(right) == (self.center_point().0 + self.radius_len(), self.center_point().1),
    {
        ((self.center.0 as i64 + self.radius as i64) as i32, self.center.1)
    }

    /// Get the top point of the circle
    #[inline]
    pub fn top(&self) -> (top: (i32, i32))
        requires
            self.center_point().1 + self.radius_len() <= i32::MAX,
        ensures
            point_of(top) == (self.center_point().0, self.center_point().1 + self.radius_len()),
    {
        (self.center.0, (self.center.1 as i64 + self.radius as i64) as i32)
    }

    /// Get the bottom point of the circle
    #[inline]
    pub fn bottom(&self) -> (bottom: (i32, i32))
        requires
            i32::MIN <= self.center_point().1 - self.radius_len(),
        ensures
            point_of(bottom) == (self.center_point().0, self.center_point().1 - self.radius_len()),
    {
        (self.center.0, (self.center.1 as i64 - self.radius as i64) as i32)
    }

    /// Return a line from the left to the right of the circle
    #[inline]
    pub fn as_horizontal_line(&self) -> (line: Line)
        requires
            i32::MIN <= self.center_point().0 - self.radius_len(),
            self.center_point().0 + self.radius_len() <= i32::MAX,
        ensures
            line.start_point() == (
                self.center_point().0 - self.radius_len(),
                self.center_point().1,
            ),
            line.end_point() == (self.center_point().0 + self.radius_len(), self.center_point().1),
    {
        Line::new(self.left(), self.right())
    }

    /// Return a line from the bottom to the top of the circle
    #[inline]
    pub fn as_vertical_line(&self) -> (line: Line)
        requires
            i32::MIN <= self.center_point().1 - self.radius_len(),
            self.center_point().1 + self.radius_len() <= i32::MAX,
        ensures
            line.start_point() == (
                self.center_point().0,
                self.center_point().1 - self.radius_len(),
            ),
            line.end_point() == (self.center_point().0, self.center_point().1 + self.radius_len()),
    {
        Line::new(self.bottom(), self.top())
    }

    /// Get the circumfrence of the circle: the points of its boundary, each
    /// of them once
    pub fn get_circumfrence(&self) -> (positions: Vec<(i32, i32)>)
        requires
            self.fits(),
        ensures
            positions@.no_duplicates(),
            points_of(positions@).to_set() =~= circle_boundary(
                self.center_point(),
                self.radius_len(),
            ),
    {
        let discovered = self.walk(false);
        let positions = discovered.into_vec();
        proof {
            let points = circle_boundary(self.center_point(), self.radius_len());
            assert forall|p: (int, int)| points.contains(p) implies self.center.0 - self.radius
                <= p.0 <= self.center.0 + self.radius && self.center.1 - self.radius <= p.1
                <= self.center.1 + self.radius by {
                lemma_circle_in_square(self.center_point(), self.radius_len(), false, p);
            }
            lemma_positions_cover(positions@, self.center, self.radius, points);
        }
        positions
    }

    /// The points that the midpoint method contributes, each of them once, in
    /// the order in which it finds them.
    fn walk(&self, filled: bool) -> (discovered: PointSet)
        requires
            self.fits(),
        ensures
            discovered.wf(),
            forall|p: (i32, i32)|
                discovered@.contains(p) <==> circle_points(
                    self.center_point(),
                    self.radius_len(),
                    filled,
                ).contains(point_of(p)),
    {
        let mut discovered = PointSet::new();
        let radius: i64 = self.radius as i64;
        let mut d: i64 = if 4 * radius <= 5 {
            (5 - 4 * radius) / 4
        } else {
            -((4 * radius - 5) / 4)
        };
        let mut x: i64 = 0;
        let mut y: i64 = radius;
        let ghost mut k: nat = 0;
        let ghost center = self.center_point();
        loop
            invariant_except_break
                0 <= x <= y <= radius,
                midpoint_emits(radius as int, k),
            invariant
                radius == self.radius_len(),
                center == self.center_point(),
                self.fits(),
                0 <= radius <= u32::MAX,
                x == k,
                -(2 * radius + 2) <= d <= 2 * radius + 2 + x,
                midpoint_state(radius as int, k) == (MidpointState {
                    x: x as int,
                    y: y as int,
                    d: d as int,
                }),
                discovered.wf(),
                forall|p: (i32, i32)|
                    discovered@.contains(p) <==> covered_before(
                        center,
                        radius as int,
                        k,
                        filled,
                        point_of(p),
                    ),
            ensures
                !midpoint_emits(radius as int, k),
            decreases radius + 1 - x,
        {
            if filled {
                insert_spans(&mut discovered, self.center, x, y);
            } else {
                insert_ring(&mut discovered, self.center, x, y);
            }
            proof {
                assert forall|p: (i32, i32)|
                    discovered@.contains(p) <==> covered_before(
                        center,
                        radius as int,
                        k + 1,
                        filled,
                        point_of(p),
                    ) by {
                    lemma_covered_step(center, radius as int, k, filled, point_of(p));
                }
            }
            if d < 0 {
                d += (2 * x) + 1;
            } else {
                d += (2 * (x - y)) + 1;
                y -= 1;
            }
            x += 1;
            proof {
                k = k + 1;
            }
            if x > y {
                break ;
            }
        }
        proof {
            assert forall|p: (i32, i32)|
                discovered@.contains(p) <==> circle_points(center, radius as int, filled).contains(
                    point_of(p),
                ) by {
                lemma_covered_all(center, radius as int, k, filled, point_of(p));
            }
        }
        discovered
    }
}

/// The circle is its own mirror image across both axes through its center,
/// and its boundary across the diagonals too: with the offset `(u, v)` from
/// the center the circle covers `(-u, v)` and `(u, -v)`, and its boundary
/// `(v, u)`.
pub proof fn lemma_circle_mirrors(center: (int, int), radius: int, filled: bool, u: int, v: int)
    requires
        circle_points(center, radius, filled).contains((center.0 + u, center.1 + v)),
    ensures
        circle_points(center, radius, filled).contains((center.0 - u, center.1 + v)),
        circle_points(center, radius, filled).contains((center.0 + u, center.1 - v)),
        !filled ==> circle_points(center, radius, filled).contains((center.0 + v, center.1 + u)),
{
    let p = (center.0 + u, center.1 + v);
    let k = choose|k: nat| #[trigger]
        midpoint_emits(radius, k) && on_step(center, midpoint_state(radius, k), p, filled);
    let s = midpoint_state(radius, k);
    assert(midpoint_emits(radius, k) && on_step(center, s, (center.0 - u, center.1 + v), filled));
    assert(midpoint_emits(radius, k) && on_step(center, s, (center.0 + u, center.1 - v), filled));
    if !filled {
        assert(midpoint_emits(radius, k) && on_ring(center, s, (center.0 + v, center.1 + u)));
    }
}

/// Every point of the circle lies in the square around its center whose sides
/// are two radii long.
pub proof fn lemma_circle_in_square(center: (int, int), radius: int, filled: bool, p: (int, int))
    requires
        0 <= radius,
        circle_points(center, radius, filled).contains(p),
    ensures
        center.0 - radius <= p.0 <= center.0 + radius,
        center.1 - radius <= p.1 <= center.1 + radius,
{
    let k = choose|k: nat| #[trigger]
        midpoint_emits(radius, k) && on_step(center, midpoint_state(radius, k), p, filled);
    lemma_midpoint_state(radius, k);
}

/// A sequence of machine points that holds exactly the machine points of a
/// set within the square of a circle that fits, read as lattice points,
/// is that set.
proof fn lemma_positions_cover(
    positions: Seq<(i32, i32)>,
    center: (i32, i32),
    radius: u32,
    points: Set<(int, int)>,
)
    requires
        i32::MIN <= center.0 - radius && center.0 + radius <= i32::MAX,
        i32::MIN <= center.1 - radius && center.1 + radius <= i32::MAX,
        forall|p: (int, int)|
            points.contains(p) ==> center.0 - radius <= p.0 <= center.0 + radius && center.1
                - radius <= p.1 <= center.1 + radius,
        forall|p: (i32, i32)| positions.contains(p) <==> points.contains(point_of(p)),
    ensures
        points_of(positions).to_set() =~= points,
{
    assert forall|q: (int, int)| points_of(positions).to_set().contains(q) <==> points.contains(
        q,
    ) by {
        if points.contains(q) {
            let p = (q.0 as i32, q.1 as i32);
            assert(point_of(p) == q);
            lemma_points_of_injective(positions, p);
        }
        if points_of(positions).to_set().contains(q) {
            let i = choose|i: int|
                0 <= i < points_of(positions).len() && points_of(positions)[i] == q;
            assert(positions.contains(positions[i]));
        }
    }
}

impl Shape for Circle {
    open spec fn valid(&self) -> bool {
        self.fits()
    }

    open spec fn point_set(&self) -> Set<(int, int)> {
        circle_filled(self.center_point(), self.radius_len())
    }

    /// The number of lattice points of the filled circle.
    open spec fn count(&self) -> int {
        self.point_set().len() as int
    }

    #[inline]
    fn get_count(&self) -> (count: u32) {
        let positions = self.get_positions();
        proof {
            lemma_point_set_len(positions@);
        }
        positions.len() as u32
    }

    #[inline]
    fn contains(&self, position: (i32, i32)) -> (found: bool) {
        let discovered = self.walk(true);
        discovered.contains(position)
    }

    #[inline]
    fn get_positions(&self) -> (positions: Vec<(i32, i32)>) {
        let discovered = self.walk(true);
        let positions = discovered.into_vec();
        proof {
            let points = circle_filled(self.center_point(), self.radius_len());
            assert forall|p: (int, int)| points.contains(p) implies self.center.0 - self.radius
                <= p.0 <= self.center.0 + self.radius && self.center.1 - self.radius <= p.1
                <= self.center.1 + self.radius by {
                lemma_circle_in_square(self.center_point(), self.radius_len(), true, p);
            }
            lemma_positions_cover(positions@, self.center, self.radius, points);
        }
        positions
    }
}

} // verus!
