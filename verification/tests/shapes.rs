use std::collections::HashSet;

use brt::grid_shapes::iter::RectIter;
use brt::grid_shapes::{AnyShape, Circle, Line, Octant, Rectangle, Shape};

fn set_of(points: &[(i32, i32)]) -> HashSet<(i32, i32)> {
    points.iter().copied().collect()
}

#[test]
fn octant_tags_cover_the_eight_directions() {
    assert_eq!(Octant::new((0, 0), (3, 1)).0, 0);
    assert_eq!(Octant::new((0, 0), (1, 3)).0, 1);
    assert_eq!(Octant::new((0, 0), (-1, 3)).0, 2);
    assert_eq!(Octant::new((0, 0), (-3, 1)).0, 3);
    assert_eq!(Octant::new((0, 0), (-3, -1)).0, 4);
    assert_eq!(Octant::new((0, 0), (-1, -3)).0, 5);
    assert_eq!(Octant::new((0, 0), (1, -3)).0, 6);
    assert_eq!(Octant::new((0, 0), (3, -1)).0, 7);
    assert_eq!(Octant::new((5, 5), (5, 5)).0, 0);
    assert_eq!(Octant::new((0, 0), (2, 2)).0, 0);
    assert_eq!(Octant::new((0, 0), (0, 2)).0, 1);
    assert_eq!(Octant::new((0, 0), (-2, 0)).0, 3);
    assert_eq!(Octant::new((0, 0), (0, -2)).0, 5);
}

#[test]
fn octant_new_spans_the_whole_range() {
    assert_eq!(Octant::new((i32::MIN, i32::MIN), (i32::MAX, i32::MAX)).0, 0);
    assert_eq!(Octant::new((i32::MAX, i32::MAX), (i32::MIN, i32::MIN)).0, 4);
    assert_eq!(Octant::new((i32::MAX, 0), (i32::MIN, 1)).0, 3);
}

#[test]
fn octant_to_offset_table() {
    let p = (3, 5);
    assert_eq!(Octant(0).to_offset(p), (3, 5));
    assert_eq!(Octant(1).to_offset(p), (5, 3));
    assert_eq!(Octant(2).to_offset(p), (5, -3));
    assert_eq!(Octant(3).to_offset(p), (-3, 5));
    assert_eq!(Octant(4).to_offset(p), (-3, -5));
    assert_eq!(Octant(5).to_offset(p), (-5, -3));
    assert_eq!(Octant(6).to_offset(p), (-5, 3));
    assert_eq!(Octant(7).to_offset(p), (3, -5));
}

#[test]
fn octant_from_offset_table() {
    let o = (3, 5);
    assert_eq!(Octant(0).from_offset(o), (3, 5));
    assert_eq!(Octant(1).from_offset(o), (5, 3));
    assert_eq!(Octant(2).from_offset(o), (-5, 3));
    assert_eq!(Octant(3).from_offset(o), (-3, 5));
    assert_eq!(Octant(4).from_offset(o), (-3, -5));
    assert_eq!(Octant(5).from_offset(o), (-5, -3));
    assert_eq!(Octant(6).from_offset(o), (5, -3));
    assert_eq!(Octant(7).from_offset(o), (3, -5));
}

#[test]
fn octant_from_offset_inverts_to_offset() {
    for tag in 0..8u8 {
        for p in [(3, 5), (-7, 2), (0, 0), (-4, -9), (6, -1)] {
            let octant = Octant(tag);
            assert_eq!(octant.from_offset(octant.to_offset(p)), p);
            assert_eq!(octant.to_offset(octant.from_offset(p)), p);
        }
    }
}

#[test]
fn octant_carries_vector_into_first_octant() {
    for v in [(3, 1), (1, 3), (-1, 3), (-3, 1), (-3, -1), (-1, -3), (1, -3), (3, -1)] {
        let offset = Octant::new((0, 0), v).to_offset(v);
        assert!(offset.0 >= offset.1 && offset.1 >= 0, "{:?} -> {:?}", v, offset);
    }
}

#[test]
fn line_horizontal_points_and_count() {
    let line = Line::new((0, 0), (3, 0));
    let points = line.iter();
    assert_eq!(points, vec![(0, 0), (1, 0), (2, 0), (3, 0)]);
    assert_eq!(points.len(), 4);
    assert_eq!(line.get_count(), 3);
    assert_eq!(line.get_positions().len(), 4);
    assert_eq!(points.iter().filter(|p| **p == (0, 0)).count(), 1);
    assert_eq!(points.iter().filter(|p| **p == (3, 0)).count(), 1);
}

#[test]
fn line_keeps_its_ends_as_given() {
    let line = Line::new((3, 4), (0, 0));
    assert_eq!(line.start(), (3, 4));
    assert_eq!(line.end(), (0, 0));
    assert_eq!(line, Line::new((3, 4), (0, 0)));
    assert_ne!(line, Line::new((0, 0), (3, 4)));
}

#[test]
fn line_steep_rounds_ties_upwards() {
    // run 4, rise 3 in the first octant: heights 0, 0.75, 1.5, 2.25, 3 round to 0, 1, 2, 2, 3
    let forward = Line::new((0, 0), (3, 4)).iter();
    assert_eq!(forward, vec![(0, 0), (1, 1), (2, 2), (2, 3), (3, 4)]);
    let shallow = Line::new((0, 0), (4, 3)).iter();
    assert_eq!(shallow, vec![(0, 0), (1, 1), (2, 2), (3, 2), (4, 3)]);
}

#[test]
fn line_endpoint_swap_with_a_tie() {
    // The step halfway is a tie, which both directions round away from their own start.
    let forward = set_of(&Line::new((0, 0), (3, 4)).get_positions());
    let backward = set_of(&Line::new((3, 4), (0, 0)).get_positions());
    assert_eq!(forward, set_of(&[(0, 0), (1, 1), (2, 2), (2, 3), (3, 4)]));
    assert_eq!(backward, set_of(&[(0, 0), (1, 1), (1, 2), (2, 3), (3, 4)]));
    assert_eq!(forward.len(), backward.len());
    let shared: HashSet<_> = forward.intersection(&backward).copied().collect();
    assert_eq!(shared, set_of(&[(0, 0), (1, 1), (2, 3), (3, 4)]));
}

#[test]
fn line_endpoint_swap_without_a_tie() {
    for (start, end) in [((0, 0), (3, 0)), ((0, 0), (5, 5)), ((0, 0), (5, 2)), ((-2, 7), (4, -2)), ((1, 1), (1, -6))] {
        let forward = set_of(&Line::new(start, end).get_positions());
        let backward = set_of(&Line::new(end, start).get_positions());
        assert_eq!(forward, backward, "{:?} {:?}", start, end);
    }
}

#[test]
fn line_in_every_octant_starts_and_ends_right() {
    for end in [(7, 2), (2, 7), (-2, 7), (-7, 2), (-7, -2), (-2, -7), (2, -7), (7, -2)] {
        let line = Line::new((10, 20), (10 + end.0, 20 + end.1));
        let points = line.iter();
        assert_eq!(points.len(), 8);
        assert_eq!(line.get_count(), 7);
        assert_eq!(points[0], (10, 20));
        assert_eq!(points[7], (10 + end.0, 20 + end.1));
        for pair in points.windows(2) {
            let dx = (pair[1].0 - pair[0].0).abs();
            let dy = (pair[1].1 - pair[0].1).abs();
            assert!(dx <= 1 && dy <= 1 && dx + dy >= 1);
        }
        let unique: HashSet<_> = points.iter().copied().collect();
        assert_eq!(unique.len(), points.len());
    }
}

#[test]
fn line_single_point() {
    let line = Line::new((4, -4), (4, -4));
    assert_eq!(line.iter(), vec![(4, -4)]);
    assert_eq!(line.iter_exlusive(), Vec::<(i32, i32)>::new());
    assert_eq!(line.get_count(), 0);
    assert!(line.contains((4, -4)));
    assert!(!line.contains((4, -3)));
}

#[test]
fn line_exclusive_leaves_out_the_end() {
    let line = Line::new((0, 0), (-3, 0));
    assert_eq!(line.iter_exlusive(), vec![(0, 0), (-1, 0), (-2, 0)]);
    assert_eq!(line.iter(), vec![(0, 0), (-1, 0), (-2, 0), (-3, 0)]);
}

#[test]
fn line_contains_is_membership() {
    let line = Line::new((0, 0), (4, 2));
    let points = line.get_positions();
    assert_eq!(points, vec![(0, 0), (1, 1), (2, 1), (3, 2), (4, 2)]);
    for p in &points {
        assert!(line.contains(*p));
    }
    assert!(!line.contains((1, 0)));
    assert!(!line.contains((5, 2)));
    assert!(!line.contains((2, 2)));
}

#[test]
fn line_across_the_whole_range() {
    let line = Line::new((i32::MIN, 0), (i32::MAX, 0));
    assert_eq!(line.get_count(), u32::MAX);
    let diagonal = Line::new((i32::MAX - 2, i32::MIN), (i32::MAX, i32::MIN + 2));
    assert_eq!(
        diagonal.iter(),
        vec![(i32::MAX - 2, i32::MIN), (i32::MAX - 1, i32::MIN + 1), (i32::MAX, i32::MIN + 2)]
    );
}

#[test]
fn circle_boundary_of_radius_three() {
    let circle = Circle::new((0, 0), 3);
    let boundary = set_of(&circle.get_circumfrence());
    for p in [(3, 0), (0, 3), (-3, 0), (0, -3)] {
        assert!(boundary.contains(&p));
    }
    let expected = set_of(&[
        (0, 3), (0, -3), (3, 0), (-3, 0),
        (1, 3), (1, -3), (-1, 3), (-1, -3), (3, 1), (3, -1), (-3, 1), (-3, -1),
        (2, 2), (2, -2), (-2, 2), (-2, -2),
    ]);
    assert_eq!(boundary, expected);
    assert_eq!(circle.get_circumfrence().len(), 16);
}

#[test]
fn circle_filled_covers_boundary() {
    for radius in 0..12u32 {
        let circle = Circle::new((4, -7), radius);
        let boundary = set_of(&circle.get_circumfrence());
        let filled = set_of(&circle.get_positions());
        assert!(boundary.is_subset(&filled), "radius {}", radius);
        for p in &boundary {
            assert!(circle.contains(*p));
        }
    }
}

#[test]
fn circle_filled_of_radius_three() {
    let circle = Circle::new((0, 0), 3);
    let filled = circle.get_positions();
    let unique = set_of(&filled);
    assert_eq!(unique.len(), filled.len());
    assert_eq!(circle.get_count(), filled.len() as u32);
    // rows of half-width 1, 2, 3, 3, 3, 2, 1 from y = -3 to y = 3
    let mut expected = HashSet::new();
    for (y, half) in [(-3, 1), (-2, 2), (-1, 3), (0, 3), (1, 3), (2, 2), (3, 1)] {
        for x in -half..=half {
            expected.insert((x, y));
        }
    }
    assert_eq!(unique, expected);
    assert_eq!(circle.get_count(), 37);
    assert!(circle.contains((2, 2)));
    assert!(circle.contains((0, 0)));
    assert!(!circle.contains((3, 2)));
    assert!(!circle.contains((4, 0)));
}

#[test]
fn circle_of_radius_zero_is_its_center() {
    let circle = Circle::new((5, 6), 0);
    assert_eq!(circle.get_circumfrence(), vec![(5, 6)]);
    assert_eq!(circle.get_positions(), vec![(5, 6)]);
    assert_eq!(circle.get_count(), 1);
    assert!(circle.contains((5, 6)));
    assert!(!circle.contains((5, 7)));
}

#[test]
fn circle_small_radii() {
    // The decision value starts at (5 - 4r) / 4 rounded towards zero: 0 for r = 1 and r = 2.
    let one = set_of(&Circle::new((0, 0), 1).get_circumfrence());
    assert_eq!(one, set_of(&[(0, 1), (0, -1), (1, 0), (-1, 0)]));
    let two = set_of(&Circle::new((0, 0), 2).get_circumfrence());
    assert_eq!(
        two,
        set_of(&[(0, 2), (0, -2), (2, 0), (-2, 0), (1, 1), (1, -1), (-1, 1), (-1, -1)])
    );
    assert_eq!(Circle::new((0, 0), 1).get_count(), 5);
    assert_eq!(Circle::new((0, 0), 2).get_count(), 13);
}

#[test]
fn circle_extrema_and_axes() {
    let circle = Circle::new((2, -1), 4);
    assert_eq!(circle.center(), (2, -1));
    assert_eq!(circle.radius(), 4);
    assert_eq!(circle.left(), (-2, -1));
    assert_eq!(circle.right(), (6, -1));
    assert_eq!(circle.top(), (2, 3));
    assert_eq!(circle.bottom(), (2, -5));
    assert_eq!(circle.as_horizontal_line(), Line::new((-2, -1), (6, -1)));
    assert_eq!(circle.as_vertical_line(), Line::new((2, -5), (2, 3)));
    assert_eq!(circle.as_horizontal_line().get_count(), 8);
}

#[test]
fn circle_at_the_edge_of_the_range() {
    let circle = Circle::new((i32::MAX - 2, i32::MIN + 2), 2);
    assert_eq!(circle.right(), (i32::MAX, i32::MIN + 2));
    assert_eq!(circle.bottom(), (i32::MAX - 2, i32::MIN));
    assert_eq!(circle.get_count(), 13);
    assert!(circle.contains((i32::MAX, i32::MIN + 2)));
}

#[test]
fn rectangle_normalizes_corners() {
    let rect = Rectangle::new((5, 5), (0, 0));
    assert_eq!(rect.min(), (0, 0));
    assert_eq!(rect.max(), (5, 5));
    assert_eq!(rect, Rectangle::new((0, 0), (5, 5)));
    let mixed = Rectangle::new((0, 5), (3, 1));
    assert_eq!(mixed.min, (0, 1));
    assert_eq!(mixed.max, (3, 5));
    assert_eq!(mixed, Rectangle::new((3, 1), (0, 5)));
    assert_eq!(mixed, Rectangle::new((3, 5), (0, 1)));
}

#[test]
fn rectangle_touching_edges_intersect() {
    let a = Rectangle::new((0, 0), (4, 4));
    let b = Rectangle::new((4, 4), (8, 8));
    assert!(a.intersects(b));
    assert!(b.intersects(a));
    assert!(!a.intersects(Rectangle::new((5, 0), (8, 4))));
    assert!(!a.intersects(Rectangle::new((0, 5), (4, 8))));
    assert!(a.intersects(Rectangle::new((1, 1), (2, 2))));
    assert!(a.intersects(Rectangle::new((-3, 4), (0, 9))));
}

#[test]
fn rectangle_measures() {
    let rect = Rectangle::new_with_size((2, 3), (4, 6));
    assert_eq!(rect.min(), (2, 3));
    assert_eq!(rect.max(), (6, 9));
    assert_eq!(rect.width(), 4);
    assert_eq!(rect.height(), 6);
    assert!(!rect.is_square());
    assert!(Rectangle::new((1, 1), (4, 4)).is_square());
    assert_eq!(rect.center(), (4, 6));
    assert_eq!(rect.left(), 2);
    assert_eq!(rect.right(), 6);
    assert_eq!(rect.bottom(), 3);
    assert_eq!(rect.top(), 9);
    assert_eq!(Rectangle::default(), Rectangle::new((0, 0), (0, 0)));
}

#[test]
fn rectangle_center_rounds_towards_zero() {
    assert_eq!(Rectangle::new((0, 0), (5, 3)).center(), (2, 1));
    assert_eq!(Rectangle::new((-5, -3), (0, 0)).center(), (-2, -1));
    assert_eq!(Rectangle::new((-3, -3), (2, 4)).center(), (0, 0));
    assert_eq!(Rectangle::new((i32::MAX - 1, 0), (i32::MAX, 0)).center(), (i32::MAX - 1, 0));
}

#[test]
fn rectangle_walk_includes_both_edges() {
    let rect = Rectangle::new((1, 1), (3, 2));
    let points = rect.into_iter().collect();
    assert_eq!(points, vec![(1, 1), (2, 1), (3, 1), (1, 2), (2, 2), (3, 2)]);
    // The walk visits (width + 1) * (height + 1) points, not width * height.
    assert_eq!(rect.width() * rect.height(), 2);
    assert_eq!(points.len() as i32, (rect.width() + 1) * (rect.height() + 1));
    assert_eq!(rect.get_count(), 6);
    assert_eq!(rect.get_positions(), points);
    assert!(rect.contains((3, 2)));
    assert!(rect.contains((1, 1)));
    assert!(!rect.contains((4, 2)));
    assert!(!rect.contains((0, 1)));
}

#[test]
fn rectangle_of_one_point() {
    let rect = Rectangle::new((7, 7), (7, 7));
    assert_eq!(rect.width(), 0);
    assert_eq!(rect.height(), 0);
    assert_eq!(rect.into_iter().collect(), vec![(7, 7)]);
    assert_eq!(rect.get_count(), 1);
}

#[test]
fn rectangle_for_each_visits_the_walk() {
    let rect = Rectangle::new((0, 0), (2, 1));
    let mut seen = Vec::new();
    rect.for_each(|p| seen.push(p));
    assert_eq!(seen, vec![(0, 0), (1, 0), (2, 0), (0, 1), (1, 1), (2, 1)]);
}

#[test]
fn rect_iter_steps_through_rows() {
    let mut iter = RectIter::new((0, 0), (1, 1));
    assert_eq!(iter.next(), Some((0, 0)));
    assert_eq!(iter.next(), Some((1, 0)));
    assert_eq!(iter.next(), Some((0, 1)));
    assert_eq!(iter.next(), Some((1, 1)));
    assert_eq!(iter.next(), None);
    assert_eq!(iter.next(), None);
}

#[test]
fn rect_iter_with_corners_out_of_order() {
    // No rows where the maximum lies below the minimum.
    assert_eq!(RectIter::new((0, 0), (3, -1)).collect(), Vec::<(i32, i32)>::new());
    // One point in each row where the maximum lies left of the minimum.
    assert_eq!(RectIter::new((5, 0), (3, 2)).collect(), vec![(5, 0), (5, 1), (5, 2)]);
}

#[test]
fn rect_iter_at_the_edge_of_the_range() {
    let points = RectIter::new((i32::MAX - 1, i32::MIN), (i32::MAX, i32::MIN + 1)).collect();
    assert_eq!(
        points,
        vec![
            (i32::MAX - 1, i32::MIN),
            (i32::MAX, i32::MIN),
            (i32::MAX - 1, i32::MIN + 1),
            (i32::MAX, i32::MIN + 1)
        ]
    );
}

#[test]
fn line_text() {
    assert_eq!(Line::new((0, 0), (3, 4)).to_string(), "Line {Start: (0, 0), End: (3, 4)}");
    assert_eq!(
        Line::new((-12, 7), (i32::MAX, i32::MIN)).to_string(),
        "Line {Start: (-12, 7), End: (2147483647, -2147483648)}"
    );
}

#[test]
fn rect_iter_from_rectangle() {
    let rect = Rectangle::new((2, 2), (0, 1));
    let iter = RectIter::from(rect);
    assert_eq!(iter.collect(), vec![(0, 1), (1, 1), (2, 1), (0, 2), (1, 2), (2, 2)]);
}

#[test]
fn any_shape_dispatches() {
    let shapes = [
        AnyShape::from(Line::new((0, 0), (2, 0))),
        AnyShape::from(Circle::new((0, 0), 1)),
        AnyShape::from(Rectangle::new((0, 0), (1, 1))),
    ];
    let counts: Vec<u32> = shapes.iter().map(|s| s.get_count()).collect();
    assert_eq!(counts, vec![2, 5, 4]);
    let sizes: Vec<usize> = shapes.iter().map(|s| s.get_positions().len()).collect();
    assert_eq!(sizes, vec![3, 5, 4]);
    assert!(shapes.iter().all(|s| s.contains((1, 0))));
    assert!(!shapes[0].contains((1, 1)));
    assert!(!shapes[1].contains((1, 1)));
    assert!(shapes[2].contains((1, 1)));
    assert_eq!(shapes[0], AnyShape::Line(Line::new((0, 0), (2, 0))));
}

#[test]
fn circle_arc_follows_its_measure() {
    for radius in 1..60i32 {
        let limit = radius * radius + radius - (5 - 4 * radius) / 4;
        let mut expected = HashSet::new();
        let mut x = 0;
        let mut y = radius;
        while x <= y {
            for (u, v) in [(x, y), (y, x)] {
                for (su, sv) in [(1, 1), (1, -1), (-1, 1), (-1, -1)] {
                    expected.insert((10 + su * u, -20 + sv * v));
                }
            }
            x += 1;
            // the greatest height whose measure one column to the left lies below the limit
            y = (0..=radius)
                .rev()
                .find(|h| (x - 1) * (x - 1) + h * h + h < limit)
                .unwrap_or(-1);
        }
        let boundary = set_of(&Circle::new((10, -20), radius as u32).get_circumfrence());
        assert_eq!(boundary, expected, "radius {}", radius);
    }
}

#[test]
fn circle_filled_has_no_holes() {
    for radius in 0..25u32 {
        let circle = Circle::new((0, 0), radius);
        let filled = set_of(&circle.get_positions());
        let boundary = set_of(&circle.get_circumfrence());
        for &(x, y) in &boundary {
            // every point between a boundary point and the axis below or above it is covered
            let (low, high) = if y < 0 { (y, 0) } else { (0, y) };
            for v in low..=high {
                assert!(filled.contains(&(x, v)), "radius {} misses {:?}", radius, (x, v));
            }
        }
        // and the filled circle is its own mirror image across the diagonal
        for &(x, y) in &filled {
            assert!(filled.contains(&(y, x)));
        }
    }
}
