//! Lattice points: pairs of machine integers read as pairs of integers.
use vstd::prelude::*;

verus! {

/// A pair of machine integers read as a lattice point.
pub open spec fn point_of(p: (i32, i32)) -> (int, int) {
    (p.0 as int, p.1 as int)
}

/// A sequence of machine points read as lattice points.
pub open spec fn points_of(s: Seq<(i32, i32)>) -> Seq<(int, int)> {
    s.map_values(|p: (i32, i32)| point_of(p))
}

/// Reading machine points as lattice points loses nothing: a point occurs in a
/// sequence exactly if its reading occurs among the readings.
pub proof fn lemma_points_of_injective(s: Seq<(i32, i32)>, p: (i32, i32))
    ensures
        s.contains(p) <==> points_of(s).to_set().contains(point_of(p)),
{
    if s.contains(p) {
        let i = choose|i: int| 0 <= i < s.len() && s[i] == p;
        assert(points_of(s)[i] == point_of(p));
    }
    if points_of(s).to_set().contains(point_of(p)) {
        let i = choose|i: int| 0 <= i < points_of(s).len() && points_of(s)[i] == point_of(p);
        assert(point_of(s[i]) == point_of(p));
        assert(s[i] == p);
    }
}

/// Reading a sequence with one more point gives the readings with one more.
pub proof fn lemma_points_of_push(s: Seq<(i32, i32)>, p: (i32, i32))
    ensures
        points_of(s.push(p)) == points_of(s).push(point_of(p)),
{
    assert(points_of(s.push(p)) =~= points_of(s).push(point_of(p)));
}

} // verus!
