//! What every rasterized shape offers: its points, their number, and a
//! membership test.
use vstd::prelude::*;
use crate::lattice::{lemma_points_of_injective, point_of, points_of};

verus! {

/// A shape on the integer lattice.
pub trait Shape {
    /// Every point of the shape has coordinates that fit the machine integers.
    spec fn valid(&self) -> bool;

    /// The lattice points that the shape covers.
    spec fn point_set(&self) -> Set<(int, int)>;

    /// The number that `get_count` reports.
    spec fn count(&self) -> int;

    /// Get the count of the shape
    fn get_count(&self) -> (count: u32)
        requires
            self.valid(),
            0 <= self.count() <= u32::MAX,
        ensures
            count == self.count(),
    ;

    /// Check whether the shape covers a position
    fn contains(&self, position: (i32, i32)) -> (found: bool)
        requires
            self.valid(),
        ensures
            found == self.point_set().contains(point_of(position)),
    ;

    /// Get the points of the shape, each of them once
    fn get_positions(&self) -> (positions: Vec<(i32, i32)>)
        requires
            self.valid(),
        ensures
            positions@.no_duplicates(),
            points_of(positions@).to_set() =~= self.point_set(),
    ;
}

/// Whether `position` occurs in `positions`.
pub fn positions_contain(positions: &Vec<(i32, i32)>, position: (i32, i32)) -> (found: bool)
    ensures
        found == positions@.contains(position),
        found == points_of(positions@).to_set().contains(point_of(position)),
{
    let mut i: usize = 0;
    while i < positions.len()
        invariant
            i <= positions.len(),
            forall|j: int| 0 <= j < i ==> positions@[j] != position,
        decreases positions.len() - i,
    {
        if positions[i].0 == position.0 && positions[i].1 == position.1 {
            proof {
                assert(positions@[i as int] == position);
                assert(points_of(positions@)[i as int] == point_of(position));
            }
            return true;
        }
        i += 1;
    }
    proof {
        lemma_points_of_injective(positions@, position);
    }
    false
}

} // verus!
