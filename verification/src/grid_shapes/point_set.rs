//! A set of lattice points that remembers the order in which they came.
use vstd::prelude::*;
use std::collections::HashSet;
use crate::lattice::{point_of, points_of};

verus! {

/// The number under which a point is remembered: its two coordinates, each
/// moved into the unsigned range, side by side.
pub open spec fn point_key(p: (i32, i32)) -> int {
    (p.0 - i32::MIN) * 0x1_0000_0000 + (p.1 - i32::MIN)
}

/// Different points have different keys.
pub proof fn lemma_point_key_injective(p: (i32, i32), q: (i32, i32))
    requires
        point_key(p) == point_key(q),
    ensures
        p == q,
{
}

fn key_of(p: (i32, i32)) -> (key: u64)
    ensures
        key == point_key(p),
{
    let high: u64 = (p.0 as i64 - i32::MIN as i64) as u64;
    let low: u64 = (p.1 as i64 - i32::MIN as i64) as u64;
    high * 0x1_0000_0000 + low
}

/// A set of lattice points, kept in the order of their first insertion.
pub struct PointSet {
    points: Vec<(i32, i32)>,
    seen: HashSet<u64>,
}

impl PointSet {
    /// The points of the set in the order in which they were first inserted.
    pub closed spec fn view(&self) -> Seq<(i32, i32)> {
        self.points@
    }

    /// No point is held twice, and exactly the points held are remembered.
    pub closed spec fn wf(&self) -> bool {
        &&& self.points@.no_duplicates()
        &&& forall|p: (i32, i32)|
            self.points@.contains(p) <==> self.seen@.contains(#[trigger] point_key(p) as u64)
    }

    /// The lattice points that the set holds.
    pub open spec fn point_set(&self) -> Set<(int, int)> {
        points_of(self@).to_set()
    }

    /// An empty set.
    pub fn new() -> (set: Self)
        ensures
            set.wf(),
            set@ == Seq::<(i32, i32)>::empty(),
    {
        Self { points: Vec::new(), seen: HashSet::new() }
    }

    /// Whether the set holds `position`.
    pub fn contains(&self, position: (i32, i32)) -> (found: bool)
        requires
            self.wf(),
        ensures
            found == self@.contains(position),
    {
        broadcast use vstd::std_specs::hash::group_hash_axioms;

        let key = key_of(position);
        self.seen.contains(&key)
    }

    /// Adds `position` unless the set holds it already; says whether it was added.
    pub fn insert(&mut self, position: (i32, i32)) -> (added: bool)
        requires
            old(self).wf(),
        ensures
            final(self).wf(),
            added == !old(self)@.contains(position),
            final(self)@ == if added {
                old(self)@.push(position)
            } else {
                old(self)@
            },
            forall|p: (i32, i32)|
                final(self)@.contains(p) <==> old(self)@.contains(p) || p == position,
    {
        broadcast use vstd::std_specs::hash::group_hash_axioms;

        let key = key_of(position);
        let added = self.seen.insert(key);
        if added {
            self.points.push(position);
            proof {
                let before = old(self).points@;
                assert(self.points@[before.len() as int] == position);
                assert forall|p: (i32, i32)| before.contains(p) implies self.points@.contains(
                    p,
                ) by {
                    let i = choose|i: int| 0 <= i < before.len() && before[i] == p;
                    assert(self.points@[i] == p);
                }
                assert forall|p: (i32, i32)|
                    self.points@.contains(p) <==> self.seen@.contains(
                        #[trigger] point_key(p) as u64,
                    ) by {
                    if self.points@.contains(p) {
                        let i = choose|i: int| 0 <= i < self.points@.len() && self.points@[i] == p;
                        if i < before.len() {
                            assert(before[i] == p);
                            assert(before.contains(p));
                        }
                    }
                    if self.seen@.contains(point_key(p) as u64) {
                        if point_key(p) as u64 == key {
                            lemma_point_key_injective(p, position);
                            assert(self.points@[before.len() as int] == p);
                        } else {
                            assert(before.contains(p));
                            let i = choose|i: int| 0 <= i < before.len() && before[i] == p;
                            assert(self.points@[i] == p);
                        }
                    }
                }
                assert(!before.contains(position));
            }
        }
        added
    }

    /// The number of points in the set.
    pub fn len(&self) -> (len: usize)
        ensures
            len == self@.len(),
    {
        self.points.len()
    }

    /// The points of the set, each of them once, in the order of insertion.
    pub fn into_vec(self) -> (points: Vec<(i32, i32)>)
        requires
            self.wf(),
        ensures
            points@ == self@,
            points@.no_duplicates(),
    {
        self.points
    }
}

/// Reading the points of a well-formed set as lattice points gives as many
/// lattice points as the set holds.
pub proof fn lemma_point_set_len(s: Seq<(i32, i32)>)
    requires
        s.no_duplicates(),
    ensures
        points_of(s).no_duplicates(),
        points_of(s).to_set().len() == s.len(),
        points_of(s).to_set().finite(),
{
    assert forall|i: int, j: int|
        0 <= i < s.len() && 0 <= j < s.len() && i != j implies points_of(s)[i] != points_of(
        s,
    )[j] by {
        assert(point_of(s[i]) != point_of(s[j]));
    }
    points_of(s).unique_seq_to_set();
}

} // verus!
