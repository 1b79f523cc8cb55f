//! The eight symmetric coordinate transforms that bring any direction vector
//! into the canonical first octant.
use vstd::prelude::*;
use crate::lattice::point_of;

verus! {

/// The tag of the octant in which the vector `(dx, dy)` lies.
///
/// A vector pointing downwards is turned by a half circle (tag + 4), one that
/// then points to the left is turned by a quarter circle (tag + 2), and one
/// that then lies above the diagonal is mirrored at it (tag + 1).
pub open spec fn octant_tag(dx: int, dy: int) -> int {
    let half: int = if dy < 0 { 4 } else { 0 };
    let (ax, ay) = if dy < 0 { (-dx, -dy) } else { (dx, dy) };
    let quarter: int = if ax < 0 { 2 } else { 0 };
    let (bx, by) = if ax < 0 { (ay, -ax) } else { (ax, ay) };
    let diagonal: int = if bx < by { 1 } else { 0 };
    half + quarter + diagonal
}

/// The transform of octant `tag` applied to `p`: a vector that lies in that
/// octant is carried into the first one.
pub open spec fn octant_to_offset(tag: int, p: (int, int)) -> (int, int) {
    if tag == 0 {
        (p.0, p.1)
    } else if tag == 1 {
        (p.1, p.0)
    } else if tag == 2 {
        (p.1, -p.0)
    } else if tag == 3 {
        (-p.0, p.1)
    } else if tag == 4 {
        (-p.0, -p.1)
    } else if tag == 5 {
        (-p.1, -p.0)
    } else if tag == 6 {
        (-p.1, p.0)
    } else {
        (p.0, -p.1)
    }
}

/// The inverse of [`octant_to_offset`] for the same `tag`.
pub open spec fn octant_from_offset(tag: int, o: (int, int)) -> (int, int) {
    if tag == 0 {
        (o.0, o.1)
    } else if tag == 1 {
        (o.1, o.0)
    } else if tag == 2 {
        (-o.1, o.0)
    } else if tag == 3 {
        (-o.0, o.1)
    } else if tag == 4 {
        (-o.0, -o.1)
    } else if tag == 5 {
        (-o.1, -o.0)
    } else if tag == 6 {
        (o.1, -o.0)
    } else {
        (o.0, -o.1)
    }
}

/// An octant
#[derive(Debug, Clone)]
pub struct Octant(pub u8);

impl Octant {
    /// The tag names one of the eight octants.
    pub open spec fn wf(&self) -> bool {
        self.0 < 8
    }

    /// `to_offset` negates the first coordinate in this octant.
    pub open spec fn to_negates_x(&self) -> bool {
        2 <= self.0 <= 5
    }

    /// `to_offset` negates the second coordinate in this octant.
    pub open spec fn to_negates_y(&self) -> bool {
        4 <= self.0 <= 7
    }

    /// `from_offset` negates the first coordinate in this octant.
    pub open spec fn from_negates_x(&self) -> bool {
        3 <= self.0 <= 6
    }

    /// `from_offset` negates the second coordinate in this octant.
    pub open spec fn from_negates_y(&self) -> bool {
        self.0 == 2 || self.0 == 4 || self.0 == 5 || self.0 == 7
    }

    /// converts a position into a coordinate relative `Octant(0)` offset
    #[inline]
    pub fn to_offset(&self, position: (i32, i32)) -> (offset: (i32, i32))
        requires
            self.wf(),
            self.to_negates_x() ==> position.0 > i32::MIN,
            self.to_negates_y() ==> position.1 > i32::MIN,
        ensures
            point_of(offset) == octant_to_offset(self.0 as int, point_of(position)),
    {
        match self.0 {
            0 => (position.0, position.1),
            1 => (position.1, position.0),
            2 => (position.1, -position.0),
            3 => (-position.0, position.1),
            4 => (-position.0, -position.1),
            5 => (-position.1, -position.0),
            6 => (-position.1, position.0),
            _ => (position.0, -position.1),
        }
    }

    /// converts from a `Octant(0)` relative coordinate into a `(i32, i32)`
    #[inline]
    #[allow(clippy::wrong_self_convention)]
    pub fn from_offset(&self, offset: (i32, i32)) -> (position: (i32, i32))
        requires
            self.wf(),
            self.from_negates_x() ==> offset.0 > i32::MIN,
            self.from_negates_y() ==> offset.1 > i32::MIN,
        ensures
            point_of(position) == octant_from_offset(self.0 as int, point_of(offset)),
    {
        match self.0 {
            0 => (offset.0, offset.1),
            1 => (offset.1, offset.0),
            2 => (-offset.1, offset.0),
            3 => (-offset.0, offset.1),
            4 => (-offset.0, -offset.1),
            5 => (-offset.1, -offset.0),
            6 => (offset.1, -offset.0),
            _ => (offset.0, -offset.1),
        }
    }

    /// `to_offset` on wide coordinates, for vectors that span the whole `i32` range.
    pub(crate) fn to_offset_wide(&self, position: (i64, i64)) -> (offset: (i64, i64))
        requires
            self.wf(),
            position.0 > i64::MIN,
            position.1 > i64::MIN,
        ensures
            (offset.0 as int, offset.1 as int) == octant_to_offset(
                self.0 as int,
                (position.0 as int, position.1 as int),
            ),
    {
        match self.0 {
            0 => (position.0, position.1),
            1 => (position.1, position.0),
            2 => (position.1, -position.0),
            3 => (-position.0, position.1),
            4 => (-position.0, -position.1),
            5 => (-position.1, -position.0),
            6 => (-position.1, position.0),
            _ => (position.0, -position.1),
        }
    }

    /// `from_offset` on wide coordinates, for vectors that span the whole `i32` range.
    pub(crate) fn from_offset_wide(&self, offset: (i64, i64)) -> (position: (i64, i64))
        requires
            self.wf(),
            offset.0 > i64::MIN,
            offset.1 > i64::MIN,
        ensures
            (position.0 as int, position.1 as int) == octant_from_offset(
                self.0 as int,
                (offset.0 as int, offset.1 as int),
            ),
    {
        match self.0 {
            0 => (offset.0, offset.1),
            1 => (offset.1, offset.0),
            2 => (-offset.1, offset.0),
            3 => (-offset.0, offset.1),
            4 => (-offset.0, -offset.1),
            5 => (-offset.1, -offset.0),
            6 => (offset.1, -offset.0),
            _ => (offset.0, -offset.1),
        }
    }

    /// Creates a new `Octant` from two points
    #[inline(always)]
    pub fn new(position: (i32, i32), other: (i32, i32)) -> (octant: Self)
        ensures
            octant.wf(),
            octant.0 as int == octant_tag(other.0 - position.0, other.1 - position.1),
    {
        let mut dx: i64 = other.0 as i64 - position.0 as i64;
        let mut dy: i64 = other.1 as i64 - position.1 as i64;
        let mut octant: u8 = 0;
        if dy < 0 {
            dx = -dx;
            dy = -dy;
            octant += 4;
        }
        if dx < 0 {
            let tmp: i64 = dx;
            dx = dy;
            dy = -tmp;
            octant += 2;
        }
        if dx < dy {
            octant += 1;
        }
        Self(octant)
    }
}

/// `from_offset` undoes `to_offset` in each of the eight octants.
pub proof fn lemma_from_offset_inverts_to_offset(tag: int, p: (int, int))
    requires
        0 <= tag < 8,
    ensures
        octant_from_offset(tag, octant_to_offset(tag, p)) == p,
{
}

/// `to_offset` undoes `from_offset` in each of the eight octants.
pub proof fn lemma_to_offset_inverts_from_offset(tag: int, o: (int, int))
    requires
        0 <= tag < 8,
    ensures
        octant_to_offset(tag, octant_from_offset(tag, o)) == o,
{
}

/// The octant of a vector carries that vector into the first octant:
/// its image has `x >= y >= 0`.
pub proof fn lemma_octant_normalizes(dx: int, dy: int)
    ensures
        0 <= octant_tag(dx, dy) < 8,
        0 <= octant_to_offset(octant_tag(dx, dy), (dx, dy)).1 <= octant_to_offset(
            octant_tag(dx, dy),
            (dx, dy),
        ).0,
{
}

} // verus!
