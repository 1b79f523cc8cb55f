//! Compass directions in the plane and up and down, kept as a set of flags.
use vstd::prelude::*;

verus! {

/// The bits that stand for the six base directions.
pub struct DirectionFlags;

impl DirectionFlags {
    /// Towards greater `y`.
    pub const NORTH: u8 = 1;

    /// Towards greater `x`.
    pub const EAST: u8 = 2;

    /// Towards smaller `y`.
    pub const SOUTH: u8 = 4;

    /// Towards smaller `x`.
    pub const WEST: u8 = 8;

    /// Towards greater `z`.
    pub const UP: u8 = 16;

    /// Towards smaller `z`.
    pub const DOWN: u8 = 32;
}

/// `bits` holds `flag`.
pub open spec fn has_flag(bits: u8, flag: u8) -> bool {
    bits & flag != 0
}

/// -1, 0 or 1 as `n` is negative, zero or positive.
pub open spec fn sign(n: int) -> int {
    if n < 0 {
        -1
    } else if n > 0 {
        1
    } else {
        0
    }
}

/// The flag for the sign of a coordinate: `positive` or `negative`, or none for zero.
pub open spec fn axis_flag(n: int, positive: u8, negative: u8) -> u8 {
    if n < 0 {
        negative
    } else if n > 0 {
        positive
    } else {
        0
    }
}

/// The coordinate that a pair of opposite flags stands for; the positive
/// flag wins where both are set.
pub open spec fn axis_coord(bits: u8, positive: u8, negative: u8) -> int {
    if has_flag(bits, positive) {
        1
    } else if has_flag(bits, negative) {
        -1
    } else {
        0
    }
}

/// A step in the plane turned by an eighth of a circle, counter clockwise.
pub open spec fn turn_left45(c: (int, int)) -> (int, int) {
    (sign(c.0 - c.1), sign(c.0 + c.1))
}

/// A step in the plane turned by a quarter of a circle, counter clockwise.
pub open spec fn turn_left90(c: (int, int)) -> (int, int) {
    (-c.1, c.0)
}

/// A set of the six base directions.
#[derive(Debug, Clone, Copy, PartialEq, Eq, Hash, Structural)]
pub struct Direction(pub u8);

// To-From Coord
impl Direction {
    /// The step in the plane that the direction stands for:
    /// `EAST` is 1 and `WEST` is -1 on the x axis, `NORTH` is 1 and `SOUTH`
    /// is -1 on the y axis.
    pub open spec fn spec_coord(self) -> (int, int) {
        (
            axis_coord(self.0, DirectionFlags::EAST, DirectionFlags::WEST),
            axis_coord(self.0, DirectionFlags::NORTH, DirectionFlags::SOUTH),
        )
    }

    /// The step up or down that the direction stands for: `UP` is 1 and
    /// `DOWN` is -1.
    pub open spec fn spec_lift(self) -> int {
        axis_coord(self.0, DirectionFlags::UP, DirectionFlags::DOWN)
    }

    /// The direction of a step in space: a flag for the sign of each coordinate.
    pub open spec fn spec_from_coord3d(c: (int, int, int)) -> Direction {
        Direction(
            axis_flag(c.0, DirectionFlags::EAST, DirectionFlags::WEST) | axis_flag(
                c.1,
                DirectionFlags::NORTH,
                DirectionFlags::SOUTH,
            ) | axis_flag(c.2, DirectionFlags::UP, DirectionFlags::DOWN),
        )
    }

    /// The direction with the same lift whose step in the plane is `c`.
    pub open spec fn spec_turned(self, c: (int, int)) -> Direction {
        Self::spec_from_coord3d((c.0, c.1, self.spec_lift()))
    }

    /// Retrieves the 2d coordinate value from the [`Direction`] where:
    ///
    /// `EAST` = `1` on the `X` axis
    ///
    /// `WEST` = `-1` on the `X` axis
    ///
    /// `NORTH` = `1` on the `Y` axis
    ///
    /// `SOUTH` = `-1` on the `Y` axis
    pub fn coord(self) -> (coord: (i32, i32))
        ensures
            (coord.0 as int, coord.1 as int) == self.spec_coord(),
    {
        let x: i32 = if self.has_east() {
            1
        } else if self.has_west() {
            -1
        } else {
            0
        };
        let y: i32 = if self.has_north() {
            1
        } else if self.has_south() {
            -1
        } else {
            0
        };
        (x, y)
    }

    /// The step up or down: 1 for `UP`, -1 for `DOWN`.
    fn lift(self) -> (z: i32)
        ensures
            z == self.spec_lift(),
    {
        if self.has_up() {
            1
        } else if self.has_down() {
            -1
        } else {
            0
        }
    }

    /// Retrieves the 3d coordinate value from the [`Direction`] where:
    ///
    /// `EAST` = `1` on the `X` axis
    ///
    /// `WEST` = `-1` on the `X` axis
    ///
    /// `NORTH` = `1` on the `Y` axis
    ///
    /// `SOUTH` = `-1` on the `Y` axis
    ///
    /// `UP` = `1` on the `Z` axis
    ///
    /// `DOWN` = `-1` on the `Z` axis
    pub fn coord3d(self) -> (coord: (i32, i32, i32))
        ensures
            (coord.0 as int, coord.1 as int) == self.spec_coord(),
            coord.2 == self.spec_lift(),
    {
        let z = self.lift();
        let (x, y) = self.coord();
        (x, y, z)
    }

    /// Retrieves the [`Direction`] from a 2d coordinate value where:
    ///
    /// `EAST` = `1` on the `X` axis
    ///
    /// `WEST` = `-1` on the `X` axis
    ///
    /// `NORTH` = `1` on the `Y` axis
    ///
    /// `SOUTH` = `-1` on the `Y` axis
    pub fn from_coord(coord: (i32, i32)) -> (direction: Self)
        ensures
            direction == Self::spec_from_coord3d((coord.0 as int, coord.1 as int, 0)),
    {
        let (x, y) = coord;
        Self::from_coord3d((x, y, 0))
    }

    /// Retrieves the [`Direction`] from a 3d coordinate value where:
    ///
    /// `EAST` = `1` on the `X` axis
    ///
    /// `WEST` = `-1` on the `X` axis
    ///
    /// `NORTH` = `1` on the `Y` axis
    ///
    /// `SOUTH` = `-1` on the `Y` axis
    ///
    /// `UP` = `1` on the `Z` axis
    ///
    /// `DOWN` = `-1` on the `Z` axis
    pub fn from_coord3d(coord: (i32, i32, i32)) -> (direction: Self)
        ensures
            direction == Self::spec_from_coord3d(
                (coord.0 as int, coord.1 as int, coord.2 as int),
            ),
    {
        // Check X
        let x: u8 = if coord.0 < 0 {
            DirectionFlags::WEST
        } else if coord.0 > 0 {
            DirectionFlags::EAST
        } else {
            0
        };
        // Check Y
        let y: u8 = if coord.1 < 0 {
            DirectionFlags::SOUTH
        } else if coord.1 > 0 {
            DirectionFlags::NORTH
        } else {
            0
        };
        // Check Z
        let z: u8 = if coord.2 < 0 {
            DirectionFlags::DOWN
        } else if coord.2 > 0 {
            DirectionFlags::UP
        } else {
            0
        };
        Self(x | y | z)
    }
}

// Rotations
impl Direction {
    /// The direction turned counter clockwise by an eighth of a circle.
    pub open spec fn spec_left45(self) -> Direction {
        self.spec_turned(turn_left45(self.spec_coord()))
    }

    /// The direction turned counter clockwise by a quarter of a circle.
    pub open spec fn spec_left90(self) -> Direction {
        self.spec_turned(turn_left90(self.spec_coord()))
    }

    /// The direction with every step reversed.
    pub open spec fn spec_opposite(self) -> Direction {
        Self::spec_from_coord3d((-self.spec_coord().0, -self.spec_coord().1, -self.spec_lift()))
    }

    /// The direction turned clockwise by a quarter of a circle.
    pub open spec fn spec_right90(self) -> Direction {
        self.spec_turned((self.spec_coord().1, -self.spec_coord().0))
    }

    /// The direction turned clockwise by an eighth of a circle.
    pub open spec fn spec_right45(self) -> Direction {
        self.spec_turned(
            (
                sign(self.spec_coord().0 + self.spec_coord().1),
                sign(self.spec_coord().1 - self.spec_coord().0),
            ),
        )
    }

    /// The direction turned counter clockwise by three eighths of a circle.
    pub open spec fn spec_left135(self) -> Direction {
        self.spec_turned(
            (
                sign(-self.spec_coord().0 - self.spec_coord().1),
                sign(self.spec_coord().0 - self.spec_coord().1),
            ),
        )
    }

    /// The direction turned clockwise by three eighths of a circle.
    pub open spec fn spec_right135(self) -> Direction {
        self.spec_turned(
            (
                sign(self.spec_coord().1 - self.spec_coord().0),
                sign(-self.spec_coord().0 - self.spec_coord().1),
            ),
        )
    }

    /// Rotates a [`Direction`] counter clockwise by three steps:
    ///
    /// `NORTH_EAST` becomes `WEST`
    ///
    /// `NORTH` becomes `SOUTH_WEST`
    ///
    /// etc...
    pub fn left135(self) -> (turned: Self)
        ensures
            turned == self.spec_left135(),
    {
        proof {
            lemma_coord_of_turned(self, turn_left90(self.spec_coord()));
        }
        self.left90().left45()
    }

    /// Rotates a [`Direction`] clockwise by three steps:
    ///
    /// `NORTH_EAST` becomes `SOUTH`
    ///
    /// `NORTH` becomes `SOUTH_EAST`
    ///
    /// etc...
    pub fn right135(self) -> (turned: Self)
        ensures
            turned == self.spec_right135(),
    {
        proof {
            lemma_coord_of_turned(self, (self.spec_coord().1, -self.spec_coord().0));
        }
        self.right90().right45()
    }

    /// Rotates a [`Direction`] clockwise by two steps:
    ///
    /// `NORTH_EAST` becomes `SOUTH_EAST`
    ///
    /// `NORTH` becomes `EAST`
    ///
    /// etc...
    pub fn right90(self) -> (turned: Self)
        ensures
            turned == self.spec_right90(),
    {
        proof {
            let c = self.spec_coord();
            lemma_coord_of_turned(self, turn_left90(c));
            lemma_coord_of_turned(self, turn_left90(turn_left90(c)));
        }
        self.left90().left90().left90()
    }

    /// Rotates a [`Direction`] clockwise by one step:
    ///
    /// `NORTH_EAST` becomes `EAST`
    ///
    /// `NORTH` becomes `NORTH_EAST`
    ///
    /// etc...
    pub fn right45(self) -> (turned: Self)
        ensures
            turned == self.spec_right45(),
    {
        proof {
            lemma_coord_of_turned(self, (self.spec_coord().1, -self.spec_coord().0));
        }
        self.right90().left45()
    }

    /// Rotates a [`Direction`] counter clockwise by one step:
    ///
    /// `NORTH_EAST` becomes `NORTH`
    ///
    /// `NORTH` becomes `NORTH_WEST`
    ///
    /// etc...
    pub fn left45(self) -> (turned: Self)
        ensures
            turned == self.spec_left45(),
    {
        let z = self.lift();
        let (x, y): (i32, i32) = if self.has_north() {
            if self.has_east() {
                (0, 1)  // NORTH_EAST -> NORTH
            } else if self.has_west() {
                (-1, 0)  // NORTH_WEST -> WEST
            } else {
                (-1, 1)  // NORTH -> NORTH_WEST
            }
        } else if self.has_south() {
            if self.has_east() {
                (1, 0)  // SOUTH_EAST -> EAST
            } else if self.has_west() {
                (0, -1)  // SOUTH_WEST -> SOUTH
            } else {
                (1, -1)  // SOUTH -> SOUTH_EAST
            }
        } else if self.has_east() {
            (1, 1)  // EAST -> NORTH_EAST
        } else if self.has_west() {
            (-1, -1)  // WEST -> SOUTH_WEST
        } else {
            (0, 0)  // Direction::{None, UP, DOWN}
        };
        Self::from_coord3d((x, y, z))
    }

    /// Rotates a [`Direction`] counter clockwise by two steps:
    ///
    /// `NORTH_EAST` becomes `NORTH_WEST`
    ///
    /// `NORTH` becomes `WEST`
    ///
    /// etc...
    pub fn left90(self) -> (turned: Self)
        ensures
            turned == self.spec_left90(),
    {
        let z = self.lift();
        let (x, y): (i32, i32) = if self.has_north() {
            if self.has_east() {
                (-1, 1)  // NORTH_EAST -> NORTH_WEST
            } else if self.has_west() {
                (-1, -1)  // NORTH_WEST -> SOUTH_WEST
            } else {
                (-1, 0)  // NORTH -> WEST
            }
        } else if self.has_south() {
            if self.has_east() {
                (1, 1)  // SOUTH_EAST -> NORTH_EAST
            } else if self.has_west() {
                (1, -1)  // SOUTH_WEST -> SOUTH_EAST
            } else {
                (1, 0)  // SOUTH -> EAST
            }
        } else if self.has_east() {
            (0, 1)  // EAST -> NORTH
        } else if self.has_west() {
            (0, -1)  // WEST -> SOUTH
        } else {
            (0, 0)  // Direction::{None, UP, DOWN}
        };
        Self::from_coord3d((x, y, z))
    }

    /// Retrieves the opposite (rotated by four steps) [`Direction`] from another [`Direction`]
    /// where:
    ///
    /// `NORTH` and `SOUTH` are opposite:
    ///
    /// `EAST` and `WEST` are opposite:
    ///
    /// `UP` and `DOWN` are opposite:
    pub fn opposite(self) -> (turned: Self)
        ensures
            turned == self.spec_opposite(),
    {
        let x: i32 = if self.has_east() {
            -1
        } else if self.has_west() {
            1
        } else {
            0
        };
        let y: i32 = if self.has_north() {
            -1
        } else if self.has_south() {
            1
        } else {
            0
        };
        let z: i32 = if self.has_up() {
            -1
        } else if self.has_down() {
            1
        } else {
            0
        };
        Self::from_coord3d((x, y, z))
    }
}

// Checks
impl Direction {
    /// Checks a [`Direction`] to determine if it is marked as `NORTH`
    ///
    /// Returns: `true` if [`Direction`] is marked `NORTH`
    pub fn has_north(self) -> (has: bool)
        ensures
            has == has_flag(self.0, DirectionFlags::NORTH),
    {
        self.0 & DirectionFlags::NORTH != 0
    }

    /// Checks a [`Direction`] to determine if it is marked as `SOUTH`
    ///
    /// Returns: `true` if [`Direction`] is marked `SOUTH`
    pub fn has_south(self) -> (has: bool)
        ensures
            has == has_flag(self.0, DirectionFlags::SOUTH),
    {
        self.0 & DirectionFlags::SOUTH != 0
    }

    /// Checks a [`Direction`] to determine if it is marked as `EAST`
    ///
    /// Returns: `true` if [`Direction`] is marked `EAST`
    pub fn has_east(self) -> (has: bool)
        ensures
            has == has_flag(self.0, DirectionFlags::EAST),
    {
        self.0 & DirectionFlags::EAST != 0
    }

    /// Checks a [`Direction`] to determine if it is marked as `WEST`
    ///
    /// Returns: `true` if [`Direction`] is marked `WEST`
    pub fn has_west(self) -> (has: bool)
        ensures
            has == has_flag(self.0, DirectionFlags::WEST),
    {
        self.0 & DirectionFlags::WEST != 0
    }

    /// Checks a [`Direction`] to determine if it is marked as `UP`
    ///
    /// Returns: `true` if [`Direction`] is marked `UP`
    pub fn has_up(self) -> (has: bool)
        ensures
            has == has_flag(self.0, DirectionFlags::UP),
    {
        self.0 & DirectionFlags::UP != 0
    }

    /// Checks a [`Direction`] to determine if it is marked as `DOWN`
    ///
    /// Returns: `true` if [`Direction`] is marked `DOWN`
    pub fn has_down(self) -> (has: bool)
        ensures
            has == has_flag(self.0, DirectionFlags::DOWN),
    {
        self.0 & DirectionFlags::DOWN != 0
    }

    /// Checks a [`Direction`] to determine if it is a [`CardinalDirection`]
    ///
    /// Returns: `true` if [`Direction`] contains a [`CardinalDirection`]
    /// NOTE: This function has no reguard for `UP` or `DOWN` therefore `Direction::UP_NORTH`
    /// will return `true`
    pub fn is_cardinal(self) -> (cardinal: bool)
        ensures
            cardinal == ((self.spec_coord().0 == 0) != (self.spec_coord().1 == 0)),
    {
        (self.has_north() || self.has_south()) && !(self.has_east() || self.has_west()) || (
        self.has_east() || self.has_west()) && !(self.has_north() || self.has_south())
    }

    /// Checks a [`Direction`] to determine if it is a [`OrdinalDirection`]
    ///
    /// Returns: `true` if [`Direction`] contains a [`OrdinalDirection`]
    /// NOTE: This function has no reguard for `UP` or `DOWN` therefore
    /// `Direction::UP_NORTH_EAST` will return `true`
    pub fn is_ordinal(self) -> (ordinal: bool)
        ensures
            ordinal == (self.spec_coord().0 != 0 && self.spec_coord().1 != 0),
    {
        (self.has_north() || self.has_south()) && (self.has_east() || self.has_west())
    }
}

// Named directions
impl Direction {
    /// Returns the `NO DIRECTION` [`Direction`]
    pub fn none() -> (direction: Self)
        ensures
            direction.0 == 0,
    {
        Self(0)
    }

    /// Returns the `NORTH` [`Direction`]
    pub fn north() -> (direction: Self)
        ensures
            direction.0 == DirectionFlags::NORTH,
    {
        Self(DirectionFlags::NORTH)
    }

    /// Returns the `NORTH_EAST` [`Direction`]
    pub fn north_east() -> (direction: Self)
        ensures
            direction.0 == DirectionFlags::NORTH + DirectionFlags::EAST,
    {
        Self(DirectionFlags::NORTH + DirectionFlags::EAST)
    }

    /// Returns the `EAST` [`Direction`]
    pub fn east() -> (direction: Self)
        ensures
            direction.0 == DirectionFlags::EAST,
    {
        Self(DirectionFlags::EAST)
    }

    /// Returns the `SOUTH_EAST` [`Direction`]
    pub fn south_east() -> (direction: Self)
        ensures
            direction.0 == DirectionFlags::SOUTH + DirectionFlags::EAST,
    {
        Self(DirectionFlags::SOUTH + DirectionFlags::EAST)
    }

    /// Returns the `SOUTH` [`Direction`]
    pub fn south() -> (direction: Self)
        ensures
            direction.0 == DirectionFlags::SOUTH,
    {
        Self(DirectionFlags::SOUTH)
    }

    /// Returns the `SOUTH_WEST` [`Direction`]
    pub fn south_west() -> (direction: Self)
        ensures
            direction.0 == DirectionFlags::SOUTH + DirectionFlags::WEST,
    {
        Self(DirectionFlags::SOUTH + DirectionFlags::WEST)
    }

    /// Returns the `WEST` [`Direction`]
    pub fn west() -> (direction: Self)
        ensures
            direction.0 == DirectionFlags::WEST,
    {
        Self(DirectionFlags::WEST)
    }

    /// Returns the `NORTH_WEST` [`Direction`]
    pub fn north_west() -> (direction: Self)
        ensures
            direction.0 == DirectionFlags::NORTH + DirectionFlags::WEST,
    {
        Self(DirectionFlags::NORTH + DirectionFlags::WEST)
    }

    /// Returns the `UP` [`Direction`]
    pub fn up() -> (direction: Self)
        ensures
            direction.0 == DirectionFlags::UP,
    {
        Self(DirectionFlags::UP)
    }

    /// Returns the `UP_NORTH` [`Direction`]
    pub fn up_north() -> (direction: Self)
        ensures
            direction.0 == DirectionFlags::UP + DirectionFlags::NORTH,
    {
        Self(DirectionFlags::UP + DirectionFlags::NORTH)
    }

    /// Returns the `UP_NORTH_EAST` [`Direction`]
    pub fn up_north_east() -> (direction: Self)
        ensures
            direction.0 == DirectionFlags::UP + DirectionFlags::NORTH + DirectionFlags::EAST,
    {
        Self(DirectionFlags::UP + DirectionFlags::NORTH + DirectionFlags::EAST)
    }

    /// Returns the `UP_EAST` [`Direction`]
    pub fn up_east() -> (direction: Self)
        ensures
            direction.0 == DirectionFlags::UP + DirectionFlags::EAST,
    {
        Self(DirectionFlags::UP + DirectionFlags::EAST)
    }

    /// Returns the `UP_SOUTH_EAST` [`Direction`]
    pub fn up_south_east() -> (direction: Self)
        ensures
            direction.0 == DirectionFlags::UP + DirectionFlags::SOUTH + DirectionFlags::EAST,
    {
        Self(DirectionFlags::UP + DirectionFlags::SOUTH + DirectionFlags::EAST)
    }

    /// Returns the `UP_SOUTH` [`Direction`]
    pub fn up_south() -> (direction: Self)
        ensures
            direction.0 == DirectionFlags::UP + DirectionFlags::SOUTH,
    {
        Self(DirectionFlags::UP + DirectionFlags::SOUTH)
    }

    /// Returns the `UP_SOUTH_WEST` [`Direction`]
    pub fn up_south_west() -> (direction: Self)
        ensures
            direction.0 == DirectionFlags::UP + DirectionFlags::SOUTH + DirectionFlags::WEST,
    {
        Self(DirectionFlags::UP + DirectionFlags::SOUTH + DirectionFlags::WEST)
    }

    /// Returns the `UP_WEST` [`Direction`]
    pub fn up_west() -> (direction: Self)
        ensures
            direction.0 == DirectionFlags::UP + DirectionFlags::WEST,
    {
        Self(DirectionFlags::UP + DirectionFlags::WEST)
    }

    /// Returns the `UP_NORTH_WEST` [`Direction`]
    pub fn up_north_west() -> (direction: Self)
        ensures
            direction.0 == DirectionFlags::UP + DirectionFlags::NORTH + DirectionFlags::WEST,
    {
        Self(DirectionFlags::UP + DirectionFlags::NORTH + DirectionFlags::WEST)
    }

    /// Returns the `DOWN` [`Direction`]
    pub fn down() -> (direction: Self)
        ensures
            direction.0 == DirectionFlags::DOWN,
    {
        Self(DirectionFlags::DOWN)
    }

    /// Returns the `DOWN_NORTH` [`Direction`]
    pub fn down_north() -> (direction: Self)
        ensures
            direction.0 == DirectionFlags::DOWN + DirectionFlags::NORTH,
    {
        Self(DirectionFlags::DOWN + DirectionFlags::NORTH)
    }

    /// Returns the `DOWN_NORTH_EAST` [`Direction`]
    pub fn down_north_east() -> (direction: Self)
        ensures
            direction.0 == DirectionFlags::DOWN + DirectionFlags::NORTH + DirectionFlags::EAST,
    {
        Self(DirectionFlags::DOWN + DirectionFlags::NORTH + DirectionFlags::EAST)
    }

    /// Returns the `DOWN_EAST` [`Direction`]
    pub fn down_east() -> (direction: Self)
        ensures
            direction.0 == DirectionFlags::DOWN + DirectionFlags::EAST,
    {
        Self(DirectionFlags::DOWN + DirectionFlags::EAST)
    }

    /// Returns the `DOWN_SOUTH_EAST` [`Direction`]
    pub fn down_south_east() -> (direction: Self)
        ensures
            direction.0 == DirectionFlags::DOWN + DirectionFlags::SOUTH + DirectionFlags::EAST,
    {
        Self(DirectionFlags::DOWN + DirectionFlags::SOUTH + DirectionFlags::EAST)
    }

    /// Returns the `DOWN_SOUTH` [`Direction`]
    pub fn down_south() -> (direction: Self)
        ensures
            direction.0 == DirectionFlags::DOWN + DirectionFlags::SOUTH,
    {
        Self(DirectionFlags::DOWN + DirectionFlags::SOUTH)
    }

    /// Returns the `DOWN_SOUTH_WEST` [`Direction`]
    pub fn down_south_west() -> (direction: Self)
        ensures
            direction.0 == DirectionFlags::DOWN + DirectionFlags::SOUTH + DirectionFlags::WEST,
    {
        Self(DirectionFlags::DOWN + DirectionFlags::SOUTH + DirectionFlags::WEST)
    }

    /// Returns the `DOWN_WEST` [`Direction`]
    pub fn down_west() -> (direction: Self)
        ensures
            direction.0 == DirectionFlags::DOWN + DirectionFlags::WEST,
    {
        Self(DirectionFlags::DOWN + DirectionFlags::WEST)
    }

    /// Returns the `DOWN_NORTH_WEST` [`Direction`]
    pub fn down_north_west() -> (direction: Self)
        ensures
            direction.0 == DirectionFlags::DOWN + DirectionFlags::NORTH + DirectionFlags::WEST,
    {
        Self(DirectionFlags::DOWN + DirectionFlags::NORTH + DirectionFlags::WEST)
    }
}

/// Includes Directions [`NORTH`, `EAST`, `SOUTH`, `WEST`]
pub struct CardinalDirection;

impl CardinalDirection {
    /// Returns a [`Direction`] representing `EAST`
    pub fn east() -> (direction: Direction)
        ensures
            direction.0 == DirectionFlags::EAST,
    {
        Direction::east()
    }

    /// Returns a [`Direction`] representing `NORTH`
    pub fn north() -> (direction: Direction)
        ensures
            direction.0 == DirectionFlags::NORTH,
    {
        Direction::north()
    }

    /// Returns a [`Direction`] representing `SOUTH`
    pub fn south() -> (direction: Direction)
        ensures
            direction.0 == DirectionFlags::SOUTH,
    {
        Direction::south()
    }

    /// Returns a [`Direction`] representing `WEST`
    pub fn west() -> (direction: Direction)
        ensures
            direction.0 == DirectionFlags::WEST,
    {
        Direction::west()
    }

    /// Returns an iterator over the [`Direction`]s [`NORTH`, `EAST`, `SOUTH`, `WEST`]
    pub fn iter() -> (iter: DirectionIter)
        ensures
            iter.wf(),
            iter@ == cardinal_directions(),
    {
        DirectionIter::cardinal()
    }
}

/// Includes Directions [`NORTH_EAST`, `SOUTH_EAST`, `SOUTH_WEST`, `NORTH_WEST`]
pub struct OrdinalDirection;

impl OrdinalDirection {
    /// Returns a [`Direction`] representing `NORTH_EAST`
    pub fn north_east() -> (direction: Direction)
        ensures
            direction.0 == DirectionFlags::NORTH + DirectionFlags::EAST,
    {
        Direction::north_east()
    }

    /// Returns a [`Direction`] representing `NORTH_WEST`
    pub fn north_west() -> (direction: Direction)
        ensures
            direction.0 == DirectionFlags::NORTH + DirectionFlags::WEST,
    {
        Direction::north_west()
    }

    /// Returns a [`Direction`] representing `SOUTH_EAST`
    pub fn south_east() -> (direction: Direction)
        ensures
            direction.0 == DirectionFlags::SOUTH + DirectionFlags::EAST,
    {
        Direction::south_east()
    }

    /// Returns a [`Direction`] representing `SOUTH_WEST`
    pub fn south_west() -> (direction: Direction)
        ensures
            direction.0 == DirectionFlags::SOUTH + DirectionFlags::WEST,
    {
        Direction::south_west()
    }

    /// Returns an iterator over the [`Direction`]s [`NORTH_EAST`, `SOUTH_EAST`, `SOUTH_WEST`,
    /// `NORTH_WEST`]
    pub fn iter() -> (iter: DirectionIter)
        ensures
            iter.wf(),
            iter@ == ordinal_directions(),
    {
        DirectionIter::ordinal()
    }
}

/// Includes Directions [`UP`, `DOWN`]
pub struct VerticalDirection;

impl VerticalDirection {
    /// Returns a [`Direction`] representing `DOWN`
    pub fn down() -> (direction: Direction)
        ensures
            direction.0 == DirectionFlags::DOWN,
    {
        Direction::down()
    }

    /// Returns a [`Direction`] representing `UP`
    pub fn up() -> (direction: Direction)
        ensures
            direction.0 == DirectionFlags::UP,
    {
        Direction::up()
    }

    /// Returns an iterator over the [`Direction`]s [`UP`, `DOWN`]
    pub fn iter() -> (iter: DirectionIter)
        ensures
            iter.wf(),
            iter@ == vertical_directions(),
    {
        DirectionIter::vertical()
    }
}

/// `NORTH`, `EAST`, `SOUTH`, `WEST`.
pub open spec fn cardinal_directions() -> Seq<Direction> {
    seq![Direction(1), Direction(2), Direction(4), Direction(8)]
}

/// `NORTH_EAST`, `SOUTH_EAST`, `SOUTH_WEST`, `NORTH_WEST`.
pub open spec fn ordinal_directions() -> Seq<Direction> {
    seq![Direction(3), Direction(6), Direction(12), Direction(9)]
}

/// `UP`, `DOWN`.
pub open spec fn vertical_directions() -> Seq<Direction> {
    seq![Direction(16), Direction(32)]
}

/// The eight directions of the plane, clockwise from `NORTH`.
pub open spec fn cardinal_ordinal_directions() -> Seq<Direction> {
    seq![
        Direction(1),
        Direction(3),
        Direction(2),
        Direction(6),
        Direction(4),
        Direction(12),
        Direction(8),
        Direction(9),
    ]
}

/// The directions of the plane, each with `lift` added, after `lift` itself.
pub open spec fn lifted_directions(lift: u8) -> Seq<Direction> {
    seq![Direction(lift)] + cardinal_ordinal_directions().map_values(
        |d: Direction| Direction((d.0 + lift) as u8),
    )
}

/// Every direction but none: those of the plane, then those that point up,
/// then those that point down.
pub open spec fn all_directions() -> Seq<Direction> {
    cardinal_ordinal_directions() + lifted_directions(DirectionFlags::UP) + lifted_directions(
        DirectionFlags::DOWN,
    )
}

/// A walk over a list of directions.
pub struct DirectionIter {
    directions: Vec<Direction>,
    passed: usize,
}

impl View for DirectionIter {
    type V = Seq<Direction>;

    /// The directions that are still to come, in their order.
    closed spec fn view(&self) -> Seq<Direction> {
        self.directions@.skip(self.passed as int)
    }
}

impl DirectionIter {
    /// The walk has not gone beyond its end.
    pub closed spec fn wf(&self) -> bool {
        self.passed <= self.directions@.len()
    }

    fn over(directions: Vec<Direction>) -> (iter: Self)
        ensures
            iter.wf(),
            iter@ == directions@,
    {
        proof {
            assert(directions@.skip(0) =~= directions@);
        }
        Self { directions, passed: 0 }
    }

    /// The walk over [`NORTH`, `EAST`, `SOUTH`, `WEST`]
    pub fn cardinal() -> (iter: Self)
        ensures
            iter.wf(),
            iter@ == cardinal_directions(),
    {
        let mut directions: Vec<Direction> = Vec::new();
        directions.push(Direction::north());
        directions.push(Direction::east());
        directions.push(Direction::south());
        directions.push(Direction::west());
        proof {
            assert(directions@ =~= cardinal_directions());
        }
        Self::over(directions)
    }

    /// The walk over [`NORTH_EAST`, `SOUTH_EAST`, `SOUTH_WEST`, `NORTH_WEST`]
    pub fn ordinal() -> (iter: Self)
        ensures
            iter.wf(),
            iter@ == ordinal_directions(),
    {
        let mut directions: Vec<Direction> = Vec::new();
        directions.push(Direction::north_east());
        directions.push(Direction::south_east());
        directions.push(Direction::south_west());
        directions.push(Direction::north_west());
        proof {
            assert(directions@ =~= ordinal_directions());
        }
        Self::over(directions)
    }

    /// The walk over [`UP`, `DOWN`]
    pub fn vertical() -> (iter: Self)
        ensures
            iter.wf(),
            iter@ == vertical_directions(),
    {
        let mut directions: Vec<Direction> = Vec::new();
        directions.push(Direction::up());
        directions.push(Direction::down());
        proof {
            assert(directions@ =~= vertical_directions());
        }
        Self::over(directions)
    }

    /// The eight directions of the plane, clockwise from `NORTH`.
    fn plane() -> (directions: Vec<Direction>)
        ensures
            directions@ == cardinal_ordinal_directions(),
    {
        let mut directions: Vec<Direction> = Vec::new();
        directions.push(Direction::north());
        directions.push(Direction::north_east());
        directions.push(Direction::east());
        directions.push(Direction::south_east());
        directions.push(Direction::south());
        directions.push(Direction::south_west());
        directions.push(Direction::west());
        directions.push(Direction::north_west());
        proof {
            assert(directions@ =~= cardinal_ordinal_directions());
        }
        directions
    }

    /// The walk over [`NORTH`, `NORTH_EAST`, `EAST`, `SOUTH_EAST`, `SOUTH`, `SOUTH_WEST`,
    /// `WEST`, `NORTH_WEST`]
    pub fn cardinal_ordinal() -> (iter: Self)
        ensures
            iter.wf(),
            iter@ == cardinal_ordinal_directions(),
    {
        Self::over(Self::plane())
    }

    /// The walk over the directions of the plane, then `UP` and `DOWN`
    pub fn cardinal_ordinal_vertical() -> (iter: Self)
        ensures
            iter.wf(),
            iter@ == cardinal_ordinal_directions() + vertical_directions(),
    {
        let mut directions = Self::plane();
        directions.push(Direction::up());
        directions.push(Direction::down());
        proof {
            assert(directions@ =~= cardinal_ordinal_directions() + vertical_directions());
        }
        Self::over(directions)
    }

    /// Appends `lift` and the directions of the plane with `lift` added.
    fn push_lifted(directions: &mut Vec<Direction>, lift: u8)
        requires
            lift == DirectionFlags::UP || lift == DirectionFlags::DOWN,
        ensures
            final(directions)@ == old(directions)@ + lifted_directions(lift),
    {
        let plane = Self::plane();
        directions.push(Direction(lift));
        let mut i: usize = 0;
        while i < plane.len()
            invariant
                i <= plane@.len(),
                plane@ == cardinal_ordinal_directions(),
                lift == DirectionFlags::UP || lift == DirectionFlags::DOWN,
                directions@ =~= old(directions)@ + lifted_directions(lift).take(i + 1),
            decreases plane@.len() - i,
        {
            directions.push(Direction(plane[i].0 + lift));
            i += 1;
        }
        proof {
            assert(lifted_directions(lift).take(9) =~= lifted_directions(lift));
        }
    }

    /// The walk over every direction but none
    pub fn all_3d() -> (iter: Self)
        ensures
            iter.wf(),
            iter@ == all_directions(),
    {
        let mut directions = Self::plane();
        Self::push_lifted(&mut directions, DirectionFlags::UP);
        Self::push_lifted(&mut directions, DirectionFlags::DOWN);
        Self::over(directions)
    }

    /// The next direction of the walk, if there is one.
    pub fn next(&mut self) -> (item: Option<Direction>)
        requires
            old(self).wf(),
        ensures
            final(self).wf(),
            match item {
                Some(direction) => old(self)@.len() > 0 && direction == old(self)@[0]
                    && final(self)@ == old(self)@.skip(1),
                None => old(self)@.len() == 0 && final(self)@ == old(self)@,
            },
    {
        if self.passed < self.directions.len() {
            let direction = self.directions[self.passed];
            self.passed += 1;
            proof {
                assert(self@ =~= old(self)@.skip(1));
            }
            Some(direction)
        } else {
            None
        }
    }

    /// The directions that are still to come, in their order.
    pub fn collect(self) -> (directions: Vec<Direction>)
        requires
            self.wf(),
        ensures
            directions@ == self@,
    {
        let mut directions: Vec<Direction> = Vec::new();
        let mut i: usize = self.passed;
        while i < self.directions.len()
            invariant
                self.passed <= i <= self.directions@.len(),
                directions@ =~= self.directions@.subrange(self.passed as int, i as int),
            decreases self.directions@.len() - i,
        {
            directions.push(self.directions[i]);
            i += 1;
        }
        proof {
            assert(directions@ =~= self@);
        }
        directions
    }

    /// The number of directions that are still to come.
    pub fn count(self) -> (count: usize)
        requires
            self.wf(),
        ensures
            count == self@.len(),
    {
        self.directions.len() - self.passed
    }
}

// Iterators
impl Direction {
    /// Returns an iterator over the [`Direction`]s [`NORTH`, `NORTH_EAST`, `EAST`,
    /// `SOUTH_EAST`, `SOUTH`, `SOUTH_WEST`, `WEST`, `NORTH_WEST`]
    pub fn iter_cardinal_ordinal() -> (iter: DirectionIter)
        ensures
            iter.wf(),
            iter@ == cardinal_ordinal_directions(),
    {
        DirectionIter::cardinal_ordinal()
    }

    /// Returns an iterator over the [`Direction`]s [`NORTH`, `NORTH_EAST`, `EAST`,
    /// `SOUTH_EAST`, `SOUTH`, `SOUTH_WEST`, `WEST`, `NORTH_WEST`, `UP`, `DOWN`]
    pub fn iter_cardinal_ordinal_vertical() -> (iter: DirectionIter)
        ensures
            iter.wf(),
            iter@ == cardinal_ordinal_directions() + vertical_directions(),
    {
        DirectionIter::cardinal_ordinal_vertical()
    }

    /// Returns an iterator over every [`Direction`] including every mutation of [`NORTH`,
    /// `EAST`, `SOUTH`, `WEST`, `UP`, `DOWN`]
    pub fn iter_all_3d() -> (iter: DirectionIter)
        ensures
            iter.wf(),
            iter@ == all_directions(),
    {
        DirectionIter::all_3d()
    }

    /// Returns an iterator over the [`Direction`]s [`NORTH`, `EAST`, `SOUTH`, `WEST`]
    pub fn iter_cardinal() -> (iter: DirectionIter)
        ensures
            iter.wf(),
            iter@ == cardinal_directions(),
    {
        DirectionIter::cardinal()
    }

    /// Returns an iterator over the [`Direction`]s [`NORTH_EAST`, `SOUTH_EAST`, `SOUTH_WEST`,
    /// `NORTH_WEST`]
    pub fn iter_ordinal() -> (iter: DirectionIter)
        ensures
            iter.wf(),
            iter@ == ordinal_directions(),
    {
        DirectionIter::ordinal()
    }

    /// Returns an iterator over the [`Direction`]s (`UP`, `DOWN`)
    pub fn iter_vertical() -> (iter: DirectionIter)
        ensures
            iter.wf(),
            iter@ == vertical_directions(),
    {
        DirectionIter::vertical()
    }
}

// Combinations
impl Direction {
    /// The flags of either direction.
    pub fn union(self, rhs: Self) -> (direction: Self)
        ensures
            direction.0 == self.0 | rhs.0,
    {
        Self(self.0 | rhs.0)
    }

    /// The flags of this direction that `rhs` lacks.
    pub fn subtract(self, rhs: Self) -> (direction: Self)
        ensures
            direction.0 == self.0 & !rhs.0,
    {
        Self(self.0 & !rhs.0)
    }

    /// The flags that both directions hold.
    pub fn intersect(self, rhs: Self) -> (direction: Self)
        ensures
            direction.0 == self.0 & rhs.0,
    {
        Self(self.0 & rhs.0)
    }

    /// The flags that exactly one of the two directions holds.
    pub fn toggle(self, rhs: Self) -> (direction: Self)
        ensures
            direction.0 == self.0 ^ rhs.0,
    {
        Self(self.0 ^ rhs.0)
    }
}

/// The name of `flag` if `bits` holds it.
pub open spec fn flag_name(bits: u8, flag: u8, name: Seq<char>) -> Seq<Seq<char>> {
    if has_flag(bits, flag) {
        seq![name]
    } else {
        seq![]
    }
}

/// The names of the flags that `bits` holds: north, east, south, west, up, down.
pub open spec fn flag_names(bits: u8) -> Seq<Seq<char>> {
    flag_name(bits, DirectionFlags::NORTH, "NORTH"@) + flag_name(
        bits,
        DirectionFlags::EAST,
        "EAST"@,
    ) + flag_name(bits, DirectionFlags::SOUTH, "SOUTH"@) + flag_name(
        bits,
        DirectionFlags::WEST,
        "WEST"@,
    ) + flag_name(bits, DirectionFlags::UP, "UP"@) + flag_name(bits, DirectionFlags::DOWN, "DOWN"@)
}

/// The names one after the other, a comma and a space between each two.
pub open spec fn join_names(names: Seq<Seq<char>>) -> Seq<char>
    decreases names.len(),
{
    if names.len() == 0 {
        Seq::empty()
    } else if names.len() == 1 {
        names[0]
    } else {
        join_names(names.drop_last()) + ", "@ + names.last()
    }
}

/// Appends `name` to the names joined in `text`.
fn append_name(text: &mut String, name: &str, first: bool, Ghost(names): Ghost<Seq<Seq<char>>>)
    requires
        old(text)@ == join_names(names),
        first == (names.len() == 0),
    ensures
        final(text)@ == join_names(names.push(name@)),
{
    proof {
        assert(names.push(name@).drop_last() =~= names);
        assert(Seq::<char>::empty() + name@ =~= name@);
    }
    if first {
        text.append(name);
    } else {
        text.append(", ");
        text.append(name);
        proof {
            assert(old(text)@ + ", "@ + name@ =~= final(text)@);
        }
    }
}

impl Direction {
    /// The names of the flags of the direction, or `NO-DIRECTION` where it has none.
    pub open spec fn spec_text(self) -> Seq<char> {
        if flag_names(self.0).len() == 0 {
            "NO-DIRECTION"@
        } else {
            join_names(flag_names(self.0))
        }
    }

    /// The names of the flags of the direction, joined by commas, or
    /// `NO-DIRECTION` where it has none.
    pub fn to_string(&self) -> (text: String)
        ensures
            text@ == self.spec_text(),
    {
        let mut text = String::new();
        let ghost mut names: Seq<Seq<char>> = Seq::empty();
        let mut first = true;
        if self.has_north() {
            append_name(&mut text, "NORTH", first, Ghost(names));
            proof {
                names = names.push("NORTH"@);
            }
            first = false;
        }
        if self.has_east() {
            append_name(&mut text, "EAST", first, Ghost(names));
            proof {
                names = names.push("EAST"@);
            }
            first = false;
        }
        if self.has_south() {
            append_name(&mut text, "SOUTH", first, Ghost(names));
            proof {
                names = names.push("SOUTH"@);
            }
            first = false;
        }
        if self.has_west() {
            append_name(&mut text, "WEST", first, Ghost(names));
            proof {
                names = names.push("WEST"@);
            }
            first = false;
        }
        if self.has_up() {
            append_name(&mut text, "UP", first, Ghost(names));
            proof {
                names = names.push("UP"@);
            }
            first = false;
        }
        if self.has_down() {
            append_name(&mut text, "DOWN", first, Ghost(names));
            proof {
                names = names.push("DOWN"@);
            }
            first = false;
        }
        proof {
            assert(names =~= flag_names(self.0));
        }
        if first {
            String::from_str("NO-DIRECTION")
        } else {
            text
        }
    }
}

/// `a + b` holds the flags of either direction.
impl core::ops::Add<Direction> for Direction {
    type Output = Direction;

    fn add(self, rhs: Direction) -> (direction: Direction) {
        Direction(self.0 | rhs.0)
    }
}

impl vstd::std_specs::ops::AddSpecImpl<Direction> for Direction {
    open spec fn obeys_add_spec() -> bool {
        true
    }

    open spec fn add_req(self, rhs: Direction) -> bool {
        true
    }

    open spec fn add_spec(self, rhs: Direction) -> Direction {
        Direction(self.0 | rhs.0)
    }
}

/// `a - b` holds the flags of `a` that `b` lacks.
impl core::ops::Sub<Direction> for Direction {
    type Output = Direction;

    fn sub(self, rhs: Direction) -> (direction: Direction) {
        Direction(self.0 & !rhs.0)
    }
}

impl vstd::std_specs::ops::SubSpecImpl<Direction> for Direction {
    open spec fn obeys_sub_spec() -> bool {
        true
    }

    open spec fn sub_req(self, rhs: Direction) -> bool {
        true
    }

    open spec fn sub_spec(self, rhs: Direction) -> Direction {
        Direction(self.0 & !rhs.0)
    }
}

/// `a | b` holds the flags of either direction.
impl core::ops::BitOr<Direction> for Direction {
    type Output = Direction;

    fn bitor(self, rhs: Direction) -> (direction: Direction) {
        Direction(self.0 | rhs.0)
    }
}

impl vstd::std_specs::ops::BitOrSpecImpl<Direction> for Direction {
    open spec fn obeys_bitor_spec() -> bool {
        true
    }

    open spec fn bitor_req(self, rhs: Direction) -> bool {
        true
    }

    open spec fn bitor_spec(self, rhs: Direction) -> Direction {
        Direction(self.0 | rhs.0)
    }
}

/// `a & b` holds the flags that both directions hold.
impl core::ops::BitAnd<Direction> for Direction {
    type Output = Direction;

    fn bitand(self, rhs: Direction) -> (direction: Direction) {
        Direction(self.0 & rhs.0)
    }
}

impl vstd::std_specs::ops::BitAndSpecImpl<Direction> for Direction {
    open spec fn obeys_bitand_spec() -> bool {
        true
    }

    open spec fn bitand_req(self, rhs: Direction) -> bool {
        true
    }

    open spec fn bitand_spec(self, rhs: Direction) -> Direction {
        Direction(self.0 & rhs.0)
    }
}

/// `a ^ b` holds the flags that exactly one of the two directions holds.
impl core::ops::BitXor<Direction> for Direction {
    type Output = Direction;

    fn bitxor(self, rhs: Direction) -> (direction: Direction) {
        Direction(self.0 ^ rhs.0)
    }
}

impl vstd::std_specs::ops::BitXorSpecImpl<Direction> for Direction {
    open spec fn obeys_bitxor_spec() -> bool {
        true
    }

    open spec fn bitxor_req(self, rhs: Direction) -> bool {
        true
    }

    open spec fn bitxor_spec(self, rhs: Direction) -> Direction {
        Direction(self.0 ^ rhs.0)
    }
}

impl core::ops::AddAssign<Direction> for Direction {
    fn add_assign(&mut self, rhs: Direction)
        ensures
            final(self).0 == old(self).0 | rhs.0,
    {
        self.0 |= rhs.0;
    }
}

impl core::ops::SubAssign<Direction> for Direction {
    fn sub_assign(&mut self, rhs: Direction)
        ensures
            final(self).0 == old(self).0 & !rhs.0,
    {
        self.0 &= !rhs.0;
    }
}

impl core::ops::BitOrAssign<Direction> for Direction {
    fn bitor_assign(&mut self, rhs: Direction)
        ensures
            final(self).0 == old(self).0 | rhs.0,
    {
        self.0 |= rhs.0;
    }
}

impl core::ops::BitAndAssign<Direction> for Direction {
    fn bitand_assign(&mut self, rhs: Direction)
        ensures
            final(self).0 == old(self).0 & rhs.0,
    {
        self.0 &= rhs.0;
    }
}

impl core::ops::BitXorAssign<Direction> for Direction {
    fn bitxor_assign(&mut self, rhs: Direction)
        ensures
            final(self).0 == old(self).0 ^ rhs.0,
    {
        self.0 ^= rhs.0;
    }
}

/// The flags of a step keep the sign of each of its coordinates.
pub proof fn lemma_coord_of_from_coord3d(c: (int, int, int))
    ensures
        Direction::spec_from_coord3d(c).spec_coord() == (sign(c.0), sign(c.1)),
        Direction::spec_from_coord3d(c).spec_lift() == sign(c.2),
{
    let x = axis_flag(c.0, DirectionFlags::EAST, DirectionFlags::WEST);
    let y = axis_flag(c.1, DirectionFlags::NORTH, DirectionFlags::SOUTH);
    let z = axis_flag(c.2, DirectionFlags::UP, DirectionFlags::DOWN);
    assert((x == 0 || x == 2 || x == 8) && (y == 0 || y == 1 || y == 4) && (z == 0 || z == 16 || z
        == 32) ==> {
        &&& (((x | y | z) & 1 != 0) <==> y == 1)
        &&& (((x | y | z) & 2 != 0) <==> x == 2)
        &&& (((x | y | z) & 4 != 0) <==> y == 4)
        &&& (((x | y | z) & 8 != 0) <==> x == 8)
        &&& (((x | y | z) & 16 != 0) <==> z == 16)
        &&& (((x | y | z) & 32 != 0) <==> z == 32)
    }) by (bit_vector);
}

/// A direction given a new step in the plane has that step, where its
/// coordinates are -1, 0 or 1, and keeps its lift.
pub proof fn lemma_coord_of_turned(d: Direction, c: (int, int))
    requires
        -1 <= c.0 <= 1,
        -1 <= c.1 <= 1,
    ensures
        d.spec_turned(c).spec_coord() == c,
        d.spec_turned(c).spec_lift() == d.spec_lift(),
{
    lemma_coord_of_from_coord3d((c.0, c.1, d.spec_lift()));
}

} // verus!
