use brt::direction::{Direction, DirectionFlags, DirectionIter};

#[test]
fn direction_flags_are_single_bits() {
    assert_eq!(DirectionFlags::NORTH, 1);
    assert_eq!(DirectionFlags::EAST, 2);
    assert_eq!(DirectionFlags::SOUTH, 4);
    assert_eq!(DirectionFlags::WEST, 8);
    assert_eq!(DirectionFlags::UP, 16);
    assert_eq!(DirectionFlags::DOWN, 32);
    assert_eq!(Direction::none().0, 0);
}

#[test]
fn direction_checks() {
    let d = Direction::up_north_east();
    assert!(d.has_north() && d.has_east() && d.has_up());
    assert!(!d.has_south() && !d.has_west() && !d.has_down());
    assert!(d.is_ordinal());
    assert!(!d.is_cardinal());
    assert!(Direction::up_north().is_cardinal());
    assert!(Direction::west().is_cardinal());
    assert!(!Direction::up().is_cardinal());
    assert!(!Direction::up().is_ordinal());
    assert!(!Direction::none().is_cardinal());
}

#[test]
fn direction_text() {
    assert_eq!(Direction::none().to_string(), "NO-DIRECTION");
    assert_eq!(Direction::north().to_string(), "NORTH");
    assert_eq!(Direction::south_west().to_string(), "SOUTH, WEST");
    assert_eq!(Direction::up_north_east().to_string(), "NORTH, EAST, UP");
    assert_eq!(Direction::down().to_string(), "DOWN");
    assert_eq!(Direction(63).to_string(), "NORTH, EAST, SOUTH, WEST, UP, DOWN");
}

#[test]
fn direction_set_operations() {
    let north = Direction::north();
    let east = Direction::east();
    assert_eq!(north.union(east), Direction::north_east());
    assert_eq!(north + east, Direction::north_east());
    assert_eq!(north | east, Direction::north_east());
    assert_eq!(Direction::north_east().subtract(east), north);
    assert_eq!(Direction::north_east() - east, north);
    assert_eq!(north - east, north);
    assert_eq!(Direction::north_east().intersect(Direction::south_east()), east);
    assert_eq!(Direction::north_east() & Direction::south_east(), east);
    assert_eq!(Direction::north_east().toggle(Direction::south_east()), Direction(1 | 4));
    assert_eq!(Direction::north_east() ^ Direction::south_east(), Direction(5));
}

#[test]
fn direction_assign_operations() {
    let mut d = Direction::none();
    d += Direction::west();
    assert_eq!(d, Direction::west());
    d |= Direction::up();
    assert_eq!(d, Direction::up_west());
    d -= Direction::west();
    assert_eq!(d, Direction::up());
    d ^= Direction::up_north();
    assert_eq!(d, Direction::north());
    d &= Direction::south();
    assert_eq!(d, Direction::none());
}

#[test]
fn direction_full_turns() {
    let mut iter = Direction::iter_all_3d();
    while let Some(d) = iter.next() {
        assert_eq!(d.left90().left90().left90().left90(), d);
        assert_eq!(d.left45().right45(), d);
        assert_eq!(d.right45().left45(), d);
        assert_eq!(d.left135().right135(), d);
        assert_eq!(d.left90().right90(), d);
        assert_eq!(d.opposite().opposite(), d);
        assert_eq!(d.left45().left45(), d.left90());
        assert_eq!(d.right45().right45(), d.right90());
        assert_eq!(Direction::from_coord3d(d.coord3d()), d);
    }
}

#[test]
fn direction_turns_keep_the_lift() {
    assert_eq!(Direction::up().left45(), Direction::up());
    assert_eq!(Direction::down().right90(), Direction::down());
    assert_eq!(Direction::none().left90(), Direction::none());
    assert_eq!(Direction::up_east().right45(), Direction::up_south_east());
    assert_eq!(Direction::down_south_west().opposite(), Direction::up_north_east());
}

#[test]
fn direction_with_opposite_flags() {
    // North wins over south, east over west, up over down.
    let both = Direction(1 | 4 | 2 | 8 | 16 | 32);
    assert_eq!(both.coord3d(), (1, 1, 1));
    assert_eq!(both.opposite(), Direction::down_south_west());
    assert_eq!(both.left90(), Direction::up_north_west());
}

#[test]
fn direction_from_long_steps() {
    assert_eq!(Direction::from_coord((17, -4)), Direction::south_east());
    assert_eq!(Direction::from_coord3d((i32::MIN, 0, i32::MAX)), Direction::up_west());
    assert_eq!(Direction::from_coord((0, 0)), Direction::none());
}

#[test]
fn direction_walks_in_order() {
    assert_eq!(
        Direction::iter_cardinal_ordinal().collect(),
        vec![
            Direction::north(),
            Direction::north_east(),
            Direction::east(),
            Direction::south_east(),
            Direction::south(),
            Direction::south_west(),
            Direction::west(),
            Direction::north_west()
        ]
    );
    let all = DirectionIter::all_3d().collect();
    assert_eq!(all.len(), 26);
    assert_eq!(all[8], Direction::up());
    assert_eq!(all[9], Direction::up_north());
    assert_eq!(all[16], Direction::up_north_west());
    assert_eq!(all[17], Direction::down());
    assert_eq!(all[25], Direction::down_north_west());
    let mut bits: Vec<u8> = all.iter().map(|d| d.0).collect();
    bits.sort();
    bits.dedup();
    assert_eq!(bits.len(), 26);
    let tail = Direction::iter_cardinal_ordinal_vertical().collect();
    assert_eq!(tail[8], Direction::up());
    assert_eq!(tail[9], Direction::down());
}

#[test]
fn direction_walk_steps() {
    let mut iter = DirectionIter::vertical();
    assert_eq!(iter.next(), Some(Direction::up()));
    assert_eq!(iter.next(), Some(Direction::down()));
    assert_eq!(iter.next(), None);
    assert_eq!(iter.next(), None);
    let mut rest = DirectionIter::cardinal();
    rest.next();
    assert_eq!(rest.collect(), vec![Direction::east(), Direction::south(), Direction::west()]);
}
