use brt::direction::{CardinalDirection, Direction, OrdinalDirection, VerticalDirection};

#[test]
fn test_direction_const() {
    // Match these to DirectionFlags
    const NORTH: u8 = 1 << 0;
    const EAST: u8 = 1 << 1;
    const SOUTH: u8 = 1 << 2;
    const WEST: u8 = 1 << 3;
    const UP: u8 = 1 << 4;
    const DOWN: u8 = 1 << 5;

    // Test creation using constants
    assert_eq!(Direction::north().0, NORTH);
    assert_eq!(Direction::north_east().0, NORTH + EAST);
    assert_eq!(Direction::east().0, EAST);
    assert_eq!(Direction::south_east().0, SOUTH + EAST);
    assert_eq!(Direction::south().0, SOUTH);
    assert_eq!(Direction::south_west().0, SOUTH + WEST);
    assert_eq!(Direction::west().0, WEST);
    assert_eq!(Direction::north_west().0, NORTH + WEST);
    assert_eq!(Direction::up().0, UP);
    assert_eq!(Direction::up_north().0, UP + NORTH);
    assert_eq!(Direction::up_north_east().0, UP + NORTH + EAST);
    assert_eq!(Direction::up_east().0, UP + EAST);
    assert_eq!(Direction::up_south_east().0, UP + SOUTH + EAST);
    assert_eq!(Direction::up_south().0, UP + SOUTH);
    assert_eq!(Direction::up_south_west().0, UP + SOUTH + WEST);
    assert_eq!(Direction::up_west().0, UP + WEST);
    assert_eq!(Direction::up_north_west().0, UP + NORTH + WEST);
    assert_eq!(Direction::down().0, DOWN);
    assert_eq!(Direction::down_north().0, DOWN + NORTH);
    assert_eq!(Direction::down_north_east().0, DOWN + NORTH + EAST);
    assert_eq!(Direction::down_east().0, DOWN + EAST);
    assert_eq!(Direction::down_south_east().0, DOWN + SOUTH + EAST);
    assert_eq!(Direction::down_south().0, DOWN + SOUTH);
    assert_eq!(Direction::down_south_west().0, DOWN + SOUTH + WEST);
    assert_eq!(Direction::down_west().0, DOWN + WEST);
    assert_eq!(Direction::down_north_west().0, DOWN + NORTH + WEST);

    assert_eq!(CardinalDirection::north(), Direction::north());
    assert_eq!(CardinalDirection::east(), Direction::east());
    assert_eq!(CardinalDirection::south(), Direction::south());
    assert_eq!(CardinalDirection::west(), Direction::west());

    assert_eq!(OrdinalDirection::north_east(), Direction::north_east());
    assert_eq!(OrdinalDirection::north_west(), Direction::north_west());
    assert_eq!(OrdinalDirection::south_east(), Direction::south_east());
    assert_eq!(OrdinalDirection::south_west(), Direction::south_west());

    assert_eq!(VerticalDirection::up(), Direction::up());
    assert_eq!(VerticalDirection::down(), Direction::down());
}

#[test]
fn test_direction_coord() {
    // Test creation from coords
    assert_eq!(Direction::from_coord((0, 1)), Direction::north());
    assert_eq!(Direction::from_coord((1, 1)), Direction::north_east());
    assert_eq!(Direction::from_coord((1, 0)), Direction::east());
    assert_eq!(Direction::from_coord((1, -1)), Direction::south_east());
    assert_eq!(Direction::from_coord((0, -1)), Direction::south());
    assert_eq!(Direction::from_coord((-1, -1)), Direction::south_west());
    assert_eq!(Direction::from_coord((-1, 0)), Direction::west());
    assert_eq!(Direction::from_coord((-1, 1)), Direction::north_west());

    // Test to coords
    assert_eq!(Direction::up_north().coord(), (0, 1));
    assert_eq!(Direction::up_north_east().coord(), (1, 1));
    assert_eq!(Direction::up_east().coord(), (1, 0));
    assert_eq!(Direction::up_south_east().coord(), (1, -1));
    assert_eq!(Direction::up_south().coord(), (0, -1));
    assert_eq!(Direction::up_south_west().coord(), (-1, -1));
    assert_eq!(Direction::up_west().coord(), (-1, 0));
    assert_eq!(Direction::up_north_west().coord(), (-1, 1));

    assert_eq!(Direction::north().coord(), (0, 1));
    assert_eq!(Direction::north_east().coord(), (1, 1));
    assert_eq!(Direction::east().coord(), (1, 0));
    assert_eq!(Direction::south_east().coord(), (1, -1));
    assert_eq!(Direction::south().coord(), (0, -1));
    assert_eq!(Direction::south_west().coord(), (-1, -1));
    assert_eq!(Direction::west().coord(), (-1, 0));
    assert_eq!(Direction::north_west().coord(), (-1, 1));

    assert_eq!(Direction::down_north().coord(), (0, 1));
    assert_eq!(Direction::down_north_east().coord(), (1, 1));
    assert_eq!(Direction::down_east().coord(), (1, 0));
    assert_eq!(Direction::down_south_east().coord(), (1, -1));
    assert_eq!(Direction::down_south().coord(), (0, -1));
    assert_eq!(Direction::down_south_west().coord(), (-1, -1));
    assert_eq!(Direction::down_west().coord(), (-1, 0));
    assert_eq!(Direction::down_north_west().coord(), (-1, 1));

    // Test creation from coords 3d
    assert_eq!(Direction::from_coord3d((0, 1, 1)), Direction::up_north());
    assert_eq!(Direction::from_coord3d((1, 1, 1)), Direction::up_north_east());
    assert_eq!(Direction::from_coord3d((1, 0, 1)), Direction::up_east());
    assert_eq!(
        Direction::from_coord3d((1, -1, 1)),
        Direction::up_south_east()
    );
    assert_eq!(Direction::from_coord3d((0, -1, 1)), Direction::up_south());
    assert_eq!(
        Direction::from_coord3d((-1, -1, 1)),
        Direction::up_south_west()
    );
    assert_eq!(Direction::from_coord3d((-1, 0, 1)), Direction::up_west());
    assert_eq!(
        Direction::from_coord3d((-1, 1, 1)),
        Direction::up_north_west()
    );

    assert_eq!(Direction::from_coord3d((0, 1, 0)), Direction::north());
    assert_eq!(Direction::from_coord3d((1, 1, 0)), Direction::north_east());
    assert_eq!(Direction::from_coord3d((1, 0, 0)), Direction::east());
    assert_eq!(Direction::from_coord3d((1, -1, 0)), Direction::south_east());
    assert_eq!(Direction::from_coord3d((0, -1, 0)), Direction::south());
    assert_eq!(Direction::from_coord3d((-1, -1, 0)), Direction::south_west());
    assert_eq!(Direction::from_coord3d((-1, 0, 0)), Direction::west());
    assert_eq!(Direction::from_coord3d((-1, 1, 0)), Direction::north_west());

    assert_eq!(Direction::from_coord3d((0, 1, -1)), Direction::down_north());
    assert_eq!(
        Direction::from_coord3d((1, 1, -1)),
        Direction::down_north_east()
    );
    assert_eq!(Direction::from_coord3d((1, 0, -1)), Direction::down_east());
    assert_eq!(
        Direction::from_coord3d((1, -1, -1)),
        Direction::down_south_east()
    );
    assert_eq!(Direction::from_coord3d((0, -1, -1)), Direction::down_south());
    assert_eq!(
        Direction::from_coord3d((-1, -1, -1)),
        Direction::down_south_west()
    );
    assert_eq!(Direction::from_coord3d((-1, 0, -1)), Direction::down_west());
    assert_eq!(
        Direction::from_coord3d((-1, 1, -1)),
        Direction::down_north_west()
    );

    // Test to coords 3d
    assert_eq!(Direction::up_north().coord3d(), (0, 1, 1));
    assert_eq!(Direction::up_north_east().coord3d(), (1, 1, 1));
    assert_eq!(Direction::up_east().coord3d(), (1, 0, 1));
    assert_eq!(Direction::up_south_east().coord3d(), (1, -1, 1));
    assert_eq!(Direction::up_south().coord3d(), (0, -1, 1));
    assert_eq!(Direction::up_south_west().coord3d(), (-1, -1, 1));
    assert_eq!(Direction::up_west().coord3d(), (-1, 0, 1));
    assert_eq!(Direction::up_north_west().coord3d(), (-1, 1, 1));

    assert_eq!(Direction::north().coord3d(), (0, 1, 0));
    assert_eq!(Direction::north_east().coord3d(), (1, 1, 0));
    assert_eq!(Direction::east().coord3d(), (1, 0, 0));
    assert_eq!(Direction::south_east().coord3d(), (1, -1, 0));
    assert_eq!(Direction::south().coord3d(), (0, -1, 0));
    assert_eq!(Direction::south_west().coord3d(), (-1, -1, 0));
    assert_eq!(Direction::west().coord3d(), (-1, 0, 0));
    assert_eq!(Direction::north_west().coord3d(), (-1, 1, 0));

    assert_eq!(Direction::down_north().coord3d(), (0, 1, -1));
    assert_eq!(Direction::down_north_east().coord3d(), (1, 1, -1));
    assert_eq!(Direction::down_east().coord3d(), (1, 0, -1));
    assert_eq!(Direction::down_south_east().coord3d(), (1, -1, -1));
    assert_eq!(Direction::down_south().coord3d(), (0, -1, -1));
    assert_eq!(Direction::down_south_west().coord3d(), (-1, -1, -1));
    assert_eq!(Direction::down_west().coord3d(), (-1, 0, -1));
    assert_eq!(Direction::down_north_west().coord3d(), (-1, 1, -1));
}

#[test]
fn test_direction_rotation() {
    // Test left rotation
    assert_eq!(Direction::up_north().left45(), Direction::up_north_west());
    assert_eq!(Direction::up_north().left90(), Direction::up_west());
    assert_eq!(Direction::up_north().left135(), Direction::up_south_west());

    assert_eq!(Direction::north().left45(), Direction::north_west());
    assert_eq!(Direction::north().left90(), Direction::west());
    assert_eq!(Direction::north().left135(), Direction::south_west());

    assert_eq!(Direction::down_north().left45(), Direction::down_north_west());
    assert_eq!(Direction::down_north().left90(), Direction::down_west());
    assert_eq!(Direction::down_north().left135(), Direction::down_south_west());

    // Test right rotation
    assert_eq!(Direction::up_north().right45(), Direction::up_north_east());
    assert_eq!(Direction::up_north().right90(), Direction::up_east());
    assert_eq!(Direction::up_north().right135(), Direction::up_south_east());

    assert_eq!(Direction::north().right45(), Direction::north_east());
    assert_eq!(Direction::north().right90(), Direction::east());
    assert_eq!(Direction::north().right135(), Direction::south_east());

    assert_eq!(Direction::down_north().right45(), Direction::down_north_east());
    assert_eq!(Direction::down_north().right90(), Direction::down_east());
    assert_eq!(Direction::down_north().right135(), Direction::down_south_east());

    // Test opposite
    assert_eq!(Direction::north().opposite(), Direction::south());
    assert_eq!(Direction::east().opposite(), Direction::west());
    assert_eq!(Direction::up().opposite(), Direction::down());
}

#[test]
fn test_direction_iterators() {
    let cardinal_directions: Vec<Direction> = CardinalDirection::iter().collect();
    assert_eq!(
        cardinal_directions,
        vec![
            Direction::north(),
            Direction::east(),
            Direction::south(),
            Direction::west()
        ]
    );
    assert_eq!(
        cardinal_directions,
        Direction::iter_cardinal().collect()
    );

    let ordinal_directions: Vec<Direction> = OrdinalDirection::iter().collect();
    assert_eq!(
        ordinal_directions,
        vec![
            Direction::north_east(),
            Direction::south_east(),
            Direction::south_west(),
            Direction::north_west()
        ]
    );
    assert_eq!(
        ordinal_directions,
        Direction::iter_ordinal().collect()
    );

    let vertical_directions: Vec<Direction> = VerticalDirection::iter().collect();
    assert_eq!(vertical_directions, vec![Direction::up(), Direction::down()]);
    assert_eq!(
        vertical_directions,
        Direction::iter_vertical().collect()
    );

    assert_eq!(Direction::iter_cardinal_ordinal().count(), 8);
    assert_eq!(Direction::iter_cardinal_ordinal_vertical().count(), 10);
    assert_eq!(Direction::iter_all_3d().count(), 26);
}
