use brt::grid::Grid;

fn numbered(width: u32, height: u32) -> Grid<i32> {
    Grid::new((width, height), (0..(width * height) as i32).collect())
}

#[test]
fn grid_new_default_is_zeroed() {
    let grid: Grid<i32> = Grid::new_default((2, 2));
    assert_eq!(grid.data(), &vec![0, 0, 0, 0]);
    assert_eq!(grid.size(), (2, 2));
    assert_eq!(grid.width(), 2);
    assert_eq!(grid.height(), 2);
    let other: Grid<u8> = Grid::new_default_no_clone((3, 1));
    assert_eq!(other.data(), &vec![0, 0, 0]);
}

#[test]
fn grid_take_leaves_default() {
    let mut grid = numbered(2, 2);
    assert_eq!(grid.take((1, 1)), Some(3));
    assert_eq!(grid.data(), &vec![0, 1, 2, 0]);
    assert_eq!(grid.take((1, 0)), Some(1));
    assert_eq!(grid.data(), &vec![0, 0, 2, 0]);
    assert_eq!(grid.take((1, 0)), Some(0));
}

#[test]
fn grid_take_out_of_bounds_changes_nothing() {
    let mut grid = numbered(2, 2);
    for p in [(2, 0), (0, 2), (-1, 0), (0, -1), (2, 2), (i32::MAX, i32::MIN)] {
        assert_eq!(grid.take(p), None);
        assert_eq!(grid.data(), &vec![0, 1, 2, 3]);
    }
}

#[test]
fn grid_in_bounds_and_is_valid_differ() {
    let grid = numbered(3, 3);
    assert!(!grid.in_bounds((3, 1)));
    assert_eq!(grid.position_to_index_unchecked((3, 1)), 6);
    assert!(grid.is_valid(6));
    assert_eq!(grid.position_to_index((3, 1)), None);
    // and the other way round: a grid that lacks cells
    let short: Grid<i32> = Grid::new((3, 3), vec![1, 2, 3]);
    assert!(short.in_bounds((0, 2)));
    assert_eq!(short.position_to_index((0, 2)), Some(6));
    assert!(!short.is_valid(6));
    assert_eq!(short.get((0, 2)), None);
    assert_eq!(short.get((2, 0)), Some(&3));
}

#[test]
fn grid_position_index_round_trip() {
    let grid = numbered(4, 3);
    for y in 0..3 {
        for x in 0..4 {
            let index = grid.position_to_index((x, y)).unwrap();
            assert_eq!(index, (y * 4 + x) as usize);
            assert_eq!(grid.index_to_position(index), Some((x, y)));
            assert_eq!(grid.index_to_position_unchecked(index), (x, y));
        }
    }
    assert_eq!(grid.index_to_position(12), None);
    assert_eq!(grid.index_to_position(11), Some((3, 2)));
    assert_eq!(grid.position_to_index((4, 0)), None);
    assert_eq!(grid.position_to_index((0, 3)), None);
    assert_eq!(grid.position_to_index((-1, 0)), None);
}

#[test]
fn grid_without_columns_has_no_positions() {
    let grid: Grid<i32> = Grid::new((0, 3), vec![]);
    assert_eq!(grid.index_to_position(0), None);
    assert!(!grid.in_bounds((0, 0)));
    assert_eq!(grid.position_iter(), Vec::<(i32, i32)>::new());
}

#[test]
fn grid_constructors() {
    let cloned = Grid::new_clone((2, 3), String::from("x"));
    assert_eq!(cloned.data().len(), 6);
    assert!(cloned.iter().iter().all(|s| s == "x"));
    let copied = Grid::new_copy((3, 2), 7u8);
    assert_eq!(copied.data(), &vec![7u8; 6]);
    let made = Grid::new_fn((3, 2), |index, position| (index, position));
    assert_eq!(
        made.data(),
        &vec![(0, (0, 0)), (1, (1, 0)), (2, (2, 0)), (3, (0, 1)), (4, (1, 1)), (5, (2, 1))]
    );
    let empty = Grid::new_fn((0, 5), |index, _| index);
    assert_eq!(empty.data().len(), 0);
}

#[test]
fn grid_new_fn_calls_in_row_major_order() {
    let mut calls = Vec::new();
    let grid = Grid::new_fn((2, 2), |index, position| {
        calls.push(position);
        index * 10
    });
    assert_eq!(calls, vec![(0, 0), (1, 0), (0, 1), (1, 1)]);
    assert_eq!(grid.data(), &vec![0, 10, 20, 30]);
}

#[test]
fn grid_get_and_get_mut() {
    let mut grid = numbered(3, 2);
    assert_eq!(grid.get((2, 1)), Some(&5));
    assert_eq!(grid.get((3, 1)), None);
    assert_eq!(grid.get((0, -1)), None);
    assert_eq!(grid.get_index(5), Some(&5));
    assert_eq!(grid.get_index(6), None);
    *grid.get_mut((1, 1)).unwrap() = 40;
    assert_eq!(grid.get((1, 1)), Some(&40));
    assert!(grid.get_mut((3, 0)).is_none());
    *grid.get_mut_index(0).unwrap() = -1;
    assert!(grid.get_mut_index(6).is_none());
    assert_eq!(grid.data(), &vec![-1, 1, 2, 3, 40, 5]);
    grid.data_mut()[2] = 22;
    assert_eq!(grid.get((2, 0)), Some(&22));
}

#[test]
fn grid_replace_and_swap() {
    let mut grid = numbered(2, 2);
    assert_eq!(grid.replace((0, 1), 9), Some(2));
    assert_eq!(grid.replace((2, 1), 9), None);
    assert_eq!(grid.data(), &vec![0, 1, 9, 3]);
    let mut held = 50;
    grid.swap((1, 0), &mut held);
    assert_eq!(held, 1);
    assert_eq!(grid.data(), &vec![0, 50, 9, 3]);
    grid.swap((5, 5), &mut held);
    assert_eq!(held, 1);
    assert_eq!(grid.data(), &vec![0, 50, 9, 3]);
}

#[test]
fn grid_index_operators() {
    let mut grid = numbered(3, 2);
    assert_eq!(grid[4usize], 4);
    assert_eq!(grid[(1i32, 1i32)], 4);
    assert_eq!(grid[(2u32, 0u32)], 2);
    grid[0usize] = 10;
    grid[(1i32, 0i32)] = 11;
    grid[(2u32, 1u32)] = 15;
    assert_eq!(grid.data(), &vec![10, 11, 2, 3, 4, 15]);
}

#[test]
fn grid_neighbors_are_clipped() {
    let grid = numbered(3, 3);
    assert_eq!(
        grid.neighbors((1, 1)),
        vec![(0, 0), (1, 0), (2, 0), (0, 1), (2, 1), (0, 2), (1, 2), (2, 2)]
    );
    assert_eq!(grid.neighbors((0, 0)), vec![(1, 0), (0, 1), (1, 1)]);
    assert_eq!(grid.neighbors((2, 2)), vec![(1, 1), (2, 1), (1, 2)]);
    assert_eq!(grid.neighbors((1, 0)), vec![(0, 0), (2, 0), (0, 1), (1, 1), (2, 1)]);
    assert_eq!(grid.neighbors((3, 1)), vec![(2, 0), (2, 1), (2, 2)]);
    assert_eq!(grid.neighbors((5, 5)), Vec::<(i32, i32)>::new());
    assert_eq!(grid.neighbors((i32::MAX, i32::MIN)), Vec::<(i32, i32)>::new());
    assert_eq!(grid.neighbors((-1, -1)), vec![(0, 0)]);
}

#[test]
fn grid_blit_copies_a_window() {
    let source = numbered(4, 4);
    let mut destination: Grid<i32> = Grid::new_copy((3, 3), -1);
    Grid::blit(&mut destination, (1, 1), (2, 2), &source, (2, 1));
    assert_eq!(destination.data(), &vec![-1, -1, -1, -1, 6, 7, -1, 10, 11]);
}

#[test]
fn grid_blit_skips_cells_outside() {
    let source = numbered(2, 2);
    let mut destination: Grid<i32> = Grid::new_copy((3, 2), -1);
    // The window hangs over the right edge of the source and the left edge of the destination.
    Grid::blit(&mut destination, (-1, 0), (3, 3), &source, (0, 0));
    assert_eq!(destination.data(), &vec![1, -1, -1, 3, -1, -1]);
    let mut untouched: Grid<i32> = Grid::new_copy((2, 2), -1);
    Grid::blit(&mut untouched, (0, 0), (2, 2), &source, (2, 2));
    assert_eq!(untouched.data(), &vec![-1; 4]);
    Grid::blit(&mut untouched, (0, 0), (0, 5), &source, (0, 0));
    assert_eq!(untouched.data(), &vec![-1; 4]);
    Grid::blit(&mut untouched, (0, 0), (2, 2), &source, (-1, -1));
    assert_eq!(untouched.data(), &vec![-1, -1, -1, 0]);
}

#[test]
fn grid_rows_and_columns() {
    let grid = numbered(3, 2);
    assert_eq!(grid.row(0), Some(&[0, 1, 2][..]));
    assert_eq!(grid.row(1), Some(&[3, 4, 5][..]));
    assert_eq!(grid.row(2), None);
    assert_eq!(grid.rows(), vec![&[0, 1, 2][..], &[3, 4, 5][..]]);
    assert_eq!(grid.column(0), Some(vec![&0, &3]));
    assert_eq!(grid.column(2), Some(vec![&2, &5]));
    assert_eq!(grid.column(3), None);
    assert_eq!(grid.columns(), vec![vec![&0, &3], vec![&1, &4], vec![&2, &5]]);
    assert_eq!(grid.iter(), &[0, 1, 2, 3, 4, 5][..]);
}

#[test]
fn grid_index_views_for_writing() {
    let mut grid = numbered(3, 2);
    assert_eq!(grid.row_mut(1), Some(vec![3, 4, 5]));
    assert_eq!(grid.row_mut(2), None);
    assert_eq!(grid.rows_mut(), vec![vec![0, 1, 2], vec![3, 4, 5]]);
    assert_eq!(grid.column_mut(1), Some(vec![1, 4]));
    assert_eq!(grid.column_mut(3), None);
    assert_eq!(grid.columns_mut(), vec![vec![0, 3], vec![1, 4], vec![2, 5]]);
    for column in grid.columns_mut() {
        for (row, index) in column.into_iter().enumerate() {
            *grid.get_mut_index(index).unwrap() = row as i32;
        }
    }
    assert_eq!(grid.data(), &vec![0, 0, 0, 1, 1, 1]);
    for cell in grid.iter_mut() {
        *cell += 1;
    }
    assert_eq!(grid.data(), &vec![1, 1, 1, 2, 2, 2]);
}

#[test]
fn grid_enumerate() {
    let mut grid = numbered(2, 2);
    assert_eq!(grid.position_iter(), vec![(0, 0), (1, 0), (0, 1), (1, 1)]);
    assert_eq!(
        grid.enumerate(),
        vec![((0, 0), &0), ((1, 0), &1), ((0, 1), &2), ((1, 1), &3)]
    );
    assert_eq!(
        grid.enumerate_mut(),
        vec![((0, 0), 0), ((1, 0), 1), ((0, 1), 2), ((1, 1), 3)]
    );
    for (position, index) in grid.enumerate_mut() {
        *grid.get_mut_index(index).unwrap() = position.0 * 10 + position.1;
    }
    assert_eq!(grid.data(), &vec![0, 10, 1, 11]);
}

#[test]
fn grid_with_cells_missing_or_left_over() {
    let long: Grid<i32> = Grid::new((2, 2), vec![0, 1, 2, 3, 4, 5, 6]);
    assert_eq!(long.rows(), vec![&[0, 1][..], &[2, 3][..], &[4, 5][..]]);
    assert_eq!(long.column(0), Some(vec![&0, &2, &4, &6]));
    assert_eq!(long.column(1), Some(vec![&1, &3, &5]));
    assert_eq!(long.column_mut(1), Some(vec![1, 3, 5]));
    assert!(long.is_valid(6));
    assert_eq!(long.index_to_position(6), None);
    let short: Grid<i32> = Grid::new((2, 2), vec![0, 1, 2]);
    assert_eq!(short.rows(), vec![&[0, 1][..]]);
    assert_eq!(short.column(1), Some(vec![&1]));
    assert_eq!(short.rows_mut(), vec![vec![0, 1]]);
}
