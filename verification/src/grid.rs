//! A 2-D container that keeps its cells in one row-major sequence.
use vstd::prelude::*;
use crate::lattice::{lemma_points_of_push, point_of, points_of};
use vstd::arithmetic::div_mod::{
    lemma_div_pos_is_pos, lemma_fundamental_div_mod, lemma_fundamental_div_mod_converse,
    lemma_mod_bound,
};

verus! {

/// `p` lies inside a grid of the given width and height.
pub open spec fn grid_in_bounds(width: int, height: int, p: (int, int)) -> bool {
    0 <= p.0 < width && 0 <= p.1 < height
}

/// The row-major index of `p` in a grid of the given width.
pub open spec fn grid_index(width: int, p: (int, int)) -> int {
    p.1 * width + p.0
}

/// The position whose row-major index in a grid of the given width is `index`.
pub open spec fn grid_position(width: int, index: int) -> (int, int) {
    (index % width, index / width)
}

/// Every position of a grid of the given size has coordinates that fit the
/// machine integers: the grid has no position, or neither more columns nor
/// more rows than positions can name.
pub open spec fn size_fits(size: (int, int)) -> bool {
    size.0 > 0 && size.1 > 0 ==> size.0 <= i32::MAX + 1 && size.1 <= i32::MAX + 1
}

/// In a grid of positive width, the position of the index of an in-bounds
/// position is that position.
pub proof fn lemma_position_of_index(width: int, height: int, p: (int, int))
    requires
        grid_in_bounds(width, height, p),
    ensures
        0 <= grid_index(width, p) < width * height,
        grid_position(width, grid_index(width, p)) == p,
{
    lemma_fundamental_div_mod_converse(grid_index(width, p), width, p.1, p.0);
    assert(p.1 * width + p.0 < width * height) by (nonlinear_arith)
        requires
            0 <= p.0 < width,
            0 <= p.1 < height,
    ;
    assert(0 <= p.1 * width) by (nonlinear_arith)
        requires
            0 <= p.1,
            0 <= width,
    ;
}

/// In a grid of positive width, the index of the position of an index below
/// `width * height` is that index, and the position is in bounds.
pub proof fn lemma_index_of_position(width: int, height: int, index: int)
    requires
        0 < width,
        0 <= index < width * height,
    ensures
        grid_in_bounds(width, height, grid_position(width, index)),
        grid_index(width, grid_position(width, index)) == index,
{
    lemma_fundamental_div_mod(index, width);
    lemma_mod_bound(index, width);
    lemma_div_pos_is_pos(index, width);
    assert(index / width < height) by (nonlinear_arith)
        requires
            index == width * (index / width) + index % width,
            0 <= index % width,
            index < width * height,
            0 < width,
    ;
    assert((index / width) * width == width * (index / width)) by (nonlinear_arith);
}

/// A grid of cells, addressed by position or by row-major index.
#[derive(Debug, Clone)]
pub struct Grid<T> {
    width: u32,
    height: u32,
    data: Vec<T>,
}

impl<T> View for Grid<T> {
    type V = Seq<T>;

    /// The cells of the grid, row after row.
    closed spec fn view(&self) -> Seq<T> {
        self.data@
    }
}

// Constructors
impl<T> Grid<T> {
    /// The width of the grid.
    pub closed spec fn spec_width(&self) -> int {
        self.width as int
    }

    /// The height of the grid.
    pub closed spec fn spec_height(&self) -> int {
        self.height as int
    }

    /// The grid holds one cell for each of its positions.
    pub open spec fn wf(&self) -> bool {
        self@.len() == self.spec_width() * self.spec_height()
    }

    /// `position` lies inside the grid.
    pub open spec fn spec_in_bounds(&self, position: (i32, i32)) -> bool {
        grid_in_bounds(self.spec_width(), self.spec_height(), point_of(position))
    }

    /// The row-major index of `position`.
    pub open spec fn spec_index(&self, position: (i32, i32)) -> int {
        grid_index(self.spec_width(), point_of(position))
    }

    /// `position` lies inside the grid and a cell is stored for it.
    pub open spec fn has_cell(&self, position: (i32, i32)) -> bool {
        self.spec_in_bounds(position) && self.spec_index(position) < self@.len()
    }

    /// Create a new `Grid` from a `(width, height)` and `Vec<T>`
    pub fn new(size: (u32, u32), data: Vec<T>) -> (grid: Self)
        ensures
            grid.spec_width() == size.0,
            grid.spec_height() == size.1,
            grid@ == data@,
    {
        Self { width: size.0, height: size.1, data }
    }

    /// Create a new `Grid` from a `(width, height)` cloning the value
    pub fn new_clone(size: (u32, u32), value: T) -> (grid: Self) where T: Clone
        requires
            size.0 * size.1 <= usize::MAX,
        ensures
            grid.wf(),
            grid.spec_width() == size.0,
            grid.spec_height() == size.1,
            forall|i: int| 0 <= i < grid@.len() ==> cloned(value, #[trigger] grid@[i]),
    {
        let capacity = cell_count(size);
        Self::new(size, vec![value; capacity])
    }

    /// Create a new `Grid` from a `(width, height)` copying the value
    pub fn new_copy(size: (u32, u32), value: T) -> (grid: Self) where T: Copy
        requires
            size.0 * size.1 <= usize::MAX,
        ensures
            grid.wf(),
            grid.spec_width() == size.0,
            grid.spec_height() == size.1,
            forall|i: int| 0 <= i < grid@.len() ==> #[trigger] grid@[i] == value,
    {
        let capacity = cell_count(size);
        let mut data: Vec<T> = Vec::with_capacity(capacity);
        let mut i: usize = 0;
        while i < capacity
            invariant
                i <= capacity,
                data@.len() == i,
                forall|j: int| 0 <= j < i ==> #[trigger] data@[j] == value,
            decreases capacity - i,
        {
            data.push(value);
            i += 1;
        }
        Self::new(size, data)
    }

    /// Create a new `Grid` from a `(width, height)` cloning the default value
    pub fn new_default(size: (u32, u32)) -> (grid: Self) where T: Default + Clone
        requires
            size.0 * size.1 <= usize::MAX,
        ensures
            grid.wf(),
            grid.spec_width() == size.0,
            grid.spec_height() == size.1,
            exists|value: T|
                call_ensures(T::default, (), value) && forall|i: int|
                    0 <= i < grid@.len() ==> cloned(value, #[trigger] grid@[i]),
    {
        let capacity = cell_count(size);
        let value = T::default();
        let data = vec![value; capacity];
        proof {
            assert(call_ensures(T::default, (), value) && forall|i: int|
                0 <= i < data@.len() ==> cloned(value, #[trigger] data@[i]));
        }
        Self::new(size, data)
    }

    /// Create a new `Grid` from a `(width, height)` obtaining a new default value for all data
    pub fn new_default_no_clone(size: (u32, u32)) -> (grid: Self) where T: Default
        requires
            size.0 * size.1 <= usize::MAX,
        ensures
            grid.wf(),
            grid.spec_width() == size.0,
            grid.spec_height() == size.1,
            forall|i: int|
                0 <= i < grid@.len() ==> call_ensures(T::default, (), #[trigger] grid@[i]),
    {
        let capacity = cell_count(size);
        let mut data: Vec<T> = Vec::with_capacity(capacity);
        let mut i: usize = 0;
        while i < capacity
            invariant
                i <= capacity,
                data@.len() == i,
                forall|j: int| 0 <= j < i ==> call_ensures(T::default, (), #[trigger] data@[j]),
            decreases capacity - i,
        {
            data.push(T::default());
            i += 1;
        }
        Self::new(size, data)
    }
}

impl<T> Grid<T> {
    /// Create a new `Grid` from a `(width, height)` obtaining a value from a `Fn(index,
    /// position) -> T`
    pub fn new_fn<F>(size: (u32, u32), mut f: F) -> (grid: Self) where
        F: FnMut(usize, (i32, i32)) -> T,
        requires
            size.0 * size.1 <= usize::MAX,
            size_fits((size.0 as int, size.1 as int)),
            forall|i: usize, p: (i32, i32)|
                grid_in_bounds(size.0 as int, size.1 as int, point_of(p)) && i == grid_index(
                    size.0 as int,
                    point_of(p),
                ) ==> #[trigger] call_requires(f, (i, p)),
        ensures
            grid.wf(),
            grid.spec_width() == size.0,
            grid.spec_height() == size.1,
            forall|i: int|
                0 <= i < grid@.len() ==> call_ensures(
                    f,
                    (i as usize, ((i % size.0 as int) as i32, (i / size.0 as int) as i32)),
                    #[trigger] grid@[i],
                ),
    {
        let capacity = cell_count(size);
        let mut data: Vec<T> = Vec::with_capacity(capacity);
        let mut i: usize = 0;
        let mut y: u32 = 0;
        let ghost width = size.0 as int;
        let ghost f0 = f;
        while y < size.1
            invariant
                f == f0,
                y <= size.1,
                width == size.0,
                i == y * width,
                data@.len() == i,
                capacity == width * size.1,
                size_fits((size.0 as int, size.1 as int)),
                forall|i: usize, p: (i32, i32)|
                    grid_in_bounds(width, size.1 as int, point_of(p)) && i == grid_index(
                        width,
                        point_of(p),
                    ) ==> #[trigger] call_requires(f, (i, p)),
                forall|j: int|
                    0 <= j < data@.len() ==> call_ensures(
                        f,
                        (j as usize, ((j % width) as i32, (j / width) as i32)),
                        #[trigger] data@[j],
                    ),
            decreases size.1 - y,
        {
            let mut x: u32 = 0;
            while x < size.0
                invariant
                    f == f0,
                    x <= size.0,
                    y < size.1,
                    width == size.0,
                    i == y * width + x,
                    data@.len() == i,
                    capacity == width * size.1,
                    size_fits((size.0 as int, size.1 as int)),
                    forall|i: usize, p: (i32, i32)|
                        grid_in_bounds(width, size.1 as int, point_of(p)) && i == grid_index(
                            width,
                            point_of(p),
                        ) ==> #[trigger] call_requires(f, (i, p)),
                    forall|j: int|
                        0 <= j < data@.len() ==> call_ensures(
                            f,
                            (j as usize, ((j % width) as i32, (j / width) as i32)),
                            #[trigger] data@[j],
                        ),
                decreases size.0 - x,
            {
                proof {
                    lemma_position_of_index(width, size.1 as int, (x as int, y as int));
                }
                let value = f(i, (x as i32, y as i32));
                data.push(value);
                i += 1;
                x += 1;
            }
            proof {
                assert((y + 1) * width == y * width + width) by (nonlinear_arith);
            }
            y += 1;
        }
        proof {
            assert(size.1 * width == width * size.1) by (nonlinear_arith);
        }
        Self::new(size, data)
    }
}

// Properties
impl<T> Grid<T> {
    /// Obtain the size of this `Grid`
    #[inline]
    pub fn size(&self) -> (size: (u32, u32))
        ensures
            size.0 == self.spec_width(),
            size.1 == self.spec_height(),
    {
        (self.width, self.height)
    }

    /// Obtain the width of this `Grid`
    #[inline]
    pub fn width(&self) -> (width: u32)
        ensures
            width == self.spec_width(),
    {
        self.width
    }

    /// Obtain the height of this `Grid`
    #[inline]
    pub fn height(&self) -> (height: u32)
        ensures
            height == self.spec_height(),
    {
        self.height
    }

    /// Determine if a position is inside of this `Grid`
    ///
    /// NOTE: A position converted to an index may not be `in_bounds` yet still pass
    /// `is_valid`. Given a `Grid` with size (3, 3), a position (3, 1) is not inside this
    /// `Grid` but provides a valid index.
    #[inline]
    pub fn in_bounds(&self, position: (i32, i32)) -> (inside: bool)
        ensures
            inside == self.spec_in_bounds(position),
    {
        position.0 >= 0 && (position.0 as i64) < self.width as i64 && position.1 >= 0 && (
        position.1 as i64) < self.height as i64
    }

    /// Determine if an index is valid in this `Grid`
    ///
    /// NOTE: A position converted to an index may not be `in_bounds` yet still pass
    /// `is_valid`. Given a `Grid` with size (3, 3), a position (3, 1) is not inside this
    /// `Grid` but provides a valid index.
    #[inline]
    pub fn is_valid(&self, index: usize) -> (valid: bool)
        ensures
            valid == (index < self@.len()),
    {
        index < self.data.len()
    }
}

// Index/Position Conversion
impl<T> Grid<T> {
    /// The grid has columns, and the row and the column of `index` fit the
    /// machine integers of a position.
    pub open spec fn spec_position_fits(&self, index: usize) -> bool {
        &&& 0 < self.spec_width()
        &&& grid_position(self.spec_width(), index as int).0 <= i32::MAX
        &&& grid_position(self.spec_width(), index as int).1 <= i32::MAX
    }

    /// The index of `position`, if it lies inside the grid and its index is
    /// a machine index.
    pub open spec fn spec_position_to_index(&self, position: (i32, i32)) -> Option<usize> {
        if self.spec_in_bounds(position) && self.spec_index(position) <= usize::MAX {
            Some(self.spec_index(position) as usize)
        } else {
            None
        }
    }

    /// The position of `index`, if that position lies inside the grid and is
    /// a machine position.
    pub open spec fn spec_index_to_position(&self, index: usize) -> Option<(i32, i32)> {
        let p = grid_position(self.spec_width(), index as int);
        if self.spec_position_fits(index) && p.1 < self.spec_height() {
            Some((p.0 as i32, p.1 as i32))
        } else {
            None
        }
    }

    /// Converts a position into an index
    pub fn position_to_index(&self, position: (i32, i32)) -> (index: Option<usize>)
        ensures
            index == self.spec_position_to_index(position),
            self.has_cell(position) ==> index.is_some(),
    {
        if self.in_bounds(position) {
            proof {
                vstd::std_specs::vec::axiom_spec_len(&self.data);
                lemma_position_of_index(
                    self.spec_width(),
                    self.spec_height(),
                    point_of(position),
                );
                assert(self.spec_width() * self.spec_height() <= 0xffff_ffff * 0xffff_ffff)
                    by (nonlinear_arith)
                    requires
                        0 <= self.spec_width() <= 0xffff_ffff,
                        0 <= self.spec_height() <= 0xffff_ffff,
                ;
            }
            let index: u64 = position.1 as u64 * self.width as u64 + position.0 as u64;
            if index <= usize::MAX as u64 {
                Some(index as usize)
            } else {
                None
            }
        } else {
            None
        }
    }

    /// Converts a position into an index
    #[inline]
    pub fn position_to_index_unchecked(&self, position: (i32, i32)) -> (index: usize)
        requires
            0 <= self.spec_index(position) <= usize::MAX,
        ensures
            index == self.spec_index(position),
    {
        proof {
            assert(-0x8000_0000 * 0xffff_ffff <= position.1 * self.width <= 0x7fff_ffff
                * 0xffff_ffff) by (nonlinear_arith)
                requires
                    -0x8000_0000 <= position.1 <= 0x7fff_ffff,
                    0 <= self.width <= 0xffff_ffff,
            ;
        }
        (position.1 as i64 * self.width as i64 + position.0 as i64) as usize
    }

    /// Converts an index into a position
    pub fn index_to_position(&self, index: usize) -> (position: Option<(i32, i32)>)
        ensures
            position == self.spec_index_to_position(index),
            position.is_some() ==> self.spec_in_bounds(position.unwrap()),
    {
        if self.width == 0 {
            return None;
        }
        let x: u64 = index as u64 % self.width as u64;
        let y: u64 = index as u64 / self.width as u64;
        if x <= i32::MAX as u64 && y <= i32::MAX as u64 && y < self.height as u64 {
            proof {
                lemma_mod_bound(index as int, self.spec_width());
            }
            Some((x as i32, y as i32))
        } else {
            None
        }
    }

    /// Converts an index into a position
    #[inline]
    pub fn index_to_position_unchecked(&self, index: usize) -> (position: (i32, i32))
        requires
            self.spec_position_fits(index),
        ensures
            point_of(position) == grid_position(self.spec_width(), index as int),
    {
        ((index as u64 % self.width as u64) as i32, (index as u64 / self.width as u64) as i32)
    }
}

// Accessors
impl<T> Grid<T> {
    /// Borrow the full `Grid`
    #[inline]
    pub fn data(&self) -> (data: &Vec<T>)
        ensures
            data@ == self@,
    {
        &self.data
    }

    /// The size and the cells of the `Grid`
    #[inline]
    pub fn into_parts(self) -> (parts: ((u32, u32), Vec<T>))
        ensures
            parts.0.0 == self.spec_width(),
            parts.0.1 == self.spec_height(),
            parts.1@ == self@,
    {
        ((self.width, self.height), self.data)
    }

    /// Mutably borrow the full `Grid`
    #[inline]
    pub fn data_mut(&mut self) -> (data: &mut Vec<T>)
        ensures
            data@ == old(self)@,
            final(self)@ == final(data)@,
            final(self).spec_width() == old(self).spec_width(),
            final(self).spec_height() == old(self).spec_height(),
    {
        &mut self.data
    }

    /// Borrow a value at an index
    #[inline]
    pub fn get_index(&self, index: usize) -> (cell: Option<&T>)
        ensures
            cell == if index < self@.len() {
                Some(&self@[index as int])
            } else {
                None
            },
    {
        if index < self.data.len() {
            Some(&self.data[index])
        } else {
            None
        }
    }

    /// Mutably borrow a value at an index
    #[inline]
    pub fn get_mut_index(&mut self, index: usize) -> (cell: Option<&mut T>)
        ensures
            final(self).spec_width() == old(self).spec_width(),
            final(self).spec_height() == old(self).spec_height(),
            match cell {
                Some(cell) => {
                    &&& index < old(self)@.len()
                    &&& *cell == old(self)@[index as int]
                    &&& final(self)@ == old(self)@.update(index as int, *final(cell))
                },
                None => index >= old(self)@.len() && final(self)@ == old(self)@,
            },
    {
        if index < self.data.len() {
            Some(&mut self.data[index])
        } else {
            None
        }
    }

    /// Borrow a value at a position
    pub fn get(&self, position: (i32, i32)) -> (cell: Option<&T>)
        ensures
            cell == if self.has_cell(position) {
                Some(&self@[self.spec_index(position)])
            } else {
                None
            },
    {
        match self.position_to_index(position) {
            Some(index) => self.get_index(index),
            None => None,
        }
    }

    /// Mutably borrow a value at a position
    pub fn get_mut(&mut self, position: (i32, i32)) -> (cell: Option<&mut T>)
        ensures
            final(self).spec_width() == old(self).spec_width(),
            final(self).spec_height() == old(self).spec_height(),
            match cell {
                Some(cell) => {
                    &&& old(self).has_cell(position)
                    &&& *cell == old(self)@[old(self).spec_index(position)]
                    &&& final(self)@ == old(self)@.update(
                        old(self).spec_index(position),
                        *final(cell),
                    )
                },
                None => !old(self).has_cell(position) && final(self)@ == old(self)@,
            },
    {
        match self.position_to_index(position) {
            Some(index) => self.get_mut_index(index),
            None => None,
        }
    }

    /// Take the value at a position leaving default
    pub fn take(&mut self, position: (i32, i32)) -> (taken: Option<T>) where T: Default
        ensures
            final(self).spec_width() == old(self).spec_width(),
            final(self).spec_height() == old(self).spec_height(),
            match taken {
                Some(value) => {
                    &&& old(self).has_cell(position)
                    &&& value == old(self)@[old(self).spec_index(position)]
                    &&& final(self)@.len() == old(self)@.len()
                    &&& call_ensures(
                        T::default,
                        (),
                        final(self)@[old(self).spec_index(position)],
                    )
                    &&& final(self)@ == old(self)@.update(
                        old(self).spec_index(position),
                        final(self)@[old(self).spec_index(position)],
                    )
                },
                None => !old(self).has_cell(position) && final(self)@ == old(self)@,
            },
    {
        match self.position_to_index(position) {
            Some(index) => {
                if index < self.data.len() {
                    let mut value = T::default();
                    std::mem::swap(&mut self.data[index], &mut value);
                    Some(value)
                } else {
                    None
                }
            },
            None => None,
        }
    }

    /// Replace the value at a position leaving src
    pub fn replace(&mut self, position: (i32, i32), src: T) -> (replaced: Option<T>)
        ensures
            final(self).spec_width() == old(self).spec_width(),
            final(self).spec_height() == old(self).spec_height(),
            match replaced {
                Some(value) => {
                    &&& old(self).has_cell(position)
                    &&& value == old(self)@[old(self).spec_index(position)]
                    &&& final(self)@ == old(self)@.update(old(self).spec_index(position), src)
                },
                None => !old(self).has_cell(position) && final(self)@ == old(self)@,
            },
    {
        match self.position_to_index(position) {
            Some(index) => {
                if index < self.data.len() {
                    let mut value = src;
                    std::mem::swap(&mut self.data[index], &mut value);
                    Some(value)
                } else {
                    None
                }
            },
            None => None,
        }
    }

    /// Swap the value at a position with another value
    pub fn swap(&mut self, position: (i32, i32), src: &mut T)
        ensures
            final(self).spec_width() == old(self).spec_width(),
            final(self).spec_height() == old(self).spec_height(),
            if old(self).has_cell(position) {
                &&& *final(src) == old(self)@[old(self).spec_index(position)]
                &&& final(self)@ == old(self)@.update(old(self).spec_index(position), *old(src))
            } else {
                &&& *final(src) == *old(src)
                &&& final(self)@ == old(self)@
            },
    {
        match self.position_to_index(position) {
            Some(index) => {
                if index < self.data.len() {
                    std::mem::swap(&mut self.data[index], src);
                }
            },
            None => {},
        }
    }
}

/// The eight positions next to `p`, row by row from below, each row from the left.
pub open spec fn neighbor_candidates(p: (int, int)) -> Seq<(int, int)> {
    seq![
        (p.0 - 1, p.1 - 1),
        (p.0, p.1 - 1),
        (p.0 + 1, p.1 - 1),
        (p.0 - 1, p.1),
        (p.0 + 1, p.1),
        (p.0 - 1, p.1 + 1),
        (p.0, p.1 + 1),
        (p.0 + 1, p.1 + 1),
    ]
}

/// The test whether a position lies inside a grid of the given width and
/// height and has coordinates that fit the machine integers.
pub open spec fn inside(width: int, height: int) -> spec_fn((int, int)) -> bool {
    |q: (int, int)| grid_in_bounds(width, height, q) && q.0 <= i32::MAX && q.1 <= i32::MAX
}

/// The positions next to `p` that lie inside a grid of the given width and
/// height, in the order of [`neighbor_candidates`].
pub open spec fn grid_neighbors(width: int, height: int, p: (int, int)) -> Seq<(int, int)> {
    neighbor_candidates(p).filter(inside(width, height))
}

// Helpers
impl<T> Grid<T> {
    /// Appends `(x, y)` to `found` if it lies inside the grid; `seen` are the
    /// candidates looked at so far.
    fn push_inside(&self, found: &mut Vec<(i32, i32)>, x: i64, y: i64, Ghost(seen): Ghost<
        Seq<(int, int)>,
    >)
        requires
            points_of(old(found)@) == seen.filter(inside(self.spec_width(), self.spec_height())),
        ensures
            points_of(final(found)@) == seen.push((x as int, y as int)).filter(
                inside(self.spec_width(), self.spec_height()),
            ),
    {
        proof {
            seen.lemma_filter_push(
                (x as int, y as int),
                inside(self.spec_width(), self.spec_height()),
            );
        }
        if 0 <= x && x < self.width as i64 && 0 <= y && y < self.height as i64 && x
            <= i32::MAX as i64 && y <= i32::MAX as i64 {
            proof {
                lemma_points_of_push(found@, (x as i32, y as i32));
            }
            found.push((x as i32, y as i32));
        }
    }

    /// The positions next to `position`, straight and diagonal, that lie inside the grid
    pub fn neighbors(&self, position: (i32, i32)) -> (neighbors: Vec<(i32, i32)>)
        ensures
            points_of(neighbors@) == grid_neighbors(
                self.spec_width(),
                self.spec_height(),
                point_of(position),
            ),
    {
        let mut neighbors: Vec<(i32, i32)> = Vec::new();
        let x: i64 = position.0 as i64;
        let y: i64 = position.1 as i64;
        let ghost all = neighbor_candidates(point_of(position));
        let ghost keep = inside(self.spec_width(), self.spec_height());
        proof {
            reveal(Seq::filter);
            assert(points_of(neighbors@) =~= all.take(0).filter(keep));
            assert forall|k: int| 0 <= k < 8 implies all.take(k).push(all[k]) =~= #[trigger] all.take(
                k + 1,
            ) by {}
            assert(all.take(8) =~= all);
        }
        self.push_inside(&mut neighbors, x - 1, y - 1, Ghost(all.take(0)));
        self.push_inside(&mut neighbors, x, y - 1, Ghost(all.take(1)));
        self.push_inside(&mut neighbors, x + 1, y - 1, Ghost(all.take(2)));
        self.push_inside(&mut neighbors, x - 1, y, Ghost(all.take(3)));
        self.push_inside(&mut neighbors, x + 1, y, Ghost(all.take(4)));
        self.push_inside(&mut neighbors, x - 1, y + 1, Ghost(all.take(5)));
        self.push_inside(&mut neighbors, x, y + 1, Ghost(all.take(6)));
        self.push_inside(&mut neighbors, x + 1, y + 1, Ghost(all.take(7)));
        neighbors
    }
}

/// The shape of a grid: its width, its height and the number of its cells.
pub struct GridShape {
    pub width: int,
    pub height: int,
    pub len: int,
}

/// `p` is a position inside a grid of shape `g` for which a cell is stored.
pub open spec fn shape_has_cell(g: GridShape, p: (int, int)) -> bool {
    &&& grid_in_bounds(g.width, g.height, p)
    &&& p.0 <= i32::MAX
    &&& p.1 <= i32::MAX
    &&& grid_index(g.width, p) < g.len
}

/// The offset within the copy window that lands on cell `index` of a
/// destination of width `width` when the window is laid down at `to`.
pub open spec fn blit_offset(width: int, to: (int, int), index: int) -> (int, int) {
    (grid_position(width, index).0 - to.0, grid_position(width, index).1 - to.1)
}

/// The index of the cell of the source from which `blit` fills cell `index`
/// of the destination, if it fills that cell at all: the cell stands for a
/// position of the destination, that position lies in the window of the
/// given `size` laid down at `to`, and the position of the source at the same
/// offset from `from` has a cell.
pub open spec fn blit_source(
    dst: GridShape,
    to: (int, int),
    size: (int, int),
    src: GridShape,
    from: (int, int),
    index: int,
) -> Option<int> {
    let o = blit_offset(dst.width, to, index);
    let s = (o.0 + from.0, o.1 + from.1);
    if 0 < dst.width && 0 <= index < dst.len && shape_has_cell(
        dst,
        grid_position(dst.width, index),
    ) && 0 <= o.0 < size.0 && 0 <= o.1 < size.1 && shape_has_cell(src, s) {
        Some(grid_index(src.width, s))
    } else {
        None
    }
}

/// The offset `o` comes before `(x, y)` in a row-major walk over the window.
pub open spec fn offset_before(o: (int, int), x: int, y: int) -> bool {
    o.1 < y || (o.1 == y && o.0 < x)
}

impl<T> Grid<T> {
    /// The shape of the grid.
    pub open spec fn shape(&self) -> GridShape {
        GridShape { width: self.spec_width(), height: self.spec_height(), len: self@.len() as int }
    }

    /// Copies into the cell of `destination` at offset `(x, y)` from
    /// `to_offset` the cell of `source` at the same offset from `from_offset`,
    /// where both cells exist.
    fn blit_cell(
        destination: &mut Self,
        to_offset: (i32, i32),
        source: &Self,
        from_offset: (i32, i32),
        x: u32,
        y: u32,
    ) where T: Clone
        ensures
            final(destination).shape() == old(destination).shape(),
            ({
                let d = (x + to_offset.0, y + to_offset.1);
                let s = (x + from_offset.0, y + from_offset.1);
                if shape_has_cell(old(destination).shape(), d) && shape_has_cell(
                    source.shape(),
                    s,
                ) {
                    let i = grid_index(old(destination).spec_width(), d);
                    &&& final(destination)@ == old(destination)@.update(i, final(destination)@[i])
                    &&& cloned(source@[grid_index(source.spec_width(), s)], final(destination)@[i])
                } else {
                    final(destination)@ == old(destination)@
                }
            }),
    {
        let destination_x: i64 = x as i64 + to_offset.0 as i64;
        let destination_y: i64 = y as i64 + to_offset.1 as i64;
        let source_x: i64 = x as i64 + from_offset.0 as i64;
        let source_y: i64 = y as i64 + from_offset.1 as i64;
        if !(fits_position(destination_x, destination_y) && fits_position(source_x, source_y)) {
            return ;
        }
        if let Some(source_value) = source.get((source_x as i32, source_y as i32)) {
            if let Some(destination_value) = destination.get_mut(
                (destination_x as i32, destination_y as i32),
            ) {
                *destination_value = source_value.clone();
            }
        }
    }

    /// Copies the window of the given `size` at `from_offset` in `source` to
    /// `to_offset` in `destination`, cell by cell; a cell that either grid
    /// lacks is passed over.
    pub fn blit(
        destination: &mut Self,
        to_offset: (i32, i32),
        size: (u32, u32),
        source: &Self,
        from_offset: (i32, i32),
    ) where T: Clone
        ensures
            final(destination).shape() == old(destination).shape(),
            forall|i: int|
                0 <= i < old(destination)@.len() ==> match blit_source(
                    old(destination).shape(),
                    point_of(to_offset),
                    (size.0 as int, size.1 as int),
                    source.shape(),
                    point_of(from_offset),
                    i,
                ) {
                    Some(j) => cloned(source@[j], #[trigger] final(destination)@[i]),
                    None => final(destination)@[i] == old(destination)@[i],
                },
    {
        let ghost dst = destination.shape();
        let ghost src = source.shape();
        let ghost to = point_of(to_offset);
        let ghost from = point_of(from_offset);
        let ghost window = (size.0 as int, size.1 as int);
        let mut y: u32 = 0;
        while y < size.1
            invariant
                y <= size.1,
                destination.shape() == dst,
                dst == old(destination).shape(),
                src == source.shape(),
                to == point_of(to_offset),
                from == point_of(from_offset),
                window == (size.0 as int, size.1 as int),
                forall|i: int|
                    0 <= i < dst.len ==> match blit_source(dst, to, window, src, from, i) {
                        Some(j) => if offset_before(blit_offset(dst.width, to, i), 0, y as int) {
                            cloned(source@[j], #[trigger] destination@[i])
                        } else {
                            destination@[i] == old(destination)@[i]
                        },
                        None => destination@[i] == old(destination)@[i],
                    },
            decreases size.1 - y,
        {
            let mut x: u32 = 0;
            while x < size.0
                invariant
                    x <= size.0,
                    y < size.1,
                    destination.shape() == dst,
                    dst == old(destination).shape(),
                    src == source.shape(),
                    to == point_of(to_offset),
                    from == point_of(from_offset),
                    window == (size.0 as int, size.1 as int),
                    forall|i: int|
                        0 <= i < dst.len ==> match blit_source(dst, to, window, src, from, i) {
                            Some(j) => if offset_before(
                                blit_offset(dst.width, to, i),
                                x as int,
                                y as int,
                            ) {
                                cloned(source@[j], #[trigger] destination@[i])
                            } else {
                                destination@[i] == old(destination)@[i]
                            },
                            None => destination@[i] == old(destination)@[i],
                        },
                decreases size.0 - x,
            {
                Self::blit_cell(destination, to_offset, source, from_offset, x, y);
                proof {
                    let d = (x + to.0, y + to.1);
                    if shape_has_cell(dst, d) {
                        lemma_position_of_index(dst.width, dst.height, d);
                    }
                    assert forall|i: int| 0 <= i < dst.len implies match blit_source(
                        dst,
                        to,
                        window,
                        src,
                        from,
                        i,
                    ) {
                        Some(j) => if offset_before(
                            blit_offset(dst.width, to, i),
                            x + 1,
                            y as int,
                        ) {
                            cloned(source@[j], #[trigger] destination@[i])
                        } else {
                            destination@[i] == old(destination)@[i]
                        },
                        None => destination@[i] == old(destination)@[i],
                    } by {
                        if 0 < dst.width && shape_has_cell(dst, grid_position(dst.width, i)) {
                            lemma_index_of_position_in_bounds(dst.width, dst.height, i);
                        }
                    }
                }
                x += 1;
            }
            y += 1;
        }
    }
}

/// An index whose position lies in bounds is the index of that position.
pub proof fn lemma_index_of_position_in_bounds(width: int, height: int, index: int)
    requires
        0 < width,
        0 <= index,
        grid_in_bounds(width, height, grid_position(width, index)),
    ensures
        grid_index(width, grid_position(width, index)) == index,
{
    lemma_fundamental_div_mod(index, width);
    assert((index / width) * width == width * (index / width)) by (nonlinear_arith);
}

/// `(x, y)` can be written as a position.
fn fits_position(x: i64, y: i64) -> (fits: bool)
    ensures
        fits == (i32::MIN <= x <= i32::MAX && i32::MIN <= y <= i32::MAX),
{
    i32::MIN as i64 <= x && x <= i32::MAX as i64 && i32::MIN as i64 <= y && y <= i32::MAX as i64
}

/// `count` indices from `start` on, `step` apart.
pub open spec fn index_run(start: int, step: int, count: int) -> Seq<usize> {
    Seq::new(count as nat, |k: int| (start + k * step) as usize)
}

/// The indices `start`, `start + step`, ... : `count` of them.
fn collect_run(start: usize, step: usize, count: usize) -> (run: Vec<usize>)
    requires
        count > 0 ==> start + (count - 1) * step <= usize::MAX,
    ensures
        run@ == index_run(start as int, step as int, count as int),
{
    let mut run: Vec<usize> = Vec::new();
    let mut k: usize = 0;
    let mut index: usize = start;
    while k < count
        invariant
            k <= count,
            count > 0 ==> start + (count - 1) * step <= usize::MAX,
            k < count ==> index == start + k * step,
            run@ =~= index_run(start as int, step as int, k as int),
        decreases count - k,
    {
        run.push(index);
        proof {
            assert((k + 1) * step == k * step + step) by (nonlinear_arith);
            assert(k + 1 < count ==> (k + 1) * step <= (count - 1) * step) by (nonlinear_arith)
                requires
                    0 <= step,
            ;
        }
        k += 1;
        if k < count {
            index += step;
        }
    }
    run
}

// Iterators
impl<T> Grid<T> {
    /// The cells of the grid, row after row
    pub fn iter(&self) -> (cells: &[T])
        ensures
            cells@ == self@,
    {
        self.data.as_slice()
    }

    /// The cells of the grid, row after row, open to change
    pub fn iter_mut(&mut self) -> (cells: &mut [T])
        ensures
            cells@ == old(self)@,
            final(self)@ == final(cells)@,
            final(self).spec_width() == old(self).spec_width(),
            final(self).spec_height() == old(self).spec_height(),
    {
        self.data.as_mut_slice()
    }

    /// The cells at the given indices.
    fn cells_at(&self, indices: &Vec<usize>) -> (cells: Vec<&T>)
        requires
            forall|k: int| 0 <= k < indices@.len() ==> indices@[k] < self@.len(),
        ensures
            cells@.len() == indices@.len(),
            forall|k: int| 0 <= k < cells@.len() ==> *#[trigger] cells@[k] == self@[indices@[k] as int],
    {
        let mut cells: Vec<&T> = Vec::new();
        let mut k: usize = 0;
        while k < indices.len()
            invariant
                k <= indices@.len(),
                cells@.len() == k,
                forall|k: int| 0 <= k < indices@.len() ==> indices@[k] < self@.len(),
                forall|j: int| 0 <= j < k ==> *#[trigger] cells@[j] == self@[indices@[j] as int],
            decreases indices@.len() - k,
        {
            cells.push(&self.data[indices[k]]);
            k += 1;
        }
        cells
    }

    /// Every position of the grid has coordinates that fit the machine integers.
    pub open spec fn positions_fit(&self) -> bool {
        size_fits((self.spec_width(), self.spec_height()))
    }

    /// The positions of the grid, row after row
    pub fn position_iter(&self) -> (positions: Vec<(i32, i32)>)
        requires
            self.positions_fit(),
        ensures
            positions@.len() == self.spec_width() * self.spec_height(),
            forall|i: int|
                0 <= i < positions@.len() ==> point_of(#[trigger] positions@[i]) == grid_position(
                    self.spec_width(),
                    i,
                ),
    {
        let mut positions: Vec<(i32, i32)> = Vec::new();
        let ghost width = self.spec_width();
        let mut y: u32 = 0;
        while y < self.height
            invariant
                y <= self.height,
                width == self.spec_width(),
                self.positions_fit(),
                positions@.len() == y * width,
                forall|i: int|
                    0 <= i < positions@.len() ==> point_of(#[trigger] positions@[i])
                        == grid_position(width, i),
            decreases self.height - y,
        {
            let mut x: u32 = 0;
            while x < self.width
                invariant
                    x <= self.width,
                    y < self.height,
                    width == self.spec_width(),
                    self.positions_fit(),
                    positions@.len() == y * width + x,
                    forall|i: int|
                        0 <= i < positions@.len() ==> point_of(#[trigger] positions@[i])
                            == grid_position(width, i),
                decreases self.width - x,
            {
                proof {
                    lemma_position_of_index(width, self.spec_height(), (x as int, y as int));
                }
                positions.push((x as i32, y as i32));
                x += 1;
            }
            proof {
                assert((y + 1) * width == y * width + width) by (nonlinear_arith);
            }
            y += 1;
        }
        proof {
            assert(self.height * width == width * self.height) by (nonlinear_arith);
        }
        positions
    }

    /// The positions of the grid, row after row, each with its cell
    pub fn enumerate(&self) -> (items: Vec<((i32, i32), &T)>)
        requires
            self.positions_fit(),
            self.spec_width() * self.spec_height() <= self@.len(),
        ensures
            items@.len() == self.spec_width() * self.spec_height(),
            forall|i: int|
                0 <= i < items@.len() ==> point_of((#[trigger] items@[i]).0) == grid_position(
                    self.spec_width(),
                    i,
                ) && *items@[i].1 == self@[i],
    {
        let positions = self.position_iter();
        let mut items: Vec<((i32, i32), &T)> = Vec::new();
        let mut i: usize = 0;
        while i < positions.len()
            invariant
                i <= positions@.len(),
                positions@.len() <= self@.len(),
                items@.len() == i,
                forall|j: int|
                    0 <= j < positions@.len() ==> point_of(#[trigger] positions@[j])
                        == grid_position(self.spec_width(), j),
                forall|j: int|
                    0 <= j < i ==> point_of((#[trigger] items@[j]).0) == grid_position(
                        self.spec_width(),
                        j,
                    ) && *items@[j].1 == self@[j],
            decreases positions@.len() - i,
        {
            items.push((positions[i], &self.data[i]));
            i += 1;
        }
        items
    }

    /// The positions of the grid, row after row, each with the index under
    /// which `get_mut_index` hands out its cell
    pub fn enumerate_mut(&self) -> (items: Vec<((i32, i32), usize)>)
        requires
            self.positions_fit(),
            self.spec_width() * self.spec_height() <= usize::MAX,
        ensures
            items@.len() == self.spec_width() * self.spec_height(),
            forall|i: int|
                0 <= i < items@.len() ==> point_of((#[trigger] items@[i]).0) == grid_position(
                    self.spec_width(),
                    i,
                ) && items@[i].1 == i,
    {
        let positions = self.position_iter();
        let mut items: Vec<((i32, i32), usize)> = Vec::new();
        let mut i: usize = 0;
        while i < positions.len()
            invariant
                i <= positions@.len(),
                items@.len() == i,
                forall|j: int|
                    0 <= j < positions@.len() ==> point_of(#[trigger] positions@[j])
                        == grid_position(self.spec_width(), j),
                forall|j: int|
                    0 <= j < i ==> point_of((#[trigger] items@[j]).0) == grid_position(
                        self.spec_width(),
                        j,
                    ) && items@[j].1 == j,
            decreases positions@.len() - i,
        {
            items.push((positions[i], i));
            i += 1;
        }
        items
    }

    /// Row `y` lies in the grid and all of its cells are stored.
    pub open spec fn has_row(&self, y: usize) -> bool {
        y < self.spec_height() && (y + 1) * self.spec_width() <= self@.len()
    }

    /// The cells of row `y`
    pub fn row(&self, y: usize) -> (row: Option<&[T]>)
        requires
            y < self.spec_height() ==> self.has_row(y),
        ensures
            match row {
                Some(cells) => y < self.spec_height() && cells@ == self@.subrange(
                    y * self.spec_width(),
                    (y + 1) * self.spec_width(),
                ),
                None => y >= self.spec_height(),
            },
    {
        if y < self.height as usize {
            proof {
                assert((y + 1) * self.spec_width() == y * self.spec_width() + self.spec_width())
                    by (nonlinear_arith);
                assert(0 <= y * self.spec_width()) by (nonlinear_arith)
                    requires
                        0 <= self.spec_width(),
                ;
                vstd::std_specs::vec::axiom_spec_len(&self.data);
            }
            let start: usize = y * self.width as usize;
            Some(vstd::slice::slice_subrange(self.data.as_slice(), start, start + self.width as usize))
        } else {
            None
        }
    }

    /// The indices of the cells of row `y`
    pub fn row_mut(&self, y: usize) -> (row: Option<Vec<usize>>)
        requires
            y < self.spec_height() ==> self.has_row(y),
        ensures
            match row {
                Some(indices) => y < self.spec_height() && indices@ == index_run(
                    y * self.spec_width(),
                    1,
                    self.spec_width(),
                ),
                None => y >= self.spec_height(),
            },
    {
        if y < self.height as usize {
            proof {
                assert((y + 1) * self.spec_width() == y * self.spec_width() + self.spec_width())
                    by (nonlinear_arith);
                assert(0 <= y * self.spec_width()) by (nonlinear_arith)
                    requires
                        0 <= self.spec_width(),
                ;
                vstd::std_specs::vec::axiom_spec_len(&self.data);
            }
            let start: usize = y * self.width as usize;
            Some(collect_run(start, 1, self.width as usize))
        } else {
            None
        }
    }
}

/// The number of cells that lie in column `x` of a sequence of `len` cells
/// laid out in rows of `width`: those at `x`, `x + width`, ... below `len`.
pub open spec fn column_len(len: int, width: int, x: int) -> int {
    if x < len {
        (len - x - 1) / width + 1
    } else {
        0
    }
}

/// A column of a grid that holds one cell for each position has as many
/// cells as the grid has rows.
pub proof fn lemma_column_len(width: int, height: int, x: int)
    requires
        0 <= x < width,
        0 <= height,
    ensures
        column_len(width * height, width, x) == height,
{
    if height > 0 {
        assert(width * height - x - 1 == (height - 1) * width + (width - x - 1))
            by (nonlinear_arith);
        lemma_fundamental_div_mod_converse(
            width * height - x - 1,
            width,
            height - 1,
            width - x - 1,
        );
        assert(width <= width * height) by (nonlinear_arith)
            requires
                0 <= width,
                height >= 1,
        ;
    } else {
        assert(width * height == 0) by (nonlinear_arith)
            requires
                height == 0,
        ;
    }
}

impl<T> Grid<T> {
    /// The rows of the grid that are stored in full, from the first on
    pub fn rows(&self) -> (rows: Vec<&[T]>)
        requires
            0 < self.spec_width(),
        ensures
            rows@.len() == self@.len() / self.spec_width() as nat,
            forall|k: int|
                0 <= k < rows@.len() ==> (#[trigger] rows@[k])@ == self@.subrange(
                    k * self.spec_width(),
                    (k + 1) * self.spec_width(),
                ),
    {
        let width: usize = self.width as usize;
        let count: usize = self.data.len() / width;
        let mut rows: Vec<&[T]> = Vec::new();
        let mut k: usize = 0;
        proof {
            vstd::std_specs::vec::axiom_spec_len(&self.data);
            lemma_fundamental_div_mod(self@.len() as int, width as int);
            lemma_mod_bound(self@.len() as int, width as int);
            assert(count * width == width * count) by (nonlinear_arith);
        }
        while k < count
            invariant
                k <= count,
                width == self.spec_width(),
                0 < width,
                count * width <= self@.len() <= usize::MAX,
                rows@.len() == k,
                forall|j: int|
                    0 <= j < k ==> (#[trigger] rows@[j])@ == self@.subrange(
                        j * width,
                        (j + 1) * width,
                    ),
            decreases count - k,
        {
            proof {
                assert((k + 1) * width == k * width + width) by (nonlinear_arith);
                assert((k + 1) * width <= count * width) by (nonlinear_arith)
                    requires
                        k + 1 <= count,
                        0 <= width,
                ;
                assert(0 <= k * width) by (nonlinear_arith)
                    requires
                        0 <= k,
                        0 <= width,
                ;
            }
            let start: usize = k * width;
            rows.push(vstd::slice::slice_subrange(self.data.as_slice(), start, start + width));
            k += 1;
        }
        rows
    }

    /// The indices of the cells of each row that is stored in full, from the
    /// first row on
    pub fn rows_mut(&self) -> (rows: Vec<Vec<usize>>)
        requires
            0 < self.spec_width(),
        ensures
            rows@.len() == self@.len() / self.spec_width() as nat,
            forall|k: int|
                0 <= k < rows@.len() ==> (#[trigger] rows@[k])@ == index_run(
                    k * self.spec_width(),
                    1,
                    self.spec_width(),
                ),
    {
        let width: usize = self.width as usize;
        let count: usize = self.data.len() / width;
        let mut rows: Vec<Vec<usize>> = Vec::new();
        let mut k: usize = 0;
        proof {
            vstd::std_specs::vec::axiom_spec_len(&self.data);
            lemma_fundamental_div_mod(self@.len() as int, width as int);
            lemma_mod_bound(self@.len() as int, width as int);
            assert(count * width == width * count) by (nonlinear_arith);
        }
        while k < count
            invariant
                k <= count,
                width == self.spec_width(),
                0 < width,
                count * width <= self@.len() <= usize::MAX,
                rows@.len() == k,
                forall|j: int|
                    0 <= j < k ==> (#[trigger] rows@[j])@ == index_run(j * width, 1, width as int),
            decreases count - k,
        {
            proof {
                assert((k + 1) * width == k * width + width) by (nonlinear_arith);
                assert((k + 1) * width <= count * width) by (nonlinear_arith)
                    requires
                        k + 1 <= count,
                        0 <= width,
                ;
                assert(0 <= k * width) by (nonlinear_arith)
                    requires
                        0 <= k,
                        0 <= width,
                ;
            }
            let start: usize = k * width;
            rows.push(collect_run(start, 1, width));
            k += 1;
        }
        rows
    }

    /// The number of cells stored in column `x`.
    fn column_count(&self, x: usize) -> (count: usize)
        requires
            x < self.spec_width(),
        ensures
            count == column_len(self@.len() as int, self.spec_width(), x as int),
            count > 0 ==> x + (count - 1) * self.spec_width() < self@.len(),
    {
        if x < self.data.len() {
            let above: usize = (self.data.len() - x - 1) / self.width as usize;
            proof {
                let rest = self@.len() - x - 1;
                lemma_fundamental_div_mod(rest, self.spec_width());
                lemma_mod_bound(rest, self.spec_width());
                assert(above * self.spec_width() == self.spec_width() * above)
                    by (nonlinear_arith);
            }
            above + 1
        } else {
            0
        }
    }

    /// The indices of the cells of column `x`, from the first row on
    pub fn column_mut(&self, x: usize) -> (column: Option<Vec<usize>>)
        ensures
            match column {
                Some(indices) => x < self.spec_width() && indices@ == index_run(
                    x as int,
                    self.spec_width(),
                    column_len(self@.len() as int, self.spec_width(), x as int),
                ),
                None => x >= self.spec_width(),
            },
    {
        if x < self.width as usize {
            proof {
                vstd::std_specs::vec::axiom_spec_len(&self.data);
            }
            let count = self.column_count(x);
            Some(collect_run(x, self.width as usize, count))
        } else {
            None
        }
    }

    /// The cells of column `x`, from the first row on
    pub fn column(&self, x: usize) -> (column: Option<Vec<&T>>)
        ensures
            match column {
                Some(cells) => {
                    &&& x < self.spec_width()
                    &&& cells@.len() == column_len(
                        self@.len() as int,
                        self.spec_width(),
                        x as int,
                    )
                    &&& forall|k: int|
                        0 <= k < cells@.len() ==> *#[trigger] cells@[k] == self@[x + k
                            * self.spec_width()]
                },
                None => x >= self.spec_width(),
            },
    {
        match self.column_mut(x) {
            Some(indices) => {
                proof {
                    vstd::std_specs::vec::axiom_spec_len(&self.data);
                    let count = column_len(self@.len() as int, self.spec_width(), x as int);
                    if count > 0 {
                        let rest = self@.len() - x - 1;
                        lemma_fundamental_div_mod(rest, self.spec_width());
                        lemma_mod_bound(rest, self.spec_width());
                    }
                    assert forall|k: int| 0 <= k < indices@.len() implies #[trigger] indices@[k]
                        == x + k * self.spec_width() && x + k * self.spec_width() < self@.len() by {
                        assert(k * self.spec_width() <= (count - 1) * self.spec_width())
                            by (nonlinear_arith)
                            requires
                                k <= count - 1,
                                0 <= self.spec_width(),
                        ;
                        assert((count - 1) * self.spec_width() == self.spec_width() * (count - 1))
                            by (nonlinear_arith);
                        assert(0 <= k * self.spec_width()) by (nonlinear_arith)
                            requires
                                0 <= k,
                                0 <= self.spec_width(),
                        ;
                    }
                }
                Some(self.cells_at(&indices))
            },
            None => None,
        }
    }

    /// The indices of the cells of each column, from the first column on,
    /// each from the first row on
    pub fn columns_mut(&self) -> (columns: Vec<Vec<usize>>)
        requires
            self.spec_width() * self.spec_height() <= usize::MAX,
        ensures
            columns@.len() == self.spec_width(),
            forall|x: int|
                0 <= x < columns@.len() ==> (#[trigger] columns@[x])@ == index_run(
                    x,
                    self.spec_width(),
                    self.spec_height(),
                ),
    {
        let mut columns: Vec<Vec<usize>> = Vec::new();
        let mut x: usize = 0;
        while x < self.width as usize
            invariant
                x <= self.spec_width(),
                self.spec_width() * self.spec_height() <= usize::MAX,
                columns@.len() == x,
                forall|j: int|
                    0 <= j < x ==> (#[trigger] columns@[j])@ == index_run(
                        j,
                        self.spec_width(),
                        self.spec_height(),
                    ),
            decreases self.spec_width() - x,
        {
            proof {
                if self.spec_height() > 0 {
                    assert(x + (self.spec_height() - 1) * self.spec_width() < self.spec_width()
                        * self.spec_height()) by (nonlinear_arith)
                        requires
                            x < self.spec_width(),
                            self.spec_height() >= 1,
                    ;
                }
            }
            columns.push(collect_run(x, self.width as usize, self.height as usize));
            x += 1;
        }
        columns
    }

    /// The cells of each column, from the first column on, each from the
    /// first row on
    pub fn columns(&self) -> (columns: Vec<Vec<&T>>)
        requires
            self.spec_width() * self.spec_height() <= self@.len(),
        ensures
            columns@.len() == self.spec_width(),
            forall|x: int|
                0 <= x < columns@.len() ==> (#[trigger] columns@[x])@.len() == self.spec_height(),
            forall|x: int, y: int|
                0 <= x < columns@.len() && 0 <= y < self.spec_height() ==> *#[trigger] columns@[x]@[y]
                    == self@[y * self.spec_width() + x],
    {
        proof {
            vstd::std_specs::vec::axiom_spec_len(&self.data);
        }
        let runs = self.columns_mut();
        let mut columns: Vec<Vec<&T>> = Vec::new();
        let mut x: usize = 0;
        while x < runs.len()
            invariant
                x <= runs@.len(),
                runs@.len() == self.spec_width(),
                self.spec_width() * self.spec_height() <= self@.len() <= usize::MAX,
                forall|j: int|
                    0 <= j < runs@.len() ==> (#[trigger] runs@[j])@ == index_run(
                        j,
                        self.spec_width(),
                        self.spec_height(),
                    ),
                columns@.len() == x,
                forall|j: int|
                    0 <= j < x ==> (#[trigger] columns@[j])@.len() == self.spec_height(),
                forall|j: int, y: int|
                    0 <= j < x && 0 <= y < self.spec_height() ==> *#[trigger] columns@[j]@[y]
                        == self@[y * self.spec_width() + j],
            decreases runs@.len() - x,
        {
            proof {
                assert forall|y: int| 0 <= y < self.spec_height() implies #[trigger] runs@[x as int]@[y]
                    == y * self.spec_width() + x && 0 <= y * self.spec_width() + x
                    < self@.len() by {
                    lemma_position_of_index(
                        self.spec_width(),
                        self.spec_height(),
                        (x as int, y),
                    );
                }
            }
            let column = self.cells_at(&runs[x]);
            columns.push(column);
            x += 1;
        }
        columns
    }
}

/// In a grid that holds one cell for each of its positions, converting a
/// position inside the grid to its index and the index back gives the position.
pub proof fn lemma_position_round_trip<T>(grid: &Grid<T>, position: (i32, i32))
    requires
        grid.wf(),
        grid.spec_in_bounds(position),
    ensures
        grid.has_cell(position),
        grid.spec_position_to_index(position).is_some(),
        grid.spec_index_to_position(grid.spec_position_to_index(position).unwrap()) == Some(
            position,
        ),
{
    lemma_position_of_index(grid.spec_width(), grid.spec_height(), point_of(position));
    vstd::std_specs::vec::axiom_spec_len(&grid.data);
}

/// In a grid that holds one cell for each of its positions, converting an
/// index to its position and the position back gives the index.
pub proof fn lemma_index_round_trip<T>(grid: &Grid<T>, index: usize)
    requires
        grid.wf(),
        grid.spec_index_to_position(index).is_some(),
    ensures
        grid.spec_position_to_index(grid.spec_index_to_position(index).unwrap()) == Some(index),
{
    lemma_index_of_position_in_bounds(grid.spec_width(), grid.spec_height(), index as int);
}

impl<T> core::ops::Index<usize> for Grid<T> {
    type Output = T;

    #[inline]
    fn index(&self, index: usize) -> (cell: &T)
        ensures
            *cell == self@[index as int],
    {
        &self.data[index]
    }
}

impl<T> vstd::std_specs::core::IndexSpecImpl<usize> for Grid<T> {
    open spec fn index_req(&self, index: &usize) -> bool {
        *index < self@.len()
    }
}

impl<T> core::ops::IndexMut<usize> for Grid<T> {
    #[inline]
    fn index_mut(&mut self, index: usize) -> (cell: &mut T)
        requires
            index < old(self)@.len(),
        ensures
            *cell == old(self)@[index as int],
            final(self)@ == old(self)@.update(index as int, *final(cell)),
            final(self).spec_width() == old(self).spec_width(),
            final(self).spec_height() == old(self).spec_height(),
    {
        &mut self.data[index]
    }
}

impl<T> core::ops::Index<(i32, i32)> for Grid<T> {
    type Output = T;

    #[inline]
    fn index(&self, index: (i32, i32)) -> (cell: &T)
        ensures
            *cell == self@[self.spec_index(index)],
    {
        match self.get(index) {
            Some(cell) => cell,
            None => vstd::pervasive::unreached(),
        }
    }
}

impl<T> vstd::std_specs::core::IndexSpecImpl<(i32, i32)> for Grid<T> {
    open spec fn index_req(&self, index: &(i32, i32)) -> bool {
        self.has_cell(*index)
    }
}

impl<T> core::ops::IndexMut<(i32, i32)> for Grid<T> {
    #[inline]
    fn index_mut(&mut self, index: (i32, i32)) -> (cell: &mut T)
        requires
            old(self).has_cell(index),
        ensures
            *cell == old(self)@[old(self).spec_index(index)],
            final(self)@ == old(self)@.update(old(self).spec_index(index), *final(cell)),
            final(self).spec_width() == old(self).spec_width(),
            final(self).spec_height() == old(self).spec_height(),
    {
        match self.get_mut(index) {
            Some(cell) => cell,
            None => vstd::pervasive::unreached(),
        }
    }
}

/// A position given by unsigned coordinates, as a position.
pub open spec fn unsigned_position(index: (u32, u32)) -> (i32, i32) {
    (index.0 as i32, index.1 as i32)
}

impl<T> core::ops::Index<(u32, u32)> for Grid<T> {
    type Output = T;

    #[inline]
    fn index(&self, index: (u32, u32)) -> (cell: &T)
        ensures
            *cell == self@[self.spec_index(unsigned_position(index))],
    {
        match self.get((index.0 as i32, index.1 as i32)) {
            Some(cell) => cell,
            None => vstd::pervasive::unreached(),
        }
    }
}

impl<T> vstd::std_specs::core::IndexSpecImpl<(u32, u32)> for Grid<T> {
    open spec fn index_req(&self, index: &(u32, u32)) -> bool {
        index.0 <= i32::MAX && index.1 <= i32::MAX && self.has_cell(unsigned_position(*index))
    }
}

impl<T> core::ops::IndexMut<(u32, u32)> for Grid<T> {
    #[inline]
    fn index_mut(&mut self, index: (u32, u32)) -> (cell: &mut T)
        requires
            index.0 <= i32::MAX,
            index.1 <= i32::MAX,
            old(self).has_cell(unsigned_position(index)),
        ensures
            *cell == old(self)@[old(self).spec_index(unsigned_position(index))],
            final(self)@ == old(self)@.update(
                old(self).spec_index(unsigned_position(index)),
                *final(cell),
            ),
            final(self).spec_width() == old(self).spec_width(),
            final(self).spec_height() == old(self).spec_height(),
    {
        match self.get_mut((index.0 as i32, index.1 as i32)) {
            Some(cell) => cell,
            None => vstd::pervasive::unreached(),
        }
    }
}

/// The number of cells of a grid of the given size.
fn cell_count(size: (u32, u32)) -> (count: usize)
    requires
        size.0 * size.1 <= usize::MAX,
    ensures
        count == size.0 * size.1,
{
    proof {
        assert(size.0 * size.1 <= 0xffff_ffff * 0xffff_ffff) by (nonlinear_arith)
            requires
                size.0 <= 0xffff_ffff,
                size.1 <= 0xffff_ffff,
        ;
    }
    (size.0 as u64 * size.1 as u64) as usize
}

} // verus!
