use vstd::prelude::*;

verus! {

/// One of the four unit steps the snake can take. Screen coordinates: `Up`
/// decreases `y`, `Down` increases it.
#[derive(Clone, Copy, Debug, PartialEq, Eq, Structural)]
pub enum Heading {
    Left,
    Right,
    Up,
    Down,
}

/// The top-left corner of a grid cell; two cells are the same cell exactly
/// when both coordinates are equal.
#[derive(Clone, Copy, Debug, PartialEq, Eq, Structural)]
pub struct Cell {
    pub x: i32,
    pub y: i32,
}

/// An axis-aligned play area divided into square cells of side `cell_size`,
/// with its top-left corner at (`x`, `y`).
#[derive(Clone, Copy, Debug, PartialEq, Eq, Structural)]
pub struct Arena {
    pub x: i32,
    pub y: i32,
    pub width: u32,
    pub height: u32,
    pub cell_size: u32,
}

/// Side of the standard play area, in units.
pub const PLAY_AREA_SIZE: u32 = 1000;

/// Offset of the standard play area from the window's corner, on both axes.
pub const MARGIN: i32 = 12;

/// Side of one cell, and of one segment of the snake, in units.
pub const SNAKE_SEGMENT_SIZE: u32 = 50;

/// The unit vector of a heading.
pub open spec fn delta(h: Heading) -> (int, int) {
    match h {
        Heading::Left => (-1, 0),
        Heading::Right => (1, 0),
        Heading::Up => (0, -1),
        Heading::Down => (0, 1),
    }
}

/// The heading that points the other way.
pub open spec fn opposite(h: Heading) -> Heading {
    match h {
        Heading::Left => Heading::Right,
        Heading::Right => Heading::Left,
        Heading::Up => Heading::Down,
        Heading::Down => Heading::Up,
    }
}

impl Heading {
    /// The heading that points the other way.
    pub fn opposite(self) -> (r: Heading)
        ensures
            r == opposite(self),
    {
        match self {
            Heading::Left => Heading::Right,
            Heading::Right => Heading::Left,
            Heading::Up => Heading::Down,
            Heading::Down => Heading::Up,
        }
    }

    /// The horizontal component of the unit vector.
    pub fn dx(self) -> (r: i32)
        ensures
            r as int == delta(self).0,
    {
        match self {
            Heading::Left => -1,
            Heading::Right => 1,
            _ => 0,
        }
    }

    /// The vertical component of the unit vector.
    pub fn dy(self) -> (r: i32)
        ensures
            r as int == delta(self).1,
    {
        match self {
            Heading::Up => -1,
            Heading::Down => 1,
            _ => 0,
        }
    }
}

impl Arena {
    /// The arena's far edges stay within `i32`, and a cell has a positive size.
    pub open spec fn wf(self) -> bool {
        &&& self.cell_size > 0
        &&& self.x + self.width <= i32::MAX
        &&& self.y + self.height <= i32::MAX
    }

    /// Whether a point lies in the arena: at or past its near edges, strictly
    /// before its far edges.
    pub open spec fn contains_point(self, px: int, py: int) -> bool {
        &&& self.x <= px < self.x + self.width
        &&& self.y <= py < self.y + self.height
    }

    /// Number of whole cells across.
    pub open spec fn columns(self) -> nat {
        (self.width / self.cell_size) as nat
    }

    /// Number of whole cells down.
    pub open spec fn rows(self) -> nat {
        (self.height / self.cell_size) as nat
    }

    /// The cell in column `i` and row `j` of the grid.
    pub open spec fn grid_cell(self, i: int, j: int) -> (int, int) {
        (self.x + i * self.cell_size, self.y + j * self.cell_size)
    }

    /// Whether `c` is one of the arena's whole grid cells.
    pub open spec fn is_grid_cell(self, c: Cell) -> bool {
        exists|i: int, j: int|
            0 <= i < self.columns() && 0 <= j < self.rows() && #[trigger] self.grid_cell(i, j) == (
            c.x as int,
            c.y as int,
        )
    }

    /// The standard arena: a square of `PLAY_AREA_SIZE` units set `MARGIN`
    /// units in from the corner, with cells of `SNAKE_SEGMENT_SIZE` units.
    pub fn standard() -> (r: Arena)
        ensures
            r.wf(),
            r == (Arena {
                x: MARGIN,
                y: MARGIN,
                width: PLAY_AREA_SIZE,
                height: PLAY_AREA_SIZE,
                cell_size: SNAKE_SEGMENT_SIZE,
            }),
    {
        Arena {
            x: MARGIN,
            y: MARGIN,
            width: PLAY_AREA_SIZE,
            height: PLAY_AREA_SIZE,
            cell_size: SNAKE_SEGMENT_SIZE,
        }
    }

    /// Whether `c` lies in the arena.
    pub fn contains(&self, c: Cell) -> (r: bool)
        ensures
            r == self.contains_point(c.x as int, c.y as int),
    {
        let x = c.x as i64;
        let y = c.y as i64;
        self.x as i64 <= x && x < self.x as i64 + self.width as i64 && self.y as i64 <= y && y
            < self.y as i64 + self.height as i64
    }
}

} // verus!
