use vstd::prelude::*;

use crate::direction::Direction;

verus! {

/// Raw cell value that the built-in instruction table resolves to `Start`.
pub const START_VALUE: u16 = 300;

/// Raw cell value that the built-in instruction table resolves to `Road`.
pub const ROAD_VALUE: u16 = 180;

/// The instruction tags the movement core inspects: the program entry
/// marker, the pass-through cell preferred during movement, and a catch-all
/// carrying the raw numeral of every other cell, which the movement policy
/// treats uniformly.
#[derive(Clone, Copy, Debug, PartialEq, Eq, Structural)]
pub enum Instruction {
    Start,
    Road,
    Other(u16),
}

/// One grid cell: an opaque unsigned numeral, meaningful only through its
/// resolution to an `Instruction` tag.
#[derive(Clone, Copy, Debug, PartialEq, Eq, Structural)]
pub struct Pixel {
    pub value: u16,
}

impl Pixel {
    /// The instruction tag this cell resolves to. The table maps the two
    /// movement-relevant numerals to `Start` and `Road`; every other
    /// numeral resolves to the neutral `Other` tag rather than failing.
    pub open spec fn spec_as_instruction(&self) -> Instruction {
        if self.value == START_VALUE {
            Instruction::Start
        } else if self.value == ROAD_VALUE {
            Instruction::Road
        } else {
            Instruction::Other(self.value)
        }
    }

    pub fn new(value: u16) -> (p: Pixel)
        ensures
            p.value == value,
    {
        Pixel { value }
    }

    #[verifier::when_used_as_spec(spec_as_instruction)]
    pub fn as_instruction(&self) -> (r: Instruction)
        ensures
            r == self.spec_as_instruction(),
    {
        if self.value == START_VALUE {
            Instruction::Start
        } else if self.value == ROAD_VALUE {
            Instruction::Road
        } else {
            Instruction::Other(self.value)
        }
    }
}

/// Whether a cell resolves to the `Road` tag.
pub open spec fn is_road(p: Pixel) -> bool {
    p.spec_as_instruction() == Instruction::Road
}

/// A grid coordinate: column first, then row, both zero-based.
#[derive(Clone, Copy, Debug, PartialEq, Eq, Structural)]
pub struct MatrixPoint(pub usize, pub usize);

/// Column offset of one step in a heading: East is +1, West is -1.
pub open spec fn col_delta(d: Direction) -> int {
    match d {
        Direction::East => 1,
        Direction::West => -1,
        _ => 0,
    }
}

/// Row offset of one step in a heading: South is +1 (rows grow downward),
/// North is -1.
pub open spec fn row_delta(d: Direction) -> int {
    match d {
        Direction::South => 1,
        Direction::North => -1,
        _ => 0,
    }
}

/// The program grid: an ordered sequence of rows of cells. Rows may have
/// differing lengths; neighbor lookup simply fails out of bounds per row.
pub struct Matrix {
    pub matrix: Vec<Vec<Pixel>>,
}

impl Matrix {
    /// The grid as a sequence of rows of cells.
    pub open spec fn rows(&self) -> Seq<Seq<Pixel>> {
        self.matrix@.map_values(|row: Vec<Pixel>| row@)
    }

    /// The cell at column `c` of row `r`, if that coordinate lies within
    /// the grid's per-row bounds.
    pub open spec fn spec_at(&self, c: int, r: int) -> Option<Pixel> {
        if 0 <= r < self.rows().len() && 0 <= c < self.rows()[r].len() {
            Some(self.rows()[r][c])
        } else {
            None
        }
    }

    /// The cell one step from `p` in heading `d`, if it exists.
    pub open spec fn spec_neighbor(&self, p: MatrixPoint, d: Direction) -> Option<Pixel> {
        self.spec_at(p.0 + col_delta(d), p.1 + row_delta(d))
    }

    pub fn new(matrix: Vec<Vec<Pixel>>) -> (m: Matrix)
        ensures
            m.matrix == matrix,
    {
        Matrix { matrix }
    }

    /// Number of rows in the grid.
    pub fn num_rows(&self) -> (n: usize)
        ensures
            n == self.rows().len(),
    {
        self.matrix.len()
    }

    /// Number of cells in row `r`.
    pub fn row_len(&self, r: usize) -> (n: usize)
        requires
            r < self.rows().len(),
        ensures
            n == self.rows()[r as int].len(),
    {
        self.matrix[r].len()
    }

    /// Bounds-checked cell lookup at column `c` of row `r`.
    pub fn at(&self, c: usize, r: usize) -> (res: Option<Pixel>)
        ensures
            res == self.spec_at(c as int, r as int),
    {
        if r < self.matrix.len() {
            let row: &Vec<Pixel> = &self.matrix[r];
            if c < row.len() {
                Some(row[c])
            } else {
                None
            }
        } else {
            None
        }
    }

    /// Bounds-checked directional neighbor lookup: the cell one step from
    /// `point` in `direction`, or `None` when that coordinate falls outside
    /// the grid. Absence is a normal outcome, not an error.
    pub fn go(&self, point: MatrixPoint, direction: Direction) -> (res: Option<Pixel>)
        ensures
            res == self.spec_neighbor(point, direction),
    {
        match direction {
            Direction::North => {
                if point.1 == 0 {
                    None
                } else {
                    self.at(point.0, point.1 - 1)
                }
            },
            Direction::West => {
                if point.0 == 0 {
                    None
                } else {
                    self.at(point.0 - 1, point.1)
                }
            },
            Direction::South => {
                if point.1 >= self.matrix.len() {
                    None
                } else {
                    self.at(point.0, point.1 + 1)
                }
            },
            Direction::East => {
                if point.1 >= self.matrix.len() {
                    None
                } else if point.0 >= self.matrix[point.1].len() {
                    None
                } else {
                    self.at(point.0 + 1, point.1)
                }
            },
        }
    }
}

} // verus!
