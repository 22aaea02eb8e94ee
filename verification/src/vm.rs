use vstd::prelude::*;

use crate::direction::Direction;
use crate::grid::Instruction;
use crate::grid::Matrix;
use crate::grid::MatrixPoint;
use crate::grid::Pixel;
use crate::grid::is_road;
use crate::selector::candidates;
use crate::selector::first_road_idx;
use crate::selector::lemma_first_road_idx_min;
use crate::selector::lemma_first_road_idx_props;
use crate::selector::spec_select;

verus! {

/// Fixed number of sixteen-bit cells in a VM's tape; the tape is never
/// resized over the lifetime of a VM instance.
pub const TAPE_SIZE: usize = 360;

/// Whether the cell at column `c` of row `r` exists and resolves to the
/// `Start` tag.
pub open spec fn is_start_at(g: Matrix, c: int, r: int) -> bool {
    g.spec_at(c, r) matches Some(px) && px.spec_as_instruction() == Instruction::Start
}

/// Whether coordinate (`c1`, `r1`) comes before (`c2`, `r2`) in row-major
/// scan order: top-to-bottom, then left-to-right within a row.
pub open spec fn row_major_before(c1: int, r1: int, c2: int, r2: int) -> bool {
    r1 < r2 || (r1 == r2 && c1 < c2)
}

/// The start locator's contract: `p` is the first `Start`-tagged cell of
/// `g` in row-major scan order, or the origin when no cell of `g` resolves
/// to `Start`.
pub open spec fn located_start(g: Matrix, p: MatrixPoint) -> bool {
    if exists|r: int, c: int| is_start_at(g, c, r) {
        &&& is_start_at(g, p.0 as int, p.1 as int)
        &&& forall|r: int, c: int|
            is_start_at(g, c, r) ==> !row_major_before(c, r, p.0 as int, p.1 as int)
    } else {
        p == MatrixPoint(0, 0)
    }
}

/// One interpreter instance: the operand stack, the accumulator register,
/// the fixed-length tape, the cursor's heading and position, and the
/// program grid installed by `execute`.
pub struct VM {
    pub stack: Vec<u16>,
    pub register_a: u16,
    pub tape: Vec<u16>,
    pub direction: Direction,
    pub instructions: Matrix,
    pub pc: MatrixPoint,
}

impl VM {
    /// A freshly created VM: empty stack, zero register, all-zero tape of
    /// the fixed length, heading East, empty grid, cursor at the origin.
    pub open spec fn is_initial(&self) -> bool {
        &&& self.stack@ == Seq::<u16>::empty()
        &&& self.register_a == 0
        &&& self.tape@ == Seq::new(TAPE_SIZE as nat, |i: int| 0u16)
        &&& self.direction == Direction::East
        &&& self.instructions.rows() == Seq::<Seq<Pixel>>::empty()
        &&& self.pc == MatrixPoint(0, 0)
    }

    pub fn new() -> (vm: VM)
        ensures
            vm.is_initial(),
    {
        VM::default()
    }

    /// Installs a fresh program grid and moves the cursor to its start
    /// cell; the heading and the interpreter registers are untouched.
    pub fn execute(&mut self, instructions: Matrix)
        ensures
            final(self).instructions == instructions,
            located_start(instructions, final(self).pc),
            final(self).direction == old(self).direction,
            final(self).stack == old(self).stack,
            final(self).register_a == old(self).register_a,
            final(self).tape == old(self).tape,
    {
        self.instructions = instructions;
        self.pc = self.find_start();
    }

    /// The cell the cursor moves onto next: roads are prioritized over all
    /// other reachable neighbors, except a road directly behind the cursor,
    /// which yields to the forward cell when forward is the top candidate;
    /// with no applicable road the cursor bounces to its lowest-priority
    /// reachable neighbor. The candidate list must be non-empty: an empty
    /// list (a degenerate grid) is the interpreter's one fatal condition,
    /// and callers rule it out up front.
    pub fn get_next_instruction(&self) -> (r: Pixel)
        requires
            candidates(self.instructions, self.pc, self.direction).len() > 0,
        ensures
            r == spec_select(candidates(self.instructions, self.pc, self.direction), self.direction),
    {
        let ghost cands = candidates(self.instructions, self.pc, self.direction);
        let next_pixels = self.get_next_pixels();
        let (first_dir, first_pixel) = next_pixels[0];
        let mut i: usize = 0;
        let mut first_road: Option<(Direction, Pixel)> = None;
        while i < next_pixels.len()
            invariant
                next_pixels@ == cands,
                0 <= i <= cands.len(),
                first_road is None ==> forall|j: int| 0 <= j < i ==> !is_road(cands[j].1),
                first_road matches Some(e) ==> {
                    &&& first_road_idx(cands) < cands.len()
                    &&& e == cands[first_road_idx(cands)]
                },
            decreases cands.len() - i,
        {
            if first_road.is_none() {
                let (dir, pixel) = next_pixels[i];
                if matches!(pixel.as_instruction(), Instruction::Road) {
                    proof {
                        lemma_first_road_idx_props(cands);
                        lemma_first_road_idx_min(cands, i as int);
                    }
                    first_road = Some((dir, pixel));
                }
            }
            i += 1;
        }
        proof {
            if first_road is None {
                lemma_first_road_idx_props(cands);
                assert(first_road_idx(cands) == cands.len());
            }
        }
        if let Some((dir, road)) = first_road {
            if dir != self.direction.opposite() {
                return road;
            } else if first_dir == self.direction {
                return first_pixel;
            }
        }
        // no applicable road: bounce to the lowest-priority candidate
        next_pixels[next_pixels.len() - 1].1
    }

    /// The ordered candidate list for the next move: the neighbors ahead of
    /// the cursor, to its right, to its left, and behind it, in that
    /// priority order, keeping only the headings whose neighbor exists.
    pub fn get_next_pixels(&self) -> (next: Vec<(Direction, Pixel)>)
        ensures
            next@ == candidates(self.instructions, self.pc, self.direction),
    {
        let ins = &self.instructions;
        let dir = self.direction;
        let mut next_pixels: Vec<(Direction, Pixel)> = Vec::new();
        if let Some(point) = ins.go(self.pc, dir) {
            // forward
            next_pixels.push((dir, point));
        }
        let right = dir.counter_clockwise().opposite();
        if let Some(point) = ins.go(self.pc, right) {
            next_pixels.push((right, point));
        }
        let left = dir.counter_clockwise();
        if let Some(point) = ins.go(self.pc, left) {
            next_pixels.push((left, point));
        }
        let back = dir.opposite();
        if let Some(point) = ins.go(self.pc, back) {
            next_pixels.push((back, point));
        }
        proof {
            assert(next_pixels@ =~= candidates(self.instructions, self.pc, self.direction));
        }
        next_pixels
    }

    /// The highest-priority reachable neighbor, heading and cell.
    pub fn get_next_pixel(&self) -> (r: (Direction, Pixel))
        requires
            candidates(self.instructions, self.pc, self.direction).len() > 0,
        ensures
            r == candidates(self.instructions, self.pc, self.direction)[0],
    {
        let next_pixels = self.get_next_pixels();
        next_pixels[0]
    }

    /// Scans rows top-to-bottom and columns left-to-right for the first
    /// cell tagged `Start`; a grid without one yields the origin, which is
    /// a defined default and not an error.
    pub fn find_start(&self) -> (start: MatrixPoint)
        ensures
            located_start(self.instructions, start),
    {
        let mut row_idx: usize = 0;
        while row_idx < self.instructions.matrix.len()
            invariant
                forall|r: int, c: int| 0 <= r < row_idx ==> !is_start_at(self.instructions, c, r),
            decreases self.instructions.matrix.len() - row_idx,
        {
            let row: &Vec<Pixel> = &self.instructions.matrix[row_idx];
            let mut col_idx: usize = 0;
            while col_idx < row.len()
                invariant
                    row_idx < self.instructions.rows().len(),
                    row@ == self.instructions.rows()[row_idx as int],
                    forall|r: int, c: int|
                        0 <= r < row_idx ==> !is_start_at(self.instructions, c, r),
                    forall|c: int| 0 <= c < col_idx ==> !is_start_at(self.instructions, c, row_idx as int),
                decreases row.len() - col_idx,
            {
                if matches!(row[col_idx].as_instruction(), Instruction::Start) {
                    return MatrixPoint(col_idx, row_idx);
                }
                col_idx += 1;
            }
            row_idx += 1;
        }

        // default start coordinates
        MatrixPoint(0, 0)
    }
}

impl Default for VM {
    fn default() -> (vm: VM)
        ensures
            vm.is_initial(),
    {
        let mut tape: Vec<u16> = Vec::new();
        while tape.len() < TAPE_SIZE
            invariant
                tape@.len() <= TAPE_SIZE,
                forall|i: int| 0 <= i < tape@.len() ==> tape@[i] == 0u16,
            decreases TAPE_SIZE - tape@.len(),
        {
            tape.push(0);
        }
        let vm = VM {
            stack: Vec::new(),
            register_a: 0,
            tape,
            direction: Direction::East,
            instructions: Matrix::new(Vec::new()),
            pc: MatrixPoint(0, 0),
        };
        proof {
            assert(vm.stack@ =~= Seq::<u16>::empty());
            assert(vm.tape@ =~= Seq::new(TAPE_SIZE as nat, |i: int| 0u16));
            assert(vm.instructions.rows() =~= Seq::<Seq<Pixel>>::empty());
        }
        vm
    }
}

} // verus!
