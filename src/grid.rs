//! The puzzle grid: play-cell states and the row and column clue lists.

use vstd::prelude::*;
use crate::cell::{CellState, char_state, from_char};
use crate::layout::{GridDimensions, MAX_SIDE};

verus! {

/// Why a grid could not be built or loaded.
#[derive(Clone, Copy, Debug, PartialEq, Eq, Structural)]
pub enum GridError {
    /// No rows or no columns.
    EmptyDimension,
    /// More rows, columns or clue entries than the board supports.
    TooLarge,
    /// A cells text whose length is not width times height.
    WrongCellCount,
    /// A cells text holding a character other than `0`, `1`, `X`.
    BadCellChar,
}

/// Length of the longest list in `s`.
pub open spec fn longest(s: Seq<Vec<u32>>) -> nat
    decreases s.len(),
{
    if s.len() == 0 {
        0
    } else {
        let rest = longest(s.drop_last());
        let last = s.last()@.len();
        if rest < last {
            last
        } else {
            rest
        }
    }
}

/// No list in `s` is longer than `longest(s)`.
pub proof fn lemma_longest_bounds(s: Seq<Vec<u32>>, i: int)
    requires
        0 <= i < s.len(),
    ensures
        s[i]@.len() <= longest(s),
    decreases s.len(),
{
    if i < s.len() - 1 {
        lemma_longest_bounds(s.drop_last(), i);
    }
}

/// Length of the longest list in `v`.
pub fn longest_len(v: &Vec<Vec<u32>>) -> (r: usize)
    ensures
        r == longest(v@),
{
    let mut m: usize = 0;
    let mut i: usize = 0;
    while i < v.len()
        invariant
            i <= v.len(),
            m == longest(v@.subrange(0, i as int)),
        decreases v.len() - i,
    {
        assert(v@.subrange(0, i + 1).drop_last() =~= v@.subrange(0, i as int));
        if m < v[i].len() {
            m = v[i].len();
        }
        i += 1;
    }
    assert(v@.subrange(0, v.len() as int) =~= v@);
    m
}

/// A nonogram board: `height` rows of `width` cells in row-major order,
/// with one clue list per row and per column.
pub struct PuzzleGrid {
    pub width: usize,
    pub height: usize,
    pub row_clues: Vec<Vec<u32>>,
    pub column_clues: Vec<Vec<u32>>,
    pub longest_row_clue_len: usize,
    pub longest_column_clue_len: usize,
    pub cells: Vec<CellState>,
}

/// Cell states spelled by `text`, if its length is `n` and every character
/// is one of `0`, `1`, `X`.
pub open spec fn decode_cells_spec(text: Seq<char>, n: int) -> Option<Seq<CellState>> {
    if text.len() == n && forall|i: int| 0 <= i < n ==> (#[trigger] char_state(text[i])) is Some {
        Some(Seq::new(text.len(), |i: int| char_state(text[i])->Some_0))
    } else {
        None
    }
}

/// Decode a cells text of exactly `n` characters over `0`, `1`, `X`.
pub fn decode_cells(text: &Vec<char>, n: usize) -> (r: Result<Vec<CellState>, GridError>)
    ensures
        r is Ok <==> decode_cells_spec(text@, n as int) is Some,
        r matches Ok(v) ==> Some(v@) == decode_cells_spec(text@, n as int),
        r == Err::<Vec<CellState>, GridError>(GridError::WrongCellCount) <==> text@.len() != n,
        r == Err::<Vec<CellState>, GridError>(GridError::BadCellChar) <==> (text@.len() == n
            && decode_cells_spec(text@, n as int) is None),
{
    if text.len() != n {
        return Err(GridError::WrongCellCount);
    }
    let mut out: Vec<CellState> = Vec::new();
    let mut i: usize = 0;
    while i < text.len()
        invariant
            i <= text.len(),
            text@.len() == n,
            out@.len() == i,
            forall|j: int| 0 <= j < i ==> char_state(text@[j]) == Some(#[trigger] out@[j]),
        decreases text.len() - i,
    {
        match from_char(text[i]) {
            Some(c) => out.push(c),
            None => {
                assert(!(char_state(text@[i as int]) is Some));
                return Err(GridError::BadCellChar);
            },
        }
        i += 1;
    }
    assert(out@ =~= Seq::new(text@.len(), |i: int| char_state(text@[i])->Some_0));
    assert forall|j: int| 0 <= j < n implies (#[trigger] char_state(text@[j])) is Some by {
        assert(char_state(text@[j]) == Some(out@[j]));
    }
    Ok(out)
}

impl PuzzleGrid {
    pub open spec fn wf(&self) -> bool {
        &&& 0 < self.width <= MAX_SIDE
        &&& 0 < self.height <= MAX_SIDE
        &&& self.row_clues@.len() == self.height
        &&& self.column_clues@.len() == self.width
        &&& self.longest_row_clue_len == longest(self.row_clues@)
        &&& self.longest_column_clue_len == longest(self.column_clues@)
        &&& self.longest_row_clue_len <= MAX_SIDE
        &&& self.longest_column_clue_len <= MAX_SIDE
        &&& self.cells@.len() == self.width * self.height
    }

    pub open spec fn dims(&self) -> GridDimensions {
        GridDimensions {
            width: self.width,
            height: self.height,
            longest_row_clue_len: self.longest_row_clue_len,
            longest_column_clue_len: self.longest_column_clue_len,
        }
    }

    /// Row-major position of play cell `(x, y)`.
    pub open spec fn pos(&self, x: int, y: int) -> int {
        y * self.width + x
    }

    pub open spec fn cell(&self, x: int, y: int) -> CellState {
        self.cells@[self.pos(x, y)]
    }

    /// A grid with the given clue lists and every cell empty.
    pub fn new(row_clues: Vec<Vec<u32>>, column_clues: Vec<Vec<u32>>) -> (r: Result<
        PuzzleGrid,
        GridError,
    >)
        ensures
            (row_clues@.len() == 0 || column_clues@.len() == 0) <==> r == Err::<
                PuzzleGrid,
                GridError,
            >(GridError::EmptyDimension),
            r == Err::<PuzzleGrid, GridError>(GridError::TooLarge) <==> (row_clues@.len() > 0
                && column_clues@.len() > 0 && (row_clues@.len() > MAX_SIDE || column_clues@.len()
                > MAX_SIDE || longest(row_clues@) > MAX_SIDE || longest(column_clues@)
                > MAX_SIDE)),
            r is Ok <==> (row_clues@.len() > 0 && column_clues@.len() > 0 && row_clues@.len()
                <= MAX_SIDE && column_clues@.len() <= MAX_SIDE && longest(row_clues@) <= MAX_SIDE
                && longest(column_clues@) <= MAX_SIDE),
            r matches Ok(g) ==> {
                &&& g.wf()
                &&& g.row_clues@ == row_clues@
                &&& g.column_clues@ == column_clues@
                &&& forall|i: int| 0 <= i < g.cells@.len() ==> g.cells@[i] == CellState::Empty
            },
    {
        if row_clues.len() == 0 || column_clues.len() == 0 {
            return Err(GridError::EmptyDimension);
        }
        let lr = longest_len(&row_clues);
        let lc = longest_len(&column_clues);
        if row_clues.len() > MAX_SIDE || column_clues.len() > MAX_SIDE || lr > MAX_SIDE || lc
            > MAX_SIDE {
            return Err(GridError::TooLarge);
        }
        let width = column_clues.len();
        let height = row_clues.len();
        assert(0 <= width * height <= MAX_SIDE * MAX_SIDE) by (nonlinear_arith)
            requires 0 < width <= MAX_SIDE, 0 < height <= MAX_SIDE;
        let n: usize = width * height;
        let mut cells: Vec<CellState> = Vec::new();
        let mut i: usize = 0;
        while i < n
            invariant
                i <= n,
                cells@.len() == i,
                forall|j: int| 0 <= j < i ==> cells@[j] == CellState::Empty,
            decreases n - i,
        {
            cells.push(CellState::Empty);
            i += 1;
        }
        Ok(
            PuzzleGrid {
                width,
                height,
                row_clues,
                column_clues,
                longest_row_clue_len: lr,
                longest_column_clue_len: lc,
                cells,
            },
        )
    }

    pub fn dimensions(&self) -> (r: GridDimensions)
        requires
            self.wf(),
        ensures
            r == self.dims(),
            r.wf(),
    {
        GridDimensions {
            width: self.width,
            height: self.height,
            longest_row_clue_len: self.longest_row_clue_len,
            longest_column_clue_len: self.longest_column_clue_len,
        }
    }

    pub fn get_pos(&self, x: usize, y: usize) -> (r: usize)
        requires
            self.wf(),
            x < self.width,
            y < self.height,
        ensures
            r == self.pos(x as int, y as int),
            r < self.cells@.len(),
    {
        let n = self.cells.len();
        proof {
            self.lemma_pos_in_range(x as int, y as int);
        }
        y * self.width + x
    }

    pub proof fn lemma_pos_in_range(&self, x: int, y: int)
        requires
            self.wf(),
            0 <= x < self.width,
            0 <= y < self.height,
        ensures
            0 <= self.pos(x, y) < self.cells@.len(),
    {
        let w = self.width as int;
        let h = self.height as int;
        assert(0 <= y * w + x < w * h) by (nonlinear_arith)
            requires 0 <= x < w, 0 <= y < h;
    }

    pub fn get_cell(&self, x: usize, y: usize) -> (r: CellState)
        requires
            self.wf(),
            x < self.width,
            y < self.height,
        ensures
            r == self.cell(x as int, y as int),
    {
        let p = self.get_pos(x, y);
        self.cells[p]
    }

    pub fn set_cell(&mut self, x: usize, y: usize, c: CellState)
        requires
            old(self).wf(),
            x < old(self).width,
            y < old(self).height,
        ensures
            final(self).wf(),
            final(self).dims() == old(self).dims(),
            final(self).row_clues@ == old(self).row_clues@,
            final(self).column_clues@ == old(self).column_clues@,
            final(self).cells@ == old(self).cells@.update(old(self).pos(x as int, y as int), c),
    {
        let p = self.get_pos(x, y);
        self.cells.set(p, c);
    }

    /// Replace every cell from a cells text; on error nothing changes.
    pub fn load_cells(&mut self, text: &Vec<char>) -> (r: Result<(), GridError>)
        requires
            old(self).wf(),
        ensures
            final(self).wf(),
            final(self).dims() == old(self).dims(),
            final(self).row_clues@ == old(self).row_clues@,
            final(self).column_clues@ == old(self).column_clues@,
            r is Ok <==> decode_cells_spec(text@, old(self).width * old(self).height) is Some,
            r is Ok ==> Some(final(self).cells@) == decode_cells_spec(
                text@,
                old(self).width * old(self).height,
            ),
            r is Err ==> final(self).cells@ == old(self).cells@,
    {
        let n = self.cells.len();
        match decode_cells(text, n) {
            Ok(v) => {
                self.cells = v;
                Ok(())
            },
            Err(e) => Err(e),
        }
    }
}

} // verus!
