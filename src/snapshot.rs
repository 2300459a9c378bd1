use vstd::prelude::*;

use crate::cell::Cell;
use crate::screen::{ANSIParser, ScreenModel, COLS, ROWS};

verus! {

/// An immutable copy of the screen: its rows of cells and the cursor.
#[derive(Debug, PartialEq, Eq)]
pub struct Snapshot {
    pub grid: Vec<Vec<Cell>>,
    pub cursor: (usize, usize),
}

/// How the renderer draws the cursor.
#[derive(Clone, Copy, Debug, PartialEq, Eq, Structural)]
pub enum CursorStyle {
    /// A filled block with the character drawn over it.
    Block,
    /// An outline, used while the editor shows insert mode.
    Outline,
}

/// Row of the editor's status line, where the mode is shown.
pub const STATUS_ROW: usize = 23;

impl Snapshot {
    /// The snapshot has the screen's shape.
    pub open spec fn wf(&self) -> bool {
        &&& self.grid@.len() == ROWS
        &&& forall|r: int| 0 <= r < ROWS ==> (#[trigger] self.grid@[r])@.len() == COLS
    }

    /// The snapshot holds exactly the cells and cursor of `s`.
    pub open spec fn shows(&self, s: ScreenModel) -> bool {
        &&& self.wf()
        &&& forall|r: int, c: int|
            0 <= r < ROWS && 0 <= c < COLS ==> #[trigger] self.grid@[r]@[c] == s.cell(r, c)
        &&& self.cursor.0 == s.row
        &&& self.cursor.1 == s.col
    }

    /// Whether the status line shows `INS` in columns 2 to 4.
    pub open spec fn insert_mode(&self) -> bool {
        let line = self.grid@[STATUS_ROW as int]@;
        line[2].content == 'I' && line[3].content == 'N' && line[4].content == 'S'
    }

    /// The cursor's style, or `None` where the cursor is off the screen and
    /// is not drawn: an outline in insert mode, a block otherwise.
    pub fn cursor_style(&self) -> (r: Option<CursorStyle>)
        requires
            self.wf(),
        ensures
            r == (if self.cursor.0 < ROWS && self.cursor.1 < COLS {
                Some(if self.insert_mode() { CursorStyle::Outline } else { CursorStyle::Block })
            } else {
                None
            }),
    {
        if self.cursor.0 < ROWS && self.cursor.1 < COLS {
            let line = &self.grid[STATUS_ROW];
            if line[2].content == 'I' && line[3].content == 'N' && line[4].content == 'S' {
                Some(CursorStyle::Outline)
            } else {
                Some(CursorStyle::Block)
            }
        } else {
            None
        }
    }
}

impl ANSIParser {
    /// A copy of the current cells and cursor.
    pub fn snapshot(&self) -> (r: Snapshot)
        requires
            self@.wf(),
        ensures
            r.shows(self@),
    {
        let mut grid: Vec<Vec<Cell>> = Vec::new();
        let mut row: usize = 0;
        while row < ROWS
            invariant
                self@.wf(),
                row <= ROWS,
                grid@.len() == row,
                forall|r: int| 0 <= r < row ==> (#[trigger] grid@[r])@.len() == COLS,
                forall|r: int, c: int|
                    0 <= r < row && 0 <= c < COLS ==> #[trigger] grid@[r]@[c] == self@.cell(r, c),
            decreases ROWS - row,
        {
            let mut line: Vec<Cell> = Vec::new();
            let mut col: usize = 0;
            while col < COLS
                invariant
                    self@.wf(),
                    row < ROWS,
                    col <= COLS,
                    line@.len() == col,
                    forall|c: int| 0 <= c < col ==> line@[c] == self@.cell(row as int, c),
                decreases COLS - col,
            {
                line.push(self.cell(row, col));
                col = col + 1;
            }
            grid.push(line);
            row = row + 1;
        }
        Snapshot { grid, cursor: (self.row(), self.col()) }
    }
}

} // verus!
