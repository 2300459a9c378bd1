use vstd::prelude::*;

use crate::action::{params_view, Action};
use crate::cell::{blank_cell, Cell, Rgb};

verus! {

/// Rows of the screen: the editor's 24 lines plus a status line.
pub const ROWS: usize = 25;

/// Columns of the screen.
pub const COLS: usize = 81;

/// A print was asked for while the cursor stood outside the screen, or the
/// cursor was sent outside it. Nothing changed; the position is the cursor's
/// for a print and the requested one for a cursor request.
#[derive(Clone, Copy, Debug, PartialEq, Eq, Structural)]
pub struct OutOfRange {
    pub row: usize,
    pub col: usize,
}

/// The screen as a mathematical value: cursor, cells in row-major order, and
/// the colors that the next printed character takes.
pub struct ScreenModel {
    pub row: nat,
    pub col: nat,
    pub cells: Seq<Cell>,
    pub fg: Option<Rgb>,
    pub bg: Option<Rgb>,
}

/// Position of the cell at (`row`, `col`) in the row-major sequence.
pub open spec fn cell_index(row: int, col: int) -> int {
    row * COLS + col
}

/// The screen of a new session: blank cells, cursor at the origin, no colors.
pub open spec fn initial_screen() -> ScreenModel {
    ScreenModel {
        row: 0,
        col: 0,
        cells: Seq::new((ROWS * COLS) as nat, |i: int| blank_cell()),
        fg: None,
        bg: None,
    }
}

/// Colors after a select-graphic-rendition sequence with the flattened
/// parameter `values`: only the leading one or two values are looked at.
pub open spec fn select_graphic(
    fg: Option<Rgb>,
    bg: Option<Rgb>,
    values: Seq<u16>,
) -> (Option<Rgb>, Option<Rgb>) {
    if values.len() >= 2 && values[0] == 38 && values[1] == 2 {
        if values.len() >= 5 {
            (Some((values[2], values[3], values[4])), bg)
        } else {
            (fg, bg)
        }
    } else if values.len() >= 2 && values[0] == 48 && values[1] == 2 {
        if values.len() >= 5 {
            (fg, Some((values[2], values[3], values[4])))
        } else {
            (fg, bg)
        }
    } else if values == seq![39u16] {
        (None, bg)
    } else if values == seq![49u16] {
        (fg, None)
    } else if values == seq![0u16] {
        (None, None)
    } else {
        (fg, bg)
    }
}

/// Whether the sequence is a cursor request with a row and a column.
pub open spec fn is_cursor_request(params: Seq<Seq<u16>>, action: char) -> bool {
    action == 'H' && params.len() >= 2 && params[0].len() > 0 && params[1].len() > 0
}

/// Whether the sequence is a cursor request for a position off the screen.
pub open spec fn csi_out_of_range(params: Seq<Seq<u16>>, action: char) -> bool {
    is_cursor_request(params, action) && !(params[0][0] < ROWS && params[1][0] < COLS)
}

impl ScreenModel {
    pub open spec fn wf(self) -> bool {
        self.cells.len() == ROWS * COLS
    }

    pub open spec fn cursor_in_grid(self) -> bool {
        self.row < ROWS && self.col < COLS
    }

    pub open spec fn cell(self, row: int, col: int) -> Cell {
        self.cells[cell_index(row, col)]
    }

    /// Drawing `c` at the cursor in the current colors and moving one column
    /// right; with the cursor off the screen nothing changes.
    pub open spec fn print(self, c: char) -> ScreenModel {
        if self.cursor_in_grid() {
            ScreenModel {
                cells: self.cells.update(
                    cell_index(self.row as int, self.col as int),
                    Cell { content: c, bg: self.bg, fg: self.fg },
                ),
                col: self.col + 1,
                ..self
            }
        } else {
            self
        }
    }

    /// A control sequence: `m` selects colors; `H` takes the first value of
    /// the first two parameter groups as row and column, unchanged, where
    /// they address a cell of the screen. Any other final character, an `H`
    /// without two parameters, or one that addresses no cell, changes nothing.
    pub open spec fn csi(self, params: Seq<Seq<u16>>, action: char) -> ScreenModel {
        if action == 'm' {
            let colors = select_graphic(self.fg, self.bg, params.flatten());
            ScreenModel { fg: colors.0, bg: colors.1, ..self }
        } else if is_cursor_request(params, action) && !csi_out_of_range(params, action) {
            ScreenModel { row: params[0][0] as nat, col: params[1][0] as nat, ..self }
        } else {
            self
        }
    }

    /// Whether the screen refuses the action: a print with the cursor off
    /// the screen, or a cursor request for a position off the screen.
    pub open spec fn rejects(self, a: Action) -> bool {
        match a {
            Action::Print(_) => !self.cursor_in_grid(),
            Action::CsiDispatch { params, action, .. } => csi_out_of_range(
                params_view(params@),
                action,
            ),
            _ => false,
        }
    }

    /// The position reported for a refused action: the cursor for a print,
    /// the requested position for a cursor request.
    pub open spec fn fault_position(self, a: Action) -> (int, int) {
        match a {
            Action::CsiDispatch { params, .. } => (
                params_view(params@)[0][0] as int,
                params_view(params@)[1][0] as int,
            ),
            _ => (self.row as int, self.col as int),
        }
    }

    /// The effect of one action; those other than prints and control
    /// sequences leave the screen as it is.
    pub open spec fn step(self, a: Action) -> ScreenModel {
        match a {
            Action::Print(c) => self.print(c),
            Action::CsiDispatch { params, action, .. } => self.csi(params_view(params@), action),
            _ => self,
        }
    }
}

/// The screen after the actions `acts`, applied in order from `s`.
pub open spec fn run(s: ScreenModel, acts: Seq<Action>) -> ScreenModel
    decreases acts.len(),
{
    if acts.len() == 0 {
        s
    } else {
        run(s, acts.drop_last()).step(acts.last())
    }
}

/// How many of the actions `acts`, applied from `s`, the screen refuses.
pub open spec fn count_rejected(s: ScreenModel, acts: Seq<Action>) -> nat
    decreases acts.len(),
{
    if acts.len() == 0 {
        0
    } else {
        count_rejected(s, acts.drop_last()) + if run(s, acts.drop_last()).rejects(acts.last()) {
            1nat
        } else {
            0nat
        }
    }
}

/// The interpreting stage: the screen, its cursor and the active colors.
pub struct ANSIParser {
    row: usize,
    col: usize,
    cells: Vec<Cell>,
    current_fg: Option<Rgb>,
    current_bg: Option<Rgb>,
}

impl View for ANSIParser {
    type V = ScreenModel;

    closed spec fn view(&self) -> ScreenModel {
        ScreenModel {
            row: self.row as nat,
            col: self.col as nat,
            cells: self.cells@,
            fg: self.current_fg,
            bg: self.current_bg,
        }
    }
}

/// The values of all parameter groups, one after another.
fn flatten_params(params: &Vec<Vec<u16>>) -> (r: Vec<u16>)
    ensures
        r@ == params_view(params@).flatten(),
{
    let mut out: Vec<u16> = Vec::new();
    let mut i: usize = 0;
    while i < params.len()
        invariant
            i <= params.len(),
            out@ == params_view(params@).subrange(0, i as int).flatten(),
        decreases params.len() - i,
    {
        let group = &params[i];
        let ghost before = out@;
        let mut j: usize = 0;
        while j < group.len()
            invariant
                j <= group.len(),
                out@ == before + group@.subrange(0, j as int),
            decreases group.len() - j,
        {
            out.push(group[j]);
            j = j + 1;
            proof {
                assert(group@.subrange(0, j as int) =~= group@.subrange(0, j - 1).push(group[j - 1]));
            }
        }
        proof {
            let pv = params_view(params@);
            assert(group@.subrange(0, group.len() as int) =~= group@);
            assert(pv.subrange(0, i + 1) =~= pv.subrange(0, i as int).push(pv[i as int]));
            pv.subrange(0, i as int).lemma_flatten_push(pv[i as int]);
        }
        i = i + 1;
    }
    proof {
        assert(params_view(params@).subrange(0, params.len() as int) =~= params_view(params@));
    }
    out
}

impl ANSIParser {
    /// A blank screen with the cursor at the origin and no colors.
    pub fn new() -> (r: ANSIParser)
        ensures
            r@ == initial_screen(),
    {
        let mut cells: Vec<Cell> = Vec::new();
        let mut i: usize = 0;
        while i < ROWS * COLS
            invariant
                i <= ROWS * COLS,
                cells@ == Seq::new(i as nat, |k: int| blank_cell()),
            decreases ROWS * COLS - i,
        {
            cells.push(Cell::new());
            i = i + 1;
            proof {
                assert(cells@ =~= Seq::new(i as nat, |k: int| blank_cell()));
            }
        }
        ANSIParser { row: 0, col: 0, cells, current_fg: None, current_bg: None }
    }

    pub fn row(&self) -> (r: usize)
        ensures
            r == self@.row,
    {
        self.row
    }

    pub fn col(&self) -> (r: usize)
        ensures
            r == self@.col,
    {
        self.col
    }

    pub fn current_fg(&self) -> (r: Option<Rgb>)
        ensures
            r == self@.fg,
    {
        self.current_fg
    }

    pub fn current_bg(&self) -> (r: Option<Rgb>)
        ensures
            r == self@.bg,
    {
        self.current_bg
    }

    /// The cell at (`row`, `col`).
    pub fn cell(&self, row: usize, col: usize) -> (r: Cell)
        requires
            self@.wf(),
            row < ROWS,
            col < COLS,
        ensures
            r == self@.cell(row as int, col as int),
    {
        self.cells[row * COLS + col]
    }

    /// Draws `c` at the cursor in the current colors and moves the cursor one
    /// column right. With the cursor off the screen nothing is written and the
    /// position is reported.
    pub fn print(&mut self, c: char) -> (r: Result<(), OutOfRange>)
        requires
            old(self)@.wf(),
        ensures
            final(self)@.wf(),
            final(self)@ == old(self)@.print(c),
            match r {
                Ok(_) => old(self)@.cursor_in_grid(),
                Err(e) => !old(self)@.cursor_in_grid() && e.row == old(self)@.row && e.col
                    == old(self)@.col,
            },
    {
        if self.row < ROWS && self.col < COLS {
            let i = self.row * COLS + self.col;
            let mut cell = self.cells[i];
            cell.set_content(&c);
            cell.set_bg(self.current_bg);
            cell.set_fg(self.current_fg);
            self.cells.set(i, cell);
            self.col = self.col + 1;
            Ok(())
        } else {
            Err(OutOfRange { row: self.row, col: self.col })
        }
    }

    /// Applies a control sequence with parameter groups `params` and final
    /// character `c`. Intermediates and the overflow flag do not matter here.
    /// A cursor request for a position off the screen is refused: the cursor
    /// stays and the requested position is reported.
    pub fn csi_dispatch(
        &mut self,
        params: &Vec<Vec<u16>>,
        _intermediates: &Vec<u8>,
        _ignore: bool,
        c: char,
    ) -> (r: Result<(), OutOfRange>)
        requires
            old(self)@.wf(),
        ensures
            final(self)@.wf(),
            final(self)@ == old(self)@.csi(params_view(params@), c),
            match r {
                Ok(_) => !csi_out_of_range(params_view(params@), c),
                Err(e) => csi_out_of_range(params_view(params@), c) && e.row
                    == params_view(params@)[0][0] && e.col == params_view(params@)[1][0],
            },
    {
        let pv = Ghost(params_view(params@));
        if c == 'm' {
            let values = flatten_params(params);
            let n = values.len();
            if n >= 2 && values[0] == 38 && values[1] == 2 {
                if n >= 5 {
                    self.current_fg = Some((values[2], values[3], values[4]));
                }
            } else if n >= 2 && values[0] == 48 && values[1] == 2 {
                if n >= 5 {
                    self.current_bg = Some((values[2], values[3], values[4]));
                }
            } else if n == 1 && values[0] == 39 {
                assert(values@ =~= seq![39u16]);
                self.current_fg = None;
            } else if n == 1 && values[0] == 49 {
                assert(values@ =~= seq![49u16]);
                self.current_bg = None;
            } else if n == 1 && values[0] == 0 {
                assert(values@ =~= seq![0u16]);
                self.current_fg = None;
                self.current_bg = None;
            }
            Ok(())
        } else if c == 'H' && params.len() >= 2 && params[0].len() > 0 && params[1].len() > 0 {
            assert(pv@[0] == params[0]@);
            assert(pv@[1] == params[1]@);
            let row = params[0][0] as usize;
            let col = params[1][0] as usize;
            if row < ROWS && col < COLS {
                self.row = row;
                self.col = col;
                Ok(())
            } else {
                Err(OutOfRange { row, col })
            }
        } else {
            Ok(())
        }
    }

    /// Applies one action of the lexer stage.
    pub fn perform(&mut self, action: &Action) -> (r: Result<(), OutOfRange>)
        requires
            old(self)@.wf(),
        ensures
            final(self)@.wf(),
            final(self)@ == old(self)@.step(*action),
            match r {
                Ok(_) => !old(self)@.rejects(*action),
                Err(e) => old(self)@.rejects(*action) && (e.row as int, e.col as int)
                    == old(self)@.fault_position(*action),
            },
    {
        match action {
            Action::Print(c) => self.print(*c),
            Action::CsiDispatch { params, intermediates, ignore, action } => {
                self.csi_dispatch(params, intermediates, *ignore, *action)
            },
            _ => Ok(()),
        }
    }

    /// Applies `actions` in order and returns how many were refused.
    pub fn perform_all(&mut self, actions: &Vec<Action>) -> (r: usize)
        requires
            old(self)@.wf(),
        ensures
            final(self)@.wf(),
            final(self)@ == run(old(self)@, actions@),
            r == count_rejected(old(self)@, actions@),
    {
        let ghost start = self@;
        let mut refused: usize = 0;
        let mut i: usize = 0;
        while i < actions.len()
            invariant
                i <= actions.len(),
                self@.wf(),
                self@ == run(start, actions@.subrange(0, i as int)),
                refused == count_rejected(start, actions@.subrange(0, i as int)),
                refused <= i,
            decreases actions.len() - i,
        {
            let ghost prefix = actions@.subrange(0, i as int);
            let ghost next = actions@.subrange(0, i + 1);
            assert(next.drop_last() =~= prefix);
            let res = self.perform(&actions[i]);
            if res.is_err() {
                refused = refused + 1;
            }
            i = i + 1;
        }
        assert(actions@.subrange(0, actions.len() as int) =~= actions@);
        refused
    }
}

} // verus!
