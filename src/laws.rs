use vstd::prelude::*;

use crate::action::Action;
use crate::cell::Cell;
use crate::screen::{cell_index, count_rejected, run, ScreenModel, COLS, ROWS};

verus! {

/// The print actions for the text bytes `text`, in order.
pub open spec fn prints(text: Seq<u8>) -> Seq<Action>
    decreases text.len(),
{
    if text.len() == 0 {
        Seq::empty()
    } else {
        prints(text.drop_last()).push(Action::Print(text.last() as char))
    }
}

/// Applying a stream of actions in two batches gives the same screen as
/// applying it in one: nothing of a batch's end is lost or repeated.
pub proof fn lemma_run_concat(s: ScreenModel, a: Seq<Action>, b: Seq<Action>)
    ensures
        run(s, a + b) == run(run(s, a), b),
    decreases b.len(),
{
    if b.len() == 0 {
        assert(a + b =~= a);
    } else {
        assert((a + b).drop_last() =~= a + b.drop_last());
        assert((a + b).last() == b.last());
        lemma_run_concat(s, a, b.drop_last());
    }
}

/// Printing characters that fit on the cursor's line fills the cells from the
/// cursor rightwards, one character each, in the active colors; the cursor
/// ends just past them and nothing else changes.
pub proof fn lemma_print_run(s: ScreenModel, text: Seq<u8>)
    requires
        s.wf(),
        s.row < ROWS,
        s.col + text.len() <= COLS,
    ensures
        ({
            let t = run(s, prints(text));
            &&& t.wf()
            &&& t.row == s.row
            &&& t.col == s.col + text.len()
            &&& t.fg == s.fg
            &&& t.bg == s.bg
            &&& forall|i: int|
                0 <= i < text.len() ==> #[trigger] t.cell(s.row as int, s.col + i) == (Cell {
                    content: text[i] as char,
                    bg: s.bg,
                    fg: s.fg,
                })
            &&& forall|k: int|
                0 <= k < s.cells.len() && !(cell_index(s.row as int, s.col as int) <= k
                    < cell_index(s.row as int, s.col as int) + text.len()) ==> #[trigger] t.cells[k]
                    == s.cells[k]
        }),
    decreases text.len(),
{
    if text.len() > 0 {
        let front = text.drop_last();
        assert(prints(text).drop_last() =~= prints(front));
        lemma_print_run(s, front);
        let u = run(s, prints(front));
        let t = run(s, prints(text));
        assert(t == u.print(text.last() as char));
        assert forall|i: int| 0 <= i < text.len() implies #[trigger] t.cell(
            s.row as int,
            s.col + i,
        ) == (Cell { content: text[i] as char, bg: s.bg, fg: s.fg }) by {
            if i < front.len() {
                assert(u.cell(s.row as int, s.col + i) == (Cell {
                    content: front[i] as char,
                    bg: s.bg,
                    fg: s.fg,
                }));
            }
        }
    } else {
    }
}

/// A control sequence whose final character is neither `m` nor `H` leaves
/// the cells, the cursor and the colors as they were.
pub proof fn lemma_unknown_final_changes_nothing(
    s: ScreenModel,
    params: Seq<Seq<u16>>,
    c: char,
)
    requires
        c != 'm',
        c != 'H',
    ensures
        s.csi(params, c) == s,
{
}

/// A color selection with the single value 0 clears both colors and
/// touches nothing else.
pub proof fn lemma_reset_clears_colors(s: ScreenModel, params: Seq<Seq<u16>>)
    requires
        params.flatten() == seq![0u16],
    ensures
        s.csi(params, 'm') == (ScreenModel { fg: None, bg: None, ..s }),
{
    assert(seq![39u16][0] == 39);
    assert(seq![49u16][0] == 49);
    assert(params.flatten()[0] == 0);
}

} // verus!

verus! {

/// The actions refused over a stream split in two batches are those refused
/// in the first batch plus those refused in the second.
pub proof fn lemma_rejected_concat(s: ScreenModel, a: Seq<Action>, b: Seq<Action>)
    ensures
        count_rejected(s, a + b) == count_rejected(s, a) + count_rejected(run(s, a), b),
    decreases b.len(),
{
    if b.len() == 0 {
        assert(a + b =~= a);
    } else {
        assert((a + b).drop_last() =~= a + b.drop_last());
        assert((a + b).last() == b.last());
        lemma_rejected_concat(s, a, b.drop_last());
        lemma_run_concat(s, a, b.drop_last());
    }
}

} // verus!
