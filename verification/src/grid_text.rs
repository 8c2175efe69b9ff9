//! How the characters of the terminal grid are grouped before drawing: one
//! text run per stretch of adjacent cells of one line with one foreground
//! color, blank cells left out.
use vstd::prelude::*;
use crate::text::push_char;

verus! {

/// One cell of the visible grid, in display order: its line (negative in
/// the scrollback), its column, its character and the RGB of its
/// foreground as drawn.
#[derive(Debug, Clone, Copy, PartialEq, Eq, Structural)]
pub struct GridCell {
    pub line: i32,
    pub col: u16,
    pub ch: char,
    pub fg: u32,
}

/// A run of text drawn at once: it starts at `start_col` of `line` and
/// covers `cell_count` adjacent cells, one character each.
#[derive(Debug)]
pub struct TextBatch {
    pub line: i32,
    pub start_col: u16,
    pub text: String,
    pub fg: u32,
    pub cell_count: usize,
}

/// A batch as (line, first column, text, color).
pub type BatchView = (i32, int, Seq<char>, u32);

/// Space and NUL cells draw nothing.
pub open spec fn is_blank(c: char) -> bool {
    c == ' ' || c == '\0'
}

/// The cell `c` continues the batch `b`: same line, same color, and the
/// column right after it.
pub open spec fn continues(b: BatchView, c: GridCell) -> bool {
    b.0 == c.line && b.3 == c.fg && b.1 + b.2.len() == c.col
}

/// The batches of `cells`, scanned in order: a blank cell is skipped; a cell
/// that continues the last batch joins it; any other starts a new batch.
pub open spec fn batches_spec(cells: Seq<GridCell>) -> Seq<BatchView>
    decreases cells.len(),
{
    if cells.len() == 0 {
        Seq::empty()
    } else {
        let prev = batches_spec(cells.drop_last());
        let c = cells.last();
        if is_blank(c.ch) {
            prev
        } else if prev.len() > 0 && continues(prev.last(), c) {
            let b = prev.last();
            prev.update(prev.len() - 1, (b.0, b.1, b.2.push(c.ch), b.3))
        } else {
            prev.push((c.line, c.col as int, seq![c.ch], c.fg))
        }
    }
}

/// The texts of batches, one after the other.
pub open spec fn batch_texts(bs: Seq<BatchView>) -> Seq<char>
    decreases bs.len(),
{
    if bs.len() == 0 {
        Seq::empty()
    } else {
        batch_texts(bs.drop_last()) + bs.last().2
    }
}

/// The characters of the non-blank cells, in order.
pub open spec fn drawn_chars(cells: Seq<GridCell>) -> Seq<char>
    decreases cells.len(),
{
    if cells.len() == 0 {
        Seq::empty()
    } else if is_blank(cells.last().ch) {
        drawn_chars(cells.drop_last())
    } else {
        drawn_chars(cells.drop_last()).push(cells.last().ch)
    }
}

impl TextBatch {
    pub open spec fn view_batch(self) -> BatchView {
        (self.line, self.start_col as int, self.text@, self.fg)
    }
}

/// The views of a list of batches.
pub open spec fn batch_views(bs: Seq<TextBatch>) -> Seq<BatchView> {
    bs.map_values(|b: TextBatch| b.view_batch())
}

/// Every batch counts the characters of its text, and ends within the
/// columns of a line.
pub open spec fn batches_wf(bs: Seq<TextBatch>) -> bool {
    forall|i: int|
        0 <= i < bs.len() ==> #[trigger] bs[i].cell_count == bs[i].text@.len() && bs[i].start_col
            + bs[i].cell_count <= 0x1_0000
}

/// Groups the cells of the grid into the text runs drawn.
pub fn text_batches(cells: &Vec<GridCell>) -> (r: Vec<TextBatch>)
    ensures
        batch_views(r@) == batches_spec(cells@),
{
    let mut out: Vec<TextBatch> = Vec::new();
    let mut i: usize = 0;
    while i < cells.len()
        invariant
            i <= cells.len(),
            batches_wf(out@),
            batch_views(out@) == batches_spec(cells@.take(i as int)),
        decreases cells.len() - i,
    {
        let c = cells[i];
        let ghost before = out@;
        proof {
            assert(cells@.take(i + 1).drop_last() == cells@.take(i as int));
            assert(cells@.take(i + 1).last() == c);
        }
        if c.ch == ' ' || c.ch == '\0' {
        } else {
            let n = out.len();
            let joins = if n > 0 {
                let last = &out[n - 1];
                last.line == c.line && last.fg == c.fg && (last.start_col as usize) + last.cell_count
                    == (c.col as usize)
            } else {
                false
            };
            proof {
                if n > 0 {
                    assert(batch_views(before).last() == before[n - 1].view_batch());
                }
            }
            if joins {
                let mut last = out.pop().unwrap();
                push_char(&mut last.text, c.ch);
                last.cell_count = last.cell_count + 1;
                out.push(last);
                proof {
                    assert(out@ == before.update(n - 1, out@[n - 1]));
                    assert(batch_views(out@) =~= batch_views(before).update(
                        n - 1,
                        out@[n - 1].view_batch(),
                    ));
                }
            } else {
                let mut text = String::new();
                push_char(&mut text, c.ch);
                out.push(TextBatch { line: c.line, start_col: c.col, text, fg: c.fg, cell_count: 1 });
                proof {
                    assert(out@ == before.push(out@[n as int]));
                    assert(batch_views(out@) =~= batch_views(before).push(out@[n as int].view_batch()));
                }
            }
        }
        i += 1;
    }
    assert(cells@.take(i as int) == cells@);
    out
}

/// Grouping loses, adds and reorders no character: the batch texts, one
/// after the other, are the characters of the non-blank cells in order.
pub proof fn law_batches_keep_every_character(cells: Seq<GridCell>)
    ensures
        batch_texts(batches_spec(cells)) == drawn_chars(cells),
    decreases cells.len(),
{
    if cells.len() > 0 {
        let pre = cells.drop_last();
        law_batches_keep_every_character(pre);
        let prev = batches_spec(pre);
        let c = cells.last();
        if !is_blank(c.ch) {
            if prev.len() > 0 && continues(prev.last(), c) {
                let b = prev.last();
                let nb = (b.0, b.1, b.2.push(c.ch), b.3);
                let next = prev.update(prev.len() - 1, nb);
                assert(next.drop_last() =~= prev.drop_last());
                assert(batch_texts(prev) == batch_texts(prev.drop_last()) + b.2);
                assert(batch_texts(next) == batch_texts(prev.drop_last()) + nb.2);
                assert((batch_texts(prev.drop_last()) + b.2).push(c.ch) =~= batch_texts(
                    prev.drop_last(),
                ) + b.2.push(c.ch));
            } else {
                let next = prev.push((c.line, c.col as int, seq![c.ch], c.fg));
                assert(next.drop_last() =~= prev);
                assert(batch_texts(prev).push(c.ch) =~= batch_texts(prev) + seq![c.ch]);
            }
        }
    }
}

} // verus!
