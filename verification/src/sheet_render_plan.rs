//! The text the Sheet's display list carries: Excel A1 column labels for the
//! header row and the honest display text of each planned cell's value.
use vstd::prelude::*;

use crate::projection::{value_display, value_display_text, NodeValueProjection};
use crate::text::push_char;
use crate::workspace::GridProjection;

verus! {

/// The bijective base-26 column label of a 1-based index: 1 is `A`, 26 is
/// `Z`, 27 is `AA`; 0 has the empty label.
pub open spec fn column_label(col: nat) -> Seq<char>
    decreases col,
{
    if col == 0 {
        Seq::empty()
    } else {
        column_label(((col - 1) / 26) as nat).push((65 + (col - 1) % 26) as char)
    }
}

/// The index a column label spells, reading `A`..`Z` as digits 1..26.
pub open spec fn column_index(label: Seq<char>) -> int
    decreases label.len(),
{
    if label.len() == 0 {
        0
    } else {
        26 * column_index(label.drop_last()) + (label.last() as u32 - 64)
    }
}

fn push_column_label(s: &mut String, col: u32)
    ensures
        final(s)@ == old(s)@ + column_label(col as nat),
    decreases col,
{
    if col > 0 {
        push_column_label(s, (col - 1) / 26);
        let letter = (((col - 1) % 26) as u8 + 65) as char;
        push_char(s, letter);
        proof {
            assert(column_label(col as nat) == column_label(((col - 1) / 26) as nat).push(
                (65 + (col - 1) % 26) as char,
            ));
        }
    } else {
        assert(old(s)@ + column_label(0) =~= old(s)@);
    }
}

/// The Excel A1 column label for a 1-based column index (bijective
/// base-26); `col == 0` yields an empty string.
pub fn col_label(col: u32) -> (label: String)
    ensures
        label@ == column_label(col as nat),
{
    let mut label = String::new();
    push_column_label(&mut label, col);
    assert(label@ =~= column_label(col as nat));
    label
}

/// Law: a column label is made of the letters `A`..`Z` only, and reading it
/// back gives the column index — so distinct columns get distinct labels.
pub proof fn lemma_column_label_round_trips(col: nat)
    ensures
        forall|i: int| 0 <= i < column_label(col).len() ==> 65 <= #[trigger] column_label(col)[i] as u32 <= 90,
        column_index(column_label(col)) == col,
    decreases col,
{
    if col > 0 {
        let q = ((col - 1) / 26) as nat;
        lemma_column_label_round_trips(q);
        let l = column_label(col);
        assert(l.drop_last() =~= column_label(q));
        assert forall|i: int| 0 <= i < l.len() implies 65 <= #[trigger] l[i] as u32 <= 90 by {
            if i < l.len() - 1 {
                assert(l[i] == column_label(q)[i]);
            }
        }
    }
}

/// The honest display text for a grid cell's value: the engine's display
/// for numbers and logicals, text verbatim, the error message, the
/// reference target, a parenthesized marker for absent or in-flight states,
/// and an `R×C` shape summary for an array.
pub fn value_text(value: &NodeValueProjection) -> (text: String)
    ensures
        text@ == value_display_text(*value),
{
    value_display(value)
}


/// `a` comes before `b` in paint order: by row, then column, then the
/// cell's position in the window (so equal addresses keep window order).
pub open spec fn paints_before(a: (u32, u32, usize), b: (u32, u32, usize)) -> bool {
    a.0 < b.0 || (a.0 == b.0 && (a.1 < b.1 || (a.1 == b.1 && a.2 < b.2)))
}

/// `t` is a planned cell of `grid`: the address and window position of a
/// cell inside the grid's extent whose rectangle the viewport shows
/// (`visible`, one answer per cell of the window).
pub open spec fn is_planned_cell(grid: GridProjection, visible: Seq<bool>, t: (u32, u32, usize)) -> bool {
    &&& t.2 < grid.cells@.len()
    &&& t.2 < visible.len()
    &&& visible[t.2 as int]
    &&& t.0 == grid.cells@[t.2 as int].row
    &&& t.1 == grid.cells@[t.2 as int].col
    &&& 1 <= t.0 <= grid.max_rows
    &&& 1 <= t.1 <= grid.max_cols
}

/// The cells one paint draws, as `(row, col, position in the window)`:
/// exactly the in-extent cells whose rectangle the viewport shows (the
/// host answers `visible` from the real-valued geometry), in row, column
/// order whatever order the window lists them in.
pub fn plan_cell_order(grid: &GridProjection, visible: &Vec<bool>) -> (r: Vec<(u32, u32, usize)>)
    ensures
        forall|i: int, j: int| 0 <= i < j < r@.len() ==> paints_before(r@[i], r@[j]),
        forall|t: (u32, u32, usize)| r@.contains(t) <==> is_planned_cell(*grid, visible@, t),
{
    let mut out: Vec<(u32, u32, usize)> = Vec::new();
    let mut k: usize = 0;
    while k < grid.cells.len()
        invariant
            k <= grid.cells@.len(),
            forall|i: int, j: int| 0 <= i < j < out@.len() ==> paints_before(out@[i], out@[j]),
            forall|t: (u32, u32, usize)|
                out@.contains(t) <==> (is_planned_cell(*grid, visible@, t) && t.2 < k),
        decreases grid.cells@.len() - k,
    {
        let row = grid.cells[k].row;
        let col = grid.cells[k].col;
        if k < visible.len() && visible[k] && 1 <= row && row <= grid.max_rows && 1 <= col && col
            <= grid.max_cols {
            let x = (row, col, k);
            let mut pos: usize = 0;
            while pos < out.len() && !(row < out[pos].0 || (row == out[pos].0 && col < out[pos].1))
                invariant
                    x == (row, col, k),
                    pos <= out@.len(),
                    forall|i: int| 0 <= i < pos ==> paints_before(#[trigger] out@[i], x),
                    forall|t: (u32, u32, usize)| #[trigger] out@.contains(t) ==> t.2 < k,
                decreases out@.len() - pos,
            {
                assert(out@.contains(out@[pos as int]));
                assert(out@[pos as int].2 < k);
                assert(paints_before(out@[pos as int], x));
                pos = pos + 1;
            }
            let ghost old_out = out@;
            proof {
                if pos < old_out.len() {
                    assert(old_out.contains(old_out[pos as int]));
                    assert(paints_before(x, old_out[pos as int]));
                    assert forall|j: int| pos <= j < old_out.len() implies paints_before(
                        x,
                        #[trigger] old_out[j],
                    ) by {
                        if j > pos {
                            assert(paints_before(old_out[pos as int], old_out[j]));
                        }
                    }
                }
            }
            out.insert(pos, x);
            proof {
                let s = out@;
                assert(s == old_out.insert(pos as int, x));
                assert forall|i: int, j: int| 0 <= i < j < s.len() implies paints_before(
                    s[i],
                    s[j],
                ) by {
                    if j < pos {
                        assert(s[i] == old_out[i] && s[j] == old_out[j]);
                    } else if j == pos {
                        assert(s[i] == old_out[i]);
                    } else if i < pos {
                        assert(s[i] == old_out[i] && s[j] == old_out[j - 1]);
                        assert(paints_before(old_out[i], x));
                    } else if i == pos {
                        assert(s[j] == old_out[j - 1]);
                    } else {
                        assert(s[i] == old_out[i - 1] && s[j] == old_out[j - 1]);
                    }
                }
                assert forall|t: (u32, u32, usize)|
                    s.contains(t) <==> (is_planned_cell(*grid, visible@, t) && t.2 < k + 1) by {
                    if s.contains(t) {
                        let j = choose|j: int| 0 <= j < s.len() && s[j] == t;
                        if j < pos {
                            assert(old_out.contains(old_out[j]));
                        } else if j > pos {
                            assert(s[j] == old_out[j - 1]);
                            assert(old_out.contains(old_out[j - 1]));
                        }
                    }
                    if is_planned_cell(*grid, visible@, t) && t.2 < k + 1 {
                        if t.2 < k {
                            assert(old_out.contains(t));
                            let j = choose|j: int| 0 <= j < old_out.len() && old_out[j] == t;
                            if j < pos {
                                assert(s[j] == t);
                            } else {
                                assert(s[j + 1] == t);
                            }
                        } else {
                            assert(s[pos as int] == t);
                        }
                    }
                }
            }
        } else {
            proof {
                assert forall|t: (u32, u32, usize)|
                    out@.contains(t) <==> (is_planned_cell(*grid, visible@, t) && t.2 < k + 1) by {
                    if t.2 == k && is_planned_cell(*grid, visible@, t) {
                        assert(false);
                    }
                }
            }
        }
        k = k + 1;
    }
    out
}

} // verus!
