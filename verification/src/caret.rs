//! The caret bar of an EDIT control, and which of its rows wait to be painted.
use vstd::prelude::*;

use crate::edit;
use crate::edit::{EditFrame, EditState};
use crate::layout;
use crate::layout::Row;

verus! {

/// Rows `lo..=hi`.
#[derive(Debug, Clone, Copy, PartialEq, Eq, Structural)]
pub struct RowBand {
    pub lo: usize,
    pub hi: usize,
}

/// The rows that wait to be painted.
#[derive(Debug, Clone, Copy, PartialEq, Eq, Structural)]
pub enum EditInvalidation {
    /// None.
    Clean,
    /// A band of rows.
    Band(RowBand),
    /// All of them.
    Full,
}

impl EditInvalidation {
    /// Whether a row waits to be painted.
    pub open spec fn covers(self, row: int) -> bool {
        match self {
            EditInvalidation::Clean => false,
            EditInvalidation::Band(band) => band.lo <= row <= band.hi,
            EditInvalidation::Full => true,
        }
    }

    /// How many of the `count` rows from `first` on a paint covers: those of the band
    /// that waits, all of them where no band does.
    pub open spec fn painted(self, first: int, count: int) -> int {
        match self {
            EditInvalidation::Band(band) => {
                let lo = if band.lo < first {
                    first
                } else {
                    band.lo as int
                };
                let hi = if band.hi < first + count {
                    band.hi as int
                } else {
                    first + count - 1
                };
                if lo <= hi {
                    hi - lo + 1
                } else {
                    0
                }
            },
            _ => count,
        }
    }

    /// How many of the `count` rows from `first` on a paint covers.
    pub fn painted_count(self, first: usize, count: usize) -> (rows: usize)
        requires
            first + count <= usize::MAX,
        ensures
            rows == self.painted(first as int, count as int),
    {
        match self {
            EditInvalidation::Band(band) => {
                let lo: usize = if band.lo < first {
                    first
                } else {
                    band.lo
                };
                if count == 0 || lo > band.hi || lo >= first + count {
                    0
                } else if band.hi < first + count {
                    band.hi - lo + 1
                } else {
                    first + count - lo
                }
            },
            _ => count,
        }
    }

    /// With the rows between two rows added.
    pub open spec fn with_rows(self, a: usize, b: usize) -> EditInvalidation {
        let lo = if a < b {
            a
        } else {
            b
        };
        let hi = if a < b {
            b
        } else {
            a
        };
        match self {
            EditInvalidation::Clean => EditInvalidation::Band(RowBand { lo, hi }),
            EditInvalidation::Band(band) => EditInvalidation::Band(
                RowBand {
                    lo: if band.lo < lo {
                        band.lo
                    } else {
                        lo
                    },
                    hi: if band.hi > hi {
                        band.hi
                    } else {
                        hi
                    },
                },
            ),
            EditInvalidation::Full => EditInvalidation::Full,
        }
    }

    /// Add the rows between two rows.
    pub fn add_rows(self, a: usize, b: usize) -> (result: EditInvalidation)
        ensures
            result == self.with_rows(a, b),
    {
        let lo: usize = if a < b {
            a
        } else {
            b
        };
        let hi: usize = if a < b {
            b
        } else {
            a
        };
        match self {
            EditInvalidation::Clean => EditInvalidation::Band(RowBand { lo, hi }),
            EditInvalidation::Band(band) => {
                let low: usize = if band.lo < lo {
                    band.lo
                } else {
                    lo
                };
                let high: usize = if band.hi > hi {
                    band.hi
                } else {
                    hi
                };
                EditInvalidation::Band(RowBand { lo: low, hi: high })
            },
            EditInvalidation::Full => EditInvalidation::Full,
        }
    }
}

/// What the client area shows of an EDIT control.
#[verifier::ext_equal]
pub struct PictureModel {
    /// Characters of each visual row.
    pub rows: Seq<Seq<char>>,
    /// First row shown.
    pub first_line: int,
    /// Horizontal scroll offset.
    pub first_column: int,
    /// Width that the rows are laid out in.
    pub column: int,
    /// Number of rows shown.
    pub visible: int,
    pub caret: int,
    pub sel_start: int,
    pub sel_end: int,
    /// Row of the selection's start.
    pub top: int,
    /// Row of the selection's end.
    pub bottom: int,
}

/// The row of a text position in a frame.
pub open spec fn row_at(frame: &EditFrame, text: Seq<char>, index: int) -> int {
    layout::row_of(frame.rows(text), index, frame.rows(text).len())
}

/// What the client area shows.
pub open spec fn picture(edit: edit::EditModel, frame: &EditFrame) -> PictureModel {
    let all = frame.rows(edit.text);
    PictureModel {
        rows: Seq::new(all.len(), |i: int| edit.text.subrange(all[i].0, all[i].1)),
        first_line: edit.first_line,
        first_column: edit.first_column,
        column: frame.column(edit.text),
        visible: frame.visible(edit.text),
        caret: edit.caret,
        sel_start: edit.sel_start,
        sel_end: edit.sel_end,
        top: row_at(frame, edit.text, edit.sel_start),
        bottom: row_at(frame, edit.text, edit.sel_end),
    }
}

/// Whether a row is there twice with the same characters.
pub open spec fn same_row(before: Seq<Seq<char>>, after: Seq<Seq<char>>, row: int) -> bool {
    row < before.len() && row < after.len() && before[row] == after[row]
}

/// The rows that wait, with those of the first `n` whose characters changed.
pub open spec fn with_changed_rows(
    waiting: EditInvalidation,
    before: Seq<Seq<char>>,
    after: Seq<Seq<char>>,
    n: nat,
) -> EditInvalidation
    decreases n,
{
    if n == 0 {
        waiting
    } else {
        let earlier = with_changed_rows(waiting, before, after, (n - 1) as nat);
        if same_row(before, after, n - 1) {
            earlier
        } else {
            earlier.with_rows((n - 1) as usize, (n - 1) as usize)
        }
    }
}

/// The larger of two row counts.
pub open spec fn most_rows(before: PictureModel, after: PictureModel) -> nat {
    if before.rows.len() < after.rows.len() {
        after.rows.len()
    } else {
        before.rows.len()
    }
}

/// The rows that wait once the client area shows `after` in place of `before`: all
/// of them where it scrolled or its geometry changed; else those whose characters
/// changed, and those of the old and the new selection where it moved.
pub open spec fn repainted(waiting: EditInvalidation, before: PictureModel, after: PictureModel) -> EditInvalidation {
    if before.first_line != after.first_line || before.first_column != after.first_column || before.column
        != after.column || before.visible != after.visible {
        EditInvalidation::Full
    } else {
        let changed = with_changed_rows(waiting, before.rows, after.rows, most_rows(before, after));
        if before.caret != after.caret || before.sel_start != after.sel_start || before.sel_end != after.sel_end {
            changed.with_rows(before.top as usize, before.bottom as usize).with_rows(
                after.top as usize,
                after.bottom as usize,
            )
        } else {
            changed
        }
    }
}

/// Every row whose characters changed gets painted, and so does every row that
/// waited already and, where the selection moved, both ends of the old and of the new
/// one.
pub proof fn changes_get_painted(waiting: EditInvalidation, before: PictureModel, after: PictureModel, row: int)
    requires
        before.rows.len() <= usize::MAX,
        after.rows.len() <= usize::MAX,
        0 <= before.top <= usize::MAX,
        0 <= before.bottom <= usize::MAX,
        0 <= after.top <= usize::MAX,
        0 <= after.bottom <= usize::MAX,
    ensures
        waiting.covers(row) ==> repainted(waiting, before, after).covers(row),
        0 <= row < most_rows(before, after) && !same_row(before.rows, after.rows, row)
            ==> repainted(waiting, before, after).covers(row),
        before.caret != after.caret || before.sel_start != after.sel_start || before.sel_end != after.sel_end ==> {
            let result = repainted(waiting, before, after);
            &&& result.covers(before.top) && result.covers(before.bottom)
            &&& result.covers(after.top) && result.covers(after.bottom)
        },
{
    lemma_changed_rows(waiting, before.rows, after.rows, most_rows(before, after), row);
}

proof fn lemma_changed_rows(
    waiting: EditInvalidation,
    before: Seq<Seq<char>>,
    after: Seq<Seq<char>>,
    n: nat,
    row: int,
)
    requires
        n <= usize::MAX,
    ensures
        waiting.covers(row) ==> with_changed_rows(waiting, before, after, n).covers(row),
        0 <= row < n && !same_row(before, after, row) ==> with_changed_rows(waiting, before, after, n).covers(row),
    decreases n,
{
    if n > 0 {
        lemma_changed_rows(waiting, before, after, (n - 1) as nat, row);
    }
}

/// The caret bar and the rows that wait to be painted.
#[derive(Debug, Clone, Copy, PartialEq, Eq, Structural)]
pub struct CaretState {
    /// Blink phase: whether the bar shows.
    pub on: bool,
    /// Whether the control has the keyboard focus.
    pub focused: bool,
    /// The row where the last paint drew the bar.
    pub drawn_row: Option<usize>,
    pub invalid_rows: EditInvalidation,
    /// How many rows the last paint covered, once there was one.
    pub last_paint_rows: Option<usize>,
}

impl CaretState {
    /// The caret of a new control.
    pub open spec fn fresh() -> CaretState {
        CaretState {
            on: false,
            focused: false,
            drawn_row: None,
            invalid_rows: EditInvalidation::Clean,
            last_paint_rows: None,
        }
    }

    /// The caret of a new control.
    pub fn new() -> (caret: Self)
        ensures
            caret == CaretState::fresh(),
    {
        CaretState {
            on: false,
            focused: false,
            drawn_row: None,
            invalid_rows: EditInvalidation::Clean,
            last_paint_rows: None,
        }
    }

    /// The rows that wait once the bar changes: its own row, and the row that the
    /// last paint drew it on.
    pub open spec fn bar_rows(self, row: usize) -> EditInvalidation {
        let own = self.invalid_rows.with_rows(row, row);
        match self.drawn_row {
            Some(drawn) => own.with_rows(drawn, drawn),
            None => own,
        }
    }

    fn invalidate_bar(&self, row: usize) -> (rows: EditInvalidation)
        ensures
            rows == self.bar_rows(row),
    {
        let own = self.invalid_rows.add_rows(row, row);
        match self.drawn_row {
            Some(drawn) => own.add_rows(drawn, drawn),
            None => own,
        }
    }

    /// After the control got the focus with the caret in `row`: the bar shows.
    pub open spec fn focused_in(self, row: usize) -> CaretState {
        CaretState { on: true, focused: true, invalid_rows: self.bar_rows(row), ..self }
    }

    /// Give the control the focus.
    pub fn focus(&mut self, row: usize)
        ensures
            *final(self) == old(self).focused_in(row),
    {
        self.invalid_rows = self.invalidate_bar(row);
        self.on = true;
        self.focused = true;
    }

    /// After the control lost the focus.
    pub open spec fn unfocused_in(self, row: usize) -> CaretState {
        CaretState { focused: false, invalid_rows: self.bar_rows(row), ..self }
    }

    /// Take the focus from the control.
    pub fn unfocus(&mut self, row: usize)
        ensures
            *final(self) == old(self).unfocused_in(row),
    {
        self.invalid_rows = self.invalidate_bar(row);
        self.focused = false;
    }

    /// After a blink tick: the phase flips.
    pub open spec fn ticked_in(self, row: usize) -> CaretState {
        CaretState { on: !self.on, invalid_rows: self.bar_rows(row), ..self }
    }

    /// Flip the blink phase.
    pub fn tick(&mut self, row: usize)
        ensures
            *final(self) == old(self).ticked_in(row),
    {
        self.invalid_rows = self.invalidate_bar(row);
        self.on = !self.on;
    }

    /// After a paint of the `count` rows from `first` on: no row waits. A window that is
    /// shown has its rows painted, all of them the first time, and the bar's row is
    /// recorded if the bar was drawn, which takes the focus, the phase and a row in view.
    pub open spec fn painted_in(self, row: usize, first: usize, count: usize, shown: bool) -> CaretState {
        CaretState {
            drawn_row: if self.on && self.focused && shown && first <= row < first + count {
                Some(row)
            } else {
                self.drawn_row
            },
            invalid_rows: EditInvalidation::Clean,
            last_paint_rows: if !shown {
                self.last_paint_rows
            } else if self.last_paint_rows is None {
                Some(count)
            } else {
                Some(self.invalid_rows.painted(first as int, count as int) as usize)
            },
            ..self
        }
    }

    /// Record a paint.
    pub fn paint(&mut self, row: usize, first: usize, count: usize, shown: bool)
        requires
            first + count <= usize::MAX,
        ensures
            *final(self) == old(self).painted_in(row, first, count, shown),
    {
        if shown {
            if self.on && self.focused && first <= row && row < first + count {
                self.drawn_row = Some(row);
            }
            self.last_paint_rows = match self.last_paint_rows {
                Some(_) => Some(self.invalid_rows.painted_count(first, count)),
                None => Some(count),
            };
        }
        self.invalid_rows = EditInvalidation::Clean;
    }

    /// A paint in a visible window covers the band that waits, where it is in view, and
    /// all rows in view where all wait or nothing was painted before.
    pub proof fn paints_cover_what_waits(self, row: usize, first: usize, count: usize)
        requires
            first + count <= usize::MAX,
        ensures
            self.last_paint_rows is None ==> self.painted_in(row, first, count, true).last_paint_rows == Some(count),
            self.last_paint_rows is Some && self.invalid_rows is Full ==> self.painted_in(
                row,
                first,
                count,
                true,
            ).last_paint_rows == Some(count),
            (self.invalid_rows matches EditInvalidation::Band(band) && self.last_paint_rows is Some && first <= band.lo
                <= band.hi < first + count) ==> self.painted_in(row, first, count, true).last_paint_rows == Some(
                (self.invalid_rows->Band_0.hi - self.invalid_rows->Band_0.lo + 1) as usize,
            ),
            self.painted_in(row, first, count, true).invalid_rows is Clean,
    {
    }

    /// A blink tick repaints the row that the bar was drawn on and the caret's own, and
    /// two ticks restore the phase.
    pub proof fn ticks_repaint_both_rows(self, row: usize, later: usize)
        ensures
            self.ticked_in(row).invalid_rows.covers(row as int),
            self.drawn_row matches Some(drawn) ==> self.ticked_in(row).invalid_rows.covers(drawn as int),
            self.ticked_in(row).ticked_in(later).on == self.on,
    {
    }
}

/// The row of a text position among laid-out rows.
fn find_row(rows: &[Row], index: usize) -> (row: usize)
    requires
        rows@.len() >= 1,
    ensures
        row == layout::row_of(layout::spans(rows@), index as int, rows@.len()),
        row < rows@.len(),
{
    let mut n: usize = rows.len();
    while n > 1 && rows[n - 1].start > index
        invariant
            1 <= n <= rows@.len(),
            layout::row_of(layout::spans(rows@), index as int, n as nat) == layout::row_of(
                layout::spans(rows@),
                index as int,
                rows@.len(),
            ),
        decreases n,
    {
        n = n - 1;
    }
    n - 1
}

/// What the client area shows of an EDIT control.
pub struct Picture {
    rows: Vec<Vec<char>>,
    first_line: usize,
    first_column: usize,
    column: i32,
    visible: usize,
    caret: usize,
    sel_start: usize,
    sel_end: usize,
    top: usize,
    bottom: usize,
}

impl View for Picture {
    type V = PictureModel;

    closed spec fn view(&self) -> PictureModel {
        PictureModel {
            rows: self.rows@.map_values(|row: Vec<char>| row@),
            first_line: self.first_line as int,
            first_column: self.first_column as int,
            column: self.column as int,
            visible: self.visible as int,
            caret: self.caret as int,
            sel_start: self.sel_start as int,
            sel_end: self.sel_end as int,
            top: self.top as int,
            bottom: self.bottom as int,
        }
    }
}

/// Compare characters.
pub fn same_chars(a: &[char], b: &[char]) -> (same: bool)
    ensures
        same == (a@ == b@),
{
    if a.len() != b.len() {
        return false;
    }
    let mut i: usize = 0;
    while i < a.len()
        invariant
            i <= a@.len() == b@.len(),
            a@.take(i as int) == b@.take(i as int),
        decreases a@.len() - i,
    {
        if a[i] != b[i] {
            assert(a@[i as int] != b@[i as int]);
            return false;
        }
        i = i + 1;
        assert(a@.take(i as int) =~= b@.take(i as int));
    }
    assert(a@.take(i as int) =~= a@);
    assert(b@.take(i as int) =~= b@);
    true
}

impl Picture {
    /// Take a picture of a control.
    pub fn of(edit: &EditState, frame: &EditFrame) -> (result: Picture)
        requires
            edit@.wf(),
        ensures
            result@ == picture(edit@, frame),
    {
        let area = edit.area(frame);
        let spans = edit.rows(frame);
        let text = edit.text();
        let mut rows: Vec<Vec<char>> = Vec::new();
        let mut i: usize = 0;
        proof {
            layout::rows_cover(edit@.text, frame.column(edit@.text), layout::wraps(frame.style), *frame.font);
        }
        while i < spans.len()
            invariant
                i <= spans@.len(),
                text@ == edit@.text,
                layout::spans(spans@) == frame.rows(edit@.text),
                layout::rows_cover_from(edit@.text, 0, frame.rows(edit@.text)),
                rows@.len() == i,
                forall|k: int| 0 <= k < i ==> (#[trigger] rows@[k])@ == edit@.text.subrange(
                    frame.rows(edit@.text)[k].0,
                    frame.rows(edit@.text)[k].1,
                ),
            decreases spans@.len() - i,
        {
            let span = spans[i];
            assert(frame.rows(edit@.text)[i as int] == (span.start as int, span.end as int));
            rows.push(layout::copy_range(text, span.start, span.end));
            i = i + 1;
        }
        let (sel_start, sel_end) = edit.selection();
        let result = Picture {
            rows,
            first_line: edit.first_visible_line(),
            first_column: edit.first_visible_column(),
            column: area.wrap_width,
            visible: area.visible,
            caret: edit.caret(),
            sel_start,
            sel_end,
            top: find_row(&spans, sel_start),
            bottom: find_row(&spans, sel_end),
        };
        assert(result@.rows =~= picture(edit@, frame).rows);
        result
    }

    fn unchanged_row(&self, other: &Picture, row: usize) -> (same: bool)
        ensures
            same == same_row(self@.rows, other@.rows, row as int),
    {
        row < self.rows.len() && row < other.rows.len() && same_chars(&self.rows[row], &other.rows[row])
    }

    /// The rows that wait once the client area shows `after` in place of this.
    pub fn replaced_by(&self, waiting: EditInvalidation, after: &Picture) -> (result: EditInvalidation)
        ensures
            result == repainted(waiting, self@, after@),
    {
        if self.first_line != after.first_line || self.first_column != after.first_column || self.column
            != after.column || self.visible != after.visible {
            return EditInvalidation::Full;
        }
        let total: usize = if self.rows.len() < after.rows.len() {
            after.rows.len()
        } else {
            self.rows.len()
        };
        let mut changed = waiting;
        let mut row: usize = 0;
        while row < total
            invariant
                row <= total,
                changed == with_changed_rows(waiting, self@.rows, after@.rows, row as nat),
            decreases total - row,
        {
            if !self.unchanged_row(after, row) {
                changed = changed.add_rows(row, row);
            }
            row = row + 1;
        }
        if self.caret != after.caret || self.sel_start != after.sel_start || self.sel_end != after.sel_end {
            changed = changed.add_rows(self.top, self.bottom).add_rows(after.top, after.bottom);
        }
        changed
    }
}

} // verus!
