//! The EDIT control: text, caret and selection, undo, scrolling.
use vstd::prelude::*;

use crate::font::{FontEngine, CELL_WIDTH};
use crate::layout;
use crate::layout::{HitTestLayout, Row, TextArea, ES_MULTILINE, SCROLL_BAR_SIZE};
use crate::lines;

verus! {

/// Text limit of a new control.
pub const DEFAULT_LIMIT: usize = 32767;

/// The largest text limit.
pub const MAX_LIMIT: usize = 0x7FFF_FFFE;

/// The largest horizontal scroll offset.
pub const MAX_COLUMN: usize = 0x7FFF_FFFF;

/// Notification code: the text changed.
pub const EN_CHANGE: u16 = 0x0300;

/// Notification code: horizontal scroll or caret move.
pub const EN_HSCROLL: u16 = 0x0601;

/// Notification code: vertical scroll or caret move.
pub const EN_VSCROLL: u16 = 0x0602;

/// Selection type: no selection.
pub const SEL_EMPTY: u64 = 0x0000;

/// Selection type bit: some text.
pub const SEL_TEXT: u64 = 0x0001;

/// Selection type bit: more than one character.
pub const SEL_MULTICHAR: u64 = 0x0004;

/// Selection type bit: more than one line.
pub const SEL_MULTILINE: u64 = 0x0010;

/// Virtual key: Page Up.
pub const VK_PRIOR: u64 = 0x21;

/// Virtual key: Page Down.
pub const VK_NEXT: u64 = 0x22;

/// Virtual key: End.
pub const VK_END: u64 = 0x23;

/// Virtual key: Home.
pub const VK_HOME: u64 = 0x24;

/// Virtual key: Left.
pub const VK_LEFT: u64 = 0x25;

/// Virtual key: Up.
pub const VK_UP: u64 = 0x26;

/// Virtual key: Right.
pub const VK_RIGHT: u64 = 0x27;

/// Virtual key: Down.
pub const VK_DOWN: u64 = 0x28;

/// Virtual key: Delete.
pub const VK_DELETE: u64 = 0x2E;

/// What a control answers to a message.
#[derive(Debug, Clone, Copy, PartialEq, Eq, Structural)]
pub enum Reply {
    /// The message is not the control's.
    Unhandled,
    /// The message result.
    Value(u64),
    /// The parent is to be notified with this code.
    Notify(u16),
}

/// Text, caret and selection as they were before an edit.
#[verifier::ext_equal]
pub struct SnapshotModel {
    pub text: Seq<char>,
    pub caret: int,
    pub sel_start: int,
    pub sel_end: int,
}

impl SnapshotModel {
    /// The selection lies in the text and the caret is at one of its ends.
    pub open spec fn wf(self) -> bool {
        &&& 0 <= self.sel_start <= self.sel_end <= self.text.len()
        &&& self.caret == self.sel_start || self.caret == self.sel_end
    }
}

/// The state of an EDIT control.
#[verifier::ext_equal]
pub struct EditModel {
    pub text: Seq<char>,
    pub caret: int,
    pub sel_start: int,
    pub sel_end: int,
    /// Column that vertical moves aim at.
    pub goal: Option<int>,
    /// Most characters that can be typed or pasted.
    pub limit: int,
    pub modified: bool,
    /// First visual row shown.
    pub first_line: int,
    /// Horizontal scroll offset in pixels.
    pub first_column: int,
    pub tab_stops: Seq<u16>,
    pub undo: Option<SnapshotModel>,
    /// While the scroll-bar thumb is dragged: where in the thumb it was grabbed.
    pub thumb: Option<int>,
}

impl EditModel {
    /// The selection lies in the text and the caret is at one of its ends.
    pub open spec fn wf(self) -> bool {
        &&& 0 <= self.sel_start <= self.sel_end <= self.text.len()
        &&& self.caret == self.sel_start || self.caret == self.sel_end
        &&& self.goal matches Some(goal) ==> 0 <= goal
        &&& 0 <= self.limit <= MAX_LIMIT
        &&& 0 <= self.first_line
        &&& 0 <= self.first_column <= MAX_COLUMN
        &&& self.undo matches Some(snapshot) ==> snapshot.wf()
        &&& self.thumb matches Some(grab) ==> 0 <= grab <= i32::MAX
    }

    /// A control that was just created with a text.
    pub open spec fn fresh(text: Seq<char>) -> EditModel {
        EditModel {
            text,
            caret: 0,
            sel_start: 0,
            sel_end: 0,
            goal: None,
            limit: DEFAULT_LIMIT as int,
            modified: false,
            first_line: 0,
            first_column: 0,
            tab_stops: Seq::empty(),
            undo: None,
            thumb: None,
        }
    }

    /// What undo would restore.
    pub open spec fn snapshot(self) -> SnapshotModel {
        SnapshotModel { text: self.text, caret: self.caret, sel_start: self.sel_start, sel_end: self.sel_end }
    }

    /// An edit: characters `lo..hi` give way to `chars`. The caret lands behind
    /// them, and the state before can be restored.
    pub open spec fn replaced(self, lo: int, hi: int, chars: Seq<char>) -> EditModel {
        EditModel {
            text: self.text.take(lo) + chars + self.text.skip(hi),
            caret: lo + chars.len(),
            sel_start: lo + chars.len(),
            sel_end: lo + chars.len(),
            goal: None,
            modified: true,
            undo: Some(self.snapshot()),
            ..self
        }
    }

    /// How many characters can replace the selection.
    pub open spec fn room(self) -> int {
        let kept = self.text.len() - (self.sel_end - self.sel_start);
        if self.limit > kept {
            self.limit - kept
        } else {
            0
        }
    }

    /// The selected characters.
    pub open spec fn selected(self) -> Seq<char> {
        self.text.subrange(self.sel_start, self.sel_end)
    }

    /// Replace the selection, as far as the limit leaves room.
    pub open spec fn with_selection_replaced(self, chars: Seq<char>) -> EditModel {
        let fitting = if chars.len() <= self.room() {
            chars
        } else {
            chars.take(self.room())
        };
        if self.sel_start == self.sel_end && fitting.len() == 0 {
            self
        } else {
            self.replaced(self.sel_start, self.sel_end, fitting)
        }
    }

    /// Type one character over the selection; at the limit nothing happens.
    pub open spec fn with_char(self, c: char) -> EditModel {
        if self.room() >= 1 {
            self.replaced(self.sel_start, self.sel_end, seq![c])
        } else {
            self
        }
    }

    /// Delete the selection, or else the character before the caret.
    pub open spec fn with_backspace(self) -> EditModel {
        if self.sel_start < self.sel_end {
            self.replaced(self.sel_start, self.sel_end, Seq::empty())
        } else if self.caret > 0 {
            self.replaced(self.caret - 1, self.caret, Seq::empty())
        } else {
            self
        }
    }

    /// Delete the selection, or else the character after the caret.
    pub open spec fn with_delete(self) -> EditModel {
        if self.sel_start < self.sel_end {
            self.replaced(self.sel_start, self.sel_end, Seq::empty())
        } else if self.caret < self.text.len() {
            self.replaced(self.caret, self.caret + 1, Seq::empty())
        } else {
            self
        }
    }

    /// What a typed character code does: 8 deletes backwards, 13 breaks the line in
    /// a multiline control, other control characters and numbers that are no
    /// character do nothing, all else is inserted.
    pub open spec fn typed(self, code: u64, multiline: bool) -> EditModel {
        if code == 0x08 {
            self.with_backspace()
        } else if code == 0x0D {
            if multiline {
                self.with_char('\n')
            } else {
                self
            }
        } else if code < 0x20 || 0x7F <= code <= 0x9F || !crate::text::is_scalar(code as int) {
            self
        } else {
            self.with_char(code as char)
        }
    }

    /// Whether a typed character code changes the text.
    pub open spec fn typing_changes(self, code: u64, multiline: bool) -> bool {
        if code == 0x08 {
            self.sel_start < self.sel_end || self.caret > 0
        } else if code == 0x0D {
            multiline && self.room() >= 1
        } else {
            !(code < 0x20 || 0x7F <= code <= 0x9F || !crate::text::is_scalar(code as int)) && self.room() >= 1
        }
    }

    /// Go back to the snapshot, which is used up.
    pub open spec fn undone(self) -> EditModel {
        match self.undo {
            Some(snapshot) => EditModel {
                text: snapshot.text,
                caret: snapshot.caret,
                sel_start: snapshot.sel_start,
                sel_end: snapshot.sel_end,
                goal: None,
                modified: true,
                undo: None,
                ..self
            },
            None => self,
        }
    }

    /// A new text: nothing selected, nothing to undo, scrolled to the start.
    pub open spec fn with_text(self, text: Seq<char>) -> EditModel {
        EditModel {
            text,
            caret: 0,
            sel_start: 0,
            sel_end: 0,
            goal: None,
            modified: false,
            first_line: 0,
            first_column: 0,
            undo: None,
            ..self
        }
    }

    /// Select `start..end`, in either order and kept within the text; an end of -1
    /// is the end of the text, a start of -1 drops the selection. The caret lands
    /// at the end.
    pub open spec fn with_selection(self, start: u32, end: u32) -> EditModel {
        let len = self.text.len() as int;
        if start == u32::MAX {
            EditModel { sel_start: self.caret, sel_end: self.caret, goal: None, ..self }
        } else {
            let a = if start > len {
                len
            } else {
                start as int
            };
            let b = if end > len {
                len
            } else {
                end as int
            };
            let lo = if a <= b {
                a
            } else {
                b
            };
            let hi = if a <= b {
                b
            } else {
                a
            };
            EditModel { sel_start: lo, sel_end: hi, caret: hi, goal: None, ..self }
        }
    }

    /// Move the caret. With `extend` the other end of the selection stays, else the
    /// selection collapses.
    pub open spec fn with_caret(self, to: int, extend: bool, goal: Option<int>) -> EditModel {
        let anchor = if !extend {
            to
        } else if self.caret == self.sel_start {
            self.sel_end
        } else {
            self.sel_start
        };
        EditModel {
            caret: to,
            sel_start: if anchor < to {
                anchor
            } else {
                to
            },
            sel_end: if anchor < to {
                to
            } else {
                anchor
            },
            goal,
            ..self
        }
    }

    /// The column that a vertical move aims at.
    pub open spec fn aim(self) -> int {
        match self.goal {
            Some(goal) => goal,
            None => self.caret - lines::line_start(self.text, self.caret),
        }
    }

    /// Where a move over `count` lines ends: at the aimed column, or the end of a
    /// shorter line. There is no such move from the last line down or the first up.
    pub open spec fn vertical_target(self, down: bool, count: int) -> Option<int> {
        let line = lines::line_of(self.text, self.caret) as int;
        let last = lines::line_of(self.text, self.text.len() as int) as int;
        if down && line >= last || !down && line == 0 {
            None
        } else {
            let target = if down && line + count > last {
                last
            } else if down {
                line + count
            } else if count > line {
                0
            } else {
                line - count
            };
            let start = lines::line_begin(self.text, target as nat)->0;
            let end = lines::line_end(self.text, start);
            Some(
                if self.aim() < end - start {
                    start + self.aim()
                } else {
                    end
                },
            )
        }
    }

    /// Where a navigation key takes the caret, and whether the move is vertical.
    pub open spec fn key_target(self, vk: u64, ctrl: bool, multiline: bool, page: int) -> Option<(int, bool)> {
        let len = self.text.len() as int;
        if vk == VK_LEFT {
            Some((if self.caret > 0 { self.caret - 1 } else { 0 }, false))
        } else if vk == VK_RIGHT {
            Some((if self.caret < len { self.caret + 1 } else { len }, false))
        } else if vk == VK_HOME {
            Some((if ctrl { 0 } else { lines::line_start(self.text, self.caret) }, ctrl))
        } else if vk == VK_END {
            Some((if ctrl { len } else { lines::line_end(self.text, self.caret) }, ctrl))
        } else if multiline && (vk == VK_UP || vk == VK_DOWN || vk == VK_PRIOR || vk == VK_NEXT) {
            let count = if vk == VK_UP || vk == VK_DOWN {
                1
            } else {
                page
            };
            match self.vertical_target(vk == VK_DOWN || vk == VK_NEXT, count) {
                Some(to) => Some((to, true)),
                None => None,
            }
        } else {
            None
        }
    }

    /// What a navigation key does. Vertical moves keep the column they aim at, all
    /// others forget it.
    pub open spec fn navigated(self, vk: u64, shift: bool, ctrl: bool, multiline: bool, page: int) -> EditModel {
        match self.key_target(vk, ctrl, multiline, page) {
            Some((to, _)) => self.with_caret(
                to,
                shift,
                if vk == VK_UP || vk == VK_DOWN || vk == VK_PRIOR || vk == VK_NEXT {
                    Some(self.aim())
                } else {
                    None
                },
            ),
            None => self,
        }
    }

    /// Which kind of move a key makes: `None` where the caret stays, else whether it
    /// is vertical.
    pub open spec fn move_kind(self, vk: u64, ctrl: bool, multiline: bool, page: int) -> Option<bool> {
        match self.key_target(vk, ctrl, multiline, page) {
            Some((to, vertical)) => if to == self.caret {
                None
            } else {
                Some(vertical)
            },
            None => None,
        }
    }

    /// Scrolled so that the caret shows.
    pub open spec fn revealed(self, frame: &EditFrame) -> EditModel {
        EditModel { first_line: frame.revealing(self.text, self.caret, self.first_line), ..self }
    }

    /// Scrolled by a vertical scroll-bar code.
    pub open spec fn v_scrolled(self, code: u16, thumb: int, frame: &EditFrame) -> EditModel {
        let total = frame.rows(self.text).len() as int;
        let visible = frame.visible(self.text);
        EditModel {
            first_line: scrolled(code, thumb, self.first_line, 1, visible, layout::max_offset(total, visible)),
            ..self
        }
    }

    /// Scrolled by a horizontal scroll-bar code.
    pub open spec fn h_scrolled(self, code: u16, thumb: int, frame: &EditFrame) -> EditModel {
        if layout::wraps(frame.style) {
            self
        } else {
            let column = frame.column(self.text);
            EditModel {
                first_column: scrolled(
                    code,
                    thumb,
                    self.first_column,
                    CELL_WIDTH as int,
                    if column < 0 {
                        0
                    } else {
                        column
                    },
                    frame.max_column(self.text),
                ),
                ..self
            }
        }
    }

    /// Scrolled by the mouse wheel.
    pub open spec fn wheeled(self, delta: int, frame: &EditFrame) -> EditModel {
        let wanted = if delta >= 0 {
            self.first_line - delta / 120 * 3
        } else {
            self.first_line + (-delta) / 120 * 3
        };
        EditModel {
            first_line: layout::clamped_offset(
                wanted,
                frame.rows(self.text).len() as int,
                frame.visible(self.text),
            ),
            ..self
        }
    }

    /// After a press on the scroll bar: above the thumb a page up, below it a page
    /// down, on it the start of a drag.
    pub open spec fn gutter_pressed(self, y: int, frame: &EditFrame) -> EditModel {
        let top = frame.thumb_top(self.text, self.first_line);
        if y < top {
            EditModel { thumb: None, ..self.v_scrolled(2, 0, frame) }
        } else if y >= top + frame.thumb_length(self.text) {
            EditModel { thumb: None, ..self.v_scrolled(3, 0, frame) }
        } else {
            EditModel { thumb: Some(y - top), ..self }
        }
    }

    /// Scrolled so that the thumb follows the pointer.
    pub open spec fn thumb_dragged(self, y: int, frame: &EditFrame) -> EditModel {
        match self.thumb {
            Some(grab) => EditModel { first_line: frame.offset_at(self.text, y - grab), ..self },
            None => self,
        }
    }

    /// The word at a position selected, the caret at its end.
    pub open spec fn with_word(self, index: int) -> EditModel {
        let (start, end) = word_at(self.text, index);
        EditModel { sel_start: start, sel_end: end, caret: end, goal: None, ..self }
    }

    /// What kind of selection there is: whether it holds more than one character,
    /// and whether these are on more than one line. A selection that ends with a
    /// line break stays on that line.
    pub open spec fn selection_kind(self) -> u64 {
        if self.sel_start == self.sel_end {
            SEL_EMPTY
        } else if lines::line_of(self.text, self.sel_start) != lines::line_of(self.text, self.sel_end - 1) {
            (SEL_TEXT + SEL_MULTICHAR + SEL_MULTILINE) as u64
        } else if self.sel_end - self.sel_start > 1 {
            (SEL_TEXT + SEL_MULTICHAR) as u64
        } else {
            SEL_TEXT
        }
    }

    /// The position that an index argument asks for: -1 the caret, past the end the
    /// end.
    pub open spec fn asked_position(self, index: u32) -> int {
        if index == u32::MAX {
            self.caret
        } else if index > self.text.len() {
            self.text.len() as int
        } else {
            index as int
        }
    }

    /// The start of the line that a line argument asks for: -1 the caret's line.
    pub open spec fn asked_line_start(self, line: u32) -> Option<int> {
        if line == u32::MAX {
            Some(lines::line_start(self.text, self.caret))
        } else {
            lines::line_begin(self.text, line as nat)
        }
    }

    /// The length of the line that an index argument asks for.
    pub open spec fn asked_line_length(self, index: u32) -> int {
        if index != u32::MAX && index > self.text.len() {
            0
        } else {
            let at = self.asked_position(index);
            lines::line_end(self.text, at) - lines::line_start(self.text, at)
        }
    }

    /// The characters of a line, without its line break.
    pub open spec fn line_chars(self, line: nat) -> Option<Seq<char>> {
        match lines::line_begin(self.text, line) {
            Some(start) => Some(self.text.subrange(start, lines::line_end(self.text, start))),
            None => None,
        }
    }
}

/// An edit is undone exactly: text, caret and selection come back, and the buffer
/// is used up, so that a second undo does nothing.
pub proof fn undo_reverts_an_edit(edit: EditModel, lo: int, hi: int, chars: Seq<char>)
    requires
        edit.wf(),
        0 <= lo <= hi <= edit.text.len(),
    ensures
        edit.replaced(lo, hi, chars).wf(),
        edit.replaced(lo, hi, chars).undone().snapshot() == edit.snapshot(),
        edit.replaced(lo, hi, chars).undone().undo is None,
        edit.replaced(lo, hi, chars).undone().undone() == edit.replaced(lo, hi, chars).undone(),
{
}

/// Typing and pasting never take a text past its limit, and what replaces the
/// selection is cut at the limit, not dropped.
pub proof fn limit_is_kept(edit: EditModel, c: char, chars: Seq<char>)
    requires
        edit.wf(),
        edit.text.len() <= edit.limit,
    ensures
        edit.with_char(c).text.len() <= edit.limit,
        edit.with_selection_replaced(chars).text.len() <= edit.limit,
        chars.len() >= edit.room() && edit.room() > 0 ==> edit.with_selection_replaced(chars).text.len() == edit.limit,
{
}

/// Deleting the selection and pasting it back gives the text back.
pub proof fn cut_and_paste_restores(edit: EditModel)
    requires
        edit.wf(),
        edit.text.len() <= edit.limit,
        edit.sel_start < edit.sel_end,
    ensures
        ({
            let cut = edit.replaced(edit.sel_start, edit.sel_end, Seq::empty());
            &&& cut.text.len() == edit.text.len() - (edit.sel_end - edit.sel_start)
            &&& cut.with_selection_replaced(edit.selected()).text == edit.text
            &&& cut.with_selection_replaced(edit.selected()).caret == edit.sel_end
        }),
{
    let cut = edit.replaced(edit.sel_start, edit.sel_end, Seq::empty());
    assert(cut.text =~= edit.text.take(edit.sel_start) + edit.text.skip(edit.sel_end));
    assert(cut.text.take(edit.sel_start) =~= edit.text.take(edit.sel_start));
    assert(cut.text.skip(edit.sel_start) =~= edit.text.skip(edit.sel_end));
    assert(cut.with_selection_replaced(edit.selected()).text =~= edit.text);
}

/// Extending a selection and coming back to where it began collapses it: the other
/// end stays put while the caret moves.
pub proof fn extending_back_collapses(edit: EditModel, to: int, goal: Option<int>)
    requires
        edit.wf(),
        edit.sel_start == edit.sel_end,
        0 <= to <= edit.text.len(),
    ensures
        ({
            let out = edit.with_caret(to, true, goal);
            &&& out.caret == to
            &&& out.sel_start <= edit.caret <= out.sel_end
            &&& out.sel_start == edit.caret || out.sel_end == edit.caret
            &&& out.with_caret(edit.caret, true, goal).sel_start == edit.caret
            &&& out.with_caret(edit.caret, true, goal).sel_end == edit.caret
        }),
{
}

/// A vertical move lands on the line it aims at, at the aimed column or at the end
/// of a shorter line, and remembers the column.
pub proof fn vertical_moves_keep_the_column(edit: EditModel, down: bool, count: int)
    requires
        edit.wf(),
        count >= 1,
        edit.vertical_target(down, count) is Some,
    ensures
        ({
            let to = edit.vertical_target(down, count)->0;
            let start = lines::line_start(edit.text, to);
            &&& 0 <= to <= edit.text.len()
            &&& lines::line_of(edit.text, to) != lines::line_of(edit.text, edit.caret)
            &&& to - start <= edit.aim()
            &&& to - start == edit.aim() || to == lines::line_end(edit.text, to)
            &&& edit.with_caret(to, false, Some(edit.aim())).aim() == edit.aim()
        }),
{
    let line = lines::line_of(edit.text, edit.caret) as int;
    let last = lines::line_of(edit.text, edit.text.len() as int) as int;
    lines::line_of_monotone(edit.text, edit.caret, edit.text.len() as int);
    lines::line_bounds(edit.text, edit.caret);
    let target = if down && line + count > last {
        last
    } else if down {
        line + count
    } else if count > line {
        0
    } else {
        line - count
    };
    let start = lines::line_begin(edit.text, target as nat)->0;
    lemma_line_exists(edit.text, 0, target as nat);
    lines::line_bounds(edit.text, start);
    lemma_inside_line(edit.text, start, edit.vertical_target(down, count)->0);
}

/// Every line up to the last begins somewhere, on its own line.
pub(crate) proof fn lemma_line_exists(text: Seq<char>, from: int, n: nat)
    requires
        0 <= from <= text.len(),
        lines::line_start(text, from) == from,
        lines::line_of(text, from) + n <= lines::line_of(text, text.len() as int),
    ensures
        lines::line_begin_from(text, from, n) matches Some(start) && from <= start <= text.len()
            && lines::line_start(text, start) == start && lines::line_of(text, start) == lines::line_of(text, from) + n,
    decreases n,
{
    lines::line_bounds(text, from);
    if n > 0 {
        let end = lines::line_end(text, from);
        if end < text.len() {
            lemma_line_exists(text, end + 1, (n - 1) as nat);
        }
    }
}

/// Positions between the start and the end of a line are on that line.
pub(crate) proof fn lemma_inside_line(text: Seq<char>, start: int, index: int)
    requires
        0 <= start <= index <= lines::line_end(text, start),
        start <= text.len(),
        lines::line_start(text, start) == start,
    ensures
        lines::line_of(text, index) == lines::line_of(text, start),
        lines::line_start(text, index) == start,
        lines::line_end(text, index) == lines::line_end(text, start),
    decreases index - start,
{
    lines::line_bounds(text, start);
    if start < index {
        lemma_inside_line(text, start, index - 1);
        assert(text[index - 1] != '\n');
    }
}

/// Text, caret and selection as they were before an edit.
#[derive(Debug, Clone)]
pub struct EditSnapshot {
    text: Vec<char>,
    caret: usize,
    sel_start: usize,
    sel_end: usize,
}

impl View for EditSnapshot {
    type V = SnapshotModel;

    closed spec fn view(&self) -> SnapshotModel {
        SnapshotModel {
            text: self.text@,
            caret: self.caret as int,
            sel_start: self.sel_start as int,
            sel_end: self.sel_end as int,
        }
    }
}

/// The state of an EDIT control.
#[derive(Debug, Clone)]
pub struct EditState {
    text: Vec<char>,
    caret: usize,
    sel_start: usize,
    sel_end: usize,
    goal: Option<usize>,
    limit: usize,
    modified: bool,
    first_line: usize,
    first_column: usize,
    tab_stops: Vec<u16>,
    undo: Option<EditSnapshot>,
    thumb: Option<i32>,
}

impl View for EditState {
    type V = EditModel;

    closed spec fn view(&self) -> EditModel {
        EditModel {
            text: self.text@,
            caret: self.caret as int,
            sel_start: self.sel_start as int,
            sel_end: self.sel_end as int,
            goal: match self.goal {
                Some(goal) => Some(goal as int),
                None => None,
            },
            limit: self.limit as int,
            modified: self.modified,
            first_line: self.first_line as int,
            first_column: self.first_column as int,
            tab_stops: self.tab_stops@,
            undo: match self.undo {
                Some(snapshot) => Some(snapshot@),
                None => None,
            },
            thumb: match self.thumb {
                Some(grab) => Some(grab as int),
                None => None,
            },
        }
    }
}

/// `text` with characters `lo..hi` replaced.
fn splice(text: &[char], lo: usize, hi: usize, chars: &[char]) -> (result: Vec<char>)
    requires
        lo <= hi <= text@.len(),
    ensures
        result@ == text@.take(lo as int) + chars@ + text@.skip(hi as int),
{
    let mut result: Vec<char> = layout::copy_range(text, 0, lo);
    assert(result@ =~= text@.take(lo as int));
    let mut i: usize = 0;
    while i < chars.len()
        invariant
            i <= chars@.len(),
            lo <= text@.len(),
            result@ == text@.take(lo as int) + chars@.take(i as int),
        decreases chars@.len() - i,
    {
        result.push(chars[i]);
        i = i + 1;
        assert(result@ =~= text@.take(lo as int) + chars@.take(i as int));
    }
    assert(chars@.take(i as int) =~= chars@);
    let mut j: usize = hi;
    assert(result@ =~= text@.take(lo as int) + chars@ + text@.subrange(hi as int, hi as int));
    while j < text.len()
        invariant
            hi <= j <= text@.len(),
            lo <= hi,
            result@ == text@.take(lo as int) + chars@ + text@.subrange(hi as int, j as int),
        decreases text@.len() - j,
    {
        result.push(text[j]);
        j = j + 1;
        assert(result@ =~= text@.take(lo as int) + chars@ + text@.subrange(hi as int, j as int));
    }
    assert(text@.subrange(hi as int, j as int) =~= text@.skip(hi as int));
    result
}

impl EditState {
    /// A control that was just created with a text.
    pub fn new(text: Vec<char>) -> (edit: Self)
        ensures
            edit@ == EditModel::fresh(text@),
            edit@.wf(),
    {
        let edit = EditState {
            text,
            caret: 0,
            sel_start: 0,
            sel_end: 0,
            goal: None,
            limit: DEFAULT_LIMIT,
            modified: false,
            first_line: 0,
            first_column: 0,
            tab_stops: Vec::new(),
            undo: None,
            thumb: None,
        };
        assert(edit@ =~= EditModel::fresh(text@));
        edit
    }

    /// The text.
    pub fn text(&self) -> (text: &Vec<char>)
        ensures
            text@ == self@.text,
    {
        &self.text
    }

    /// The caret position.
    pub fn caret(&self) -> (caret: usize)
        ensures
            caret == self@.caret,
    {
        self.caret
    }

    /// Start and end of the selection.
    pub fn selection(&self) -> (range: (usize, usize))
        ensures
            range.0 == self@.sel_start,
            range.1 == self@.sel_end,
    {
        (self.sel_start, self.sel_end)
    }

    /// The column that vertical moves aim at, where one is remembered.
    pub fn goal_column(&self) -> (goal: Option<usize>)
        ensures
            match goal {
                Some(g) => self@.goal == Some(g as int),
                None => self@.goal is None,
            },
    {
        self.goal
    }

    /// The text limit.
    pub fn limit(&self) -> (limit: usize)
        ensures
            limit == self@.limit,
    {
        self.limit
    }

    /// Whether the text was changed by the user.
    pub fn modified(&self) -> (modified: bool)
        ensures
            modified == self@.modified,
    {
        self.modified
    }

    /// The first visual row shown.
    pub fn first_visible_line(&self) -> (first: usize)
        ensures
            first == self@.first_line,
    {
        self.first_line
    }

    /// The horizontal scroll offset in pixels.
    pub fn first_visible_column(&self) -> (first: usize)
        ensures
            first == self@.first_column,
    {
        self.first_column
    }

    /// The tab stops in dialog units, empty for the default ones.
    pub fn tab_stops(&self) -> (stops: &Vec<u16>)
        ensures
            stops@ == self@.tab_stops,
    {
        &self.tab_stops
    }

    /// Whether there is an edit to undo.
    pub fn can_undo(&self) -> (can: bool)
        ensures
            can == (self@.undo is Some),
    {
        self.undo.is_some()
    }

    fn replace(&mut self, lo: usize, hi: usize, chars: &[char])
        requires
            old(self)@.wf(),
            lo <= hi <= old(self)@.text.len(),
            lo + chars@.len() <= usize::MAX,
        ensures
            final(self)@ == old(self)@.replaced(lo as int, hi as int, chars@),
            final(self)@.wf(),
    {
        let mut text = splice(&self.text, lo, hi, chars);
        core::mem::swap(&mut text, &mut self.text);
        self.undo = Some(
            EditSnapshot { text, caret: self.caret, sel_start: self.sel_start, sel_end: self.sel_end },
        );
        let caret: usize = lo + chars.len();
        self.caret = caret;
        self.sel_start = caret;
        self.sel_end = caret;
        self.goal = None;
        self.modified = true;
        assert(self@ =~= old(self)@.replaced(lo as int, hi as int, chars@));
    }

    fn remaining_room(&self) -> (room: usize)
        requires
            self@.wf(),
        ensures
            room == self@.room(),
    {
        let kept: usize = self.text.len() - (self.sel_end - self.sel_start);
        if self.limit > kept {
            self.limit - kept
        } else {
            0
        }
    }

    /// Replace the selection, as far as the limit leaves room. Answers whether
    /// anything changed.
    pub fn replace_selection(&mut self, chars: &[char]) -> (changed: bool)
        requires
            old(self)@.wf(),
        ensures
            final(self)@ == old(self)@.with_selection_replaced(chars@),
            final(self)@.wf(),
            changed == (old(self)@.sel_start < old(self)@.sel_end || chars@.len() > 0 && old(self)@.room() > 0),
    {
        let room: usize = self.remaining_room();
        let lo: usize = self.sel_start;
        let hi: usize = self.sel_end;
        if chars.len() <= room {
            if lo == hi && chars.len() == 0 {
                return false;
            }
            self.replace(lo, hi, chars);
        } else {
            if lo == hi && room == 0 {
                assert(chars@.take(0).len() == 0);
                return false;
            }
            let fitting = layout::copy_range(chars, 0, room);
            assert(fitting@ =~= chars@.take(room as int));
            self.replace(lo, hi, &fitting);
        }
        true
    }

    fn insert_char(&mut self, c: char) -> (changed: bool)
        requires
            old(self)@.wf(),
        ensures
            final(self)@ == old(self)@.with_char(c),
            final(self)@.wf(),
            changed == (old(self)@.room() >= 1),
    {
        if self.remaining_room() == 0 {
            return false;
        }
        let mut chars: Vec<char> = Vec::new();
        chars.push(c);
        assert(chars@ =~= seq![c]);
        self.replace(self.sel_start, self.sel_end, &chars);
        true
    }

    fn backspace(&mut self) -> (changed: bool)
        requires
            old(self)@.wf(),
        ensures
            final(self)@ == old(self)@.with_backspace(),
            final(self)@.wf(),
            changed == (old(self)@.sel_start < old(self)@.sel_end || old(self)@.caret > 0),
    {
        let none: Vec<char> = Vec::new();
        assert(none@ =~= Seq::<char>::empty());
        if self.sel_start < self.sel_end {
            self.replace(self.sel_start, self.sel_end, &none);
            true
        } else if self.caret > 0 {
            self.replace(self.caret - 1, self.caret, &none);
            true
        } else {
            false
        }
    }

    /// Delete the selection, or else the character after the caret. Answers whether
    /// anything changed.
    pub fn delete_forward(&mut self) -> (changed: bool)
        requires
            old(self)@.wf(),
        ensures
            final(self)@ == old(self)@.with_delete(),
            final(self)@.wf(),
            changed == (old(self)@.sel_start < old(self)@.sel_end || old(self)@.caret < old(self)@.text.len()),
    {
        let none: Vec<char> = Vec::new();
        assert(none@ =~= Seq::<char>::empty());
        if self.sel_start < self.sel_end {
            self.replace(self.sel_start, self.sel_end, &none);
            true
        } else if self.caret < self.text.len() {
            self.replace(self.caret, self.caret + 1, &none);
            true
        } else {
            false
        }
    }

    /// Delete the selection. Answers whether there was one.
    pub fn delete_selection(&mut self) -> (changed: bool)
        requires
            old(self)@.wf(),
        ensures
            changed == (old(self)@.sel_start < old(self)@.sel_end),
            final(self)@ == if changed {
                old(self)@.replaced(old(self)@.sel_start, old(self)@.sel_end, Seq::empty())
            } else {
                old(self)@
            },
            final(self)@.wf(),
    {
        if self.sel_start == self.sel_end {
            return false;
        }
        let none: Vec<char> = Vec::new();
        assert(none@ =~= Seq::<char>::empty());
        self.replace(self.sel_start, self.sel_end, &none);
        true
    }

    /// Type a character code. Answers whether the text changed.
    pub fn type_char(&mut self, code: u64, multiline: bool) -> (changed: bool)
        requires
            old(self)@.wf(),
        ensures
            final(self)@ == old(self)@.typed(code, multiline),
            final(self)@.wf(),
            changed == old(self)@.typing_changes(code, multiline),
    {
        if code == 0x08 {
            return self.backspace();
        }
        if code == 0x0D {
            if multiline {
                return self.insert_char('\n');
            }
            return false;
        }
        if code < 0x20 || (0x7F <= code && code <= 0x9F) || code > 0x10FFFF {
            return false;
        }
        match char::from_u32(code as u32) {
            Some(c) => {
                assert(c == code as char);
                self.insert_char(c)
            },
            None => false,
        }
    }

    /// The selected characters.
    pub fn selected_text(&self) -> (chars: Vec<char>)
        requires
            self@.wf(),
        ensures
            chars@ == self@.selected(),
    {
        layout::copy_range(&self.text, self.sel_start, self.sel_end)
    }

    /// Undo the last edit. Answers whether there was one.
    pub fn undo(&mut self) -> (changed: bool)
        requires
            old(self)@.wf(),
        ensures
            final(self)@ == old(self)@.undone(),
            final(self)@.wf(),
            changed == (old(self)@.undo is Some),
    {
        let mut taken: Option<EditSnapshot> = None;
        core::mem::swap(&mut taken, &mut self.undo);
        match taken {
            Some(snapshot) => {
                self.text = snapshot.text;
                self.caret = snapshot.caret;
                self.sel_start = snapshot.sel_start;
                self.sel_end = snapshot.sel_end;
                self.goal = None;
                self.modified = true;
                assert(self@ =~= old(self)@.undone());
                true
            },
            None => {
                assert(self@ =~= old(self)@);
                false
            },
        }
    }

    /// Discard what undo would restore.
    pub fn empty_undo_buffer(&mut self)
        requires
            old(self)@.wf(),
        ensures
            final(self)@ == (EditModel { undo: None, ..old(self)@ }),
            final(self)@.wf(),
    {
        self.undo = None;
        assert(self@ =~= (EditModel { undo: None, ..old(self)@ }));
    }

    /// Set a new text.
    pub fn set_text(&mut self, text: Vec<char>)
        requires
            old(self)@.wf(),
        ensures
            final(self)@ == old(self)@.with_text(text@),
            final(self)@.wf(),
    {
        self.text = text;
        self.caret = 0;
        self.sel_start = 0;
        self.sel_end = 0;
        self.goal = None;
        self.modified = false;
        self.first_line = 0;
        self.first_column = 0;
        self.undo = None;
        assert(self@ =~= old(self)@.with_text(text@));
    }

    /// Select characters `start..end`.
    pub fn select(&mut self, start: u32, end: u32)
        requires
            old(self)@.wf(),
        ensures
            final(self)@ == old(self)@.with_selection(start, end),
            final(self)@.wf(),
    {
        self.goal = None;
        if start == u32::MAX {
            self.sel_start = self.caret;
            self.sel_end = self.caret;
        } else {
            let len: usize = self.text.len();
            let a: usize = if start as u64 > len as u64 {
                len
            } else {
                start as usize
            };
            let b: usize = if end as u64 > len as u64 {
                len
            } else {
                end as usize
            };
            if a <= b {
                self.sel_start = a;
                self.sel_end = b;
                self.caret = b;
            } else {
                self.sel_start = b;
                self.sel_end = a;
                self.caret = a;
            }
        }
        assert(self@ =~= old(self)@.with_selection(start, end));
    }

    /// Set the limit of what can be typed or pasted; 0 asks for the largest.
    pub fn set_limit(&mut self, limit: u64)
        requires
            old(self)@.wf(),
        ensures
            final(self)@ == (EditModel {
                limit: if limit == 0 || limit > MAX_LIMIT {
                    MAX_LIMIT as int
                } else {
                    limit as int
                },
                ..old(self)@
            }),
            final(self)@.wf(),
    {
        self.limit = if limit == 0 || limit > MAX_LIMIT as u64 {
            MAX_LIMIT
        } else {
            limit as usize
        };
        assert(self@.undo == old(self)@.undo);
    }

    /// Set the modify flag.
    pub fn set_modified(&mut self, modified: bool)
        requires
            old(self)@.wf(),
        ensures
            final(self)@ == (EditModel { modified, ..old(self)@ }),
            final(self)@.wf(),
    {
        self.modified = modified;
        assert(self@.undo == old(self)@.undo);
    }

    /// Set the tab stops.
    pub fn set_tab_stops(&mut self, stops: Vec<u16>)
        requires
            old(self)@.wf(),
        ensures
            final(self)@ == (EditModel { tab_stops: stops@, ..old(self)@ }),
            final(self)@.wf(),
    {
        self.tab_stops = stops;
        assert(self@.undo == old(self)@.undo);
    }
}

/// Where a control stands: style, client size and font.
#[derive(Debug)]
pub struct EditFrame<'a> {
    pub style: u32,
    pub width: i32,
    pub height: i32,
    /// Whether the window is visible.
    pub shown: bool,
    pub font: &'a FontEngine,
}

impl<'a> EditFrame<'a> {
    /// Whether the control holds several lines.
    pub open spec fn multiline(&self) -> bool {
        self.style & ES_MULTILINE != 0
    }

    /// How many lines a page key moves.
    pub open spec fn page(&self) -> int {
        layout::visible_rows(self.height as int, self.font.line_height as int) as int
    }

    /// The visual rows of a text in this frame.
    pub open spec fn rows(&self, text: Seq<char>) -> Seq<(int, int)> {
        layout::control_rows(
            text,
            self.width as int,
            self.height as int,
            self.font.line_height as int,
            self.style,
            *self.font,
        )
    }

    /// How many rows of a text are shown.
    pub open spec fn visible(&self, text: Seq<char>) -> int {
        layout::page_rows(
            text,
            self.width as int,
            self.height as int,
            self.font.line_height as int,
            self.style,
            *self.font,
        ) as int
    }

    /// The width that the rows of a text are laid out in.
    pub open spec fn column(&self, text: Seq<char>) -> int {
        layout::column_width(
            text,
            self.width as int,
            self.height as int,
            self.font.line_height as int,
            self.style,
            *self.font,
        )
    }

    /// The largest horizontal scroll offset of a text.
    pub open spec fn max_column(&self, text: Seq<char>) -> int {
        let over = layout::widest(text, *self.font) - self.column(text);
        if over <= 0 {
            0
        } else if over > MAX_COLUMN {
            MAX_COLUMN as int
        } else {
            over
        }
    }

    /// The scroll offset nearest to `first` that shows the row of `caret`.
    pub open spec fn revealing(&self, text: Seq<char>, caret: int, first: int) -> int {
        let all = self.rows(text);
        layout::scrolled_to(first, layout::row_of(all, caret, all.len()), self.visible(text))
    }

    /// The length of the vertical scroll bar's track.
    pub open spec fn track(&self, text: Seq<char>) -> int {
        if layout::h_bar_shown(text, self.width as int, self.style, *self.font) {
            layout::saturated(self.height - SCROLL_BAR_SIZE)
        } else {
            self.height as int
        }
    }

    /// Whether a client point lies on the vertical scroll bar.
    pub open spec fn in_gutter(&self, text: Seq<char>, x: int, y: int) -> bool {
        &&& layout::v_gutter(
            text,
            self.width as int,
            self.height as int,
            self.font.line_height as int,
            self.style,
            *self.font,
        )
        &&& self.width - SCROLL_BAR_SIZE <= x < self.width
        &&& 0 <= y < self.track(text)
    }

    /// The last scroll offset of a text.
    pub open spec fn last_offset(&self, text: Seq<char>) -> int {
        layout::max_offset(self.rows(text).len() as int, self.visible(text))
    }

    /// The length of the thumb: the share of the rows that is shown, at least a pixel.
    pub open spec fn thumb_length(&self, text: Seq<char>) -> int {
        let share = self.track(text) * self.visible(text) / (self.rows(text).len() as int);
        if share < 1 {
            1
        } else if share > self.track(text) {
            self.track(text)
        } else {
            share
        }
    }

    /// How far the thumb can travel.
    pub open spec fn travel(&self, text: Seq<char>) -> int {
        self.track(text) - self.thumb_length(text)
    }

    /// Where the thumb starts at a scroll offset.
    pub open spec fn thumb_top(&self, text: Seq<char>, first: int) -> int {
        let last = self.last_offset(text);
        if last <= 0 {
            0
        } else if first > last {
            self.travel(text)
        } else {
            self.travel(text) * first / last
        }
    }

    /// The scroll offset that brings the thumb's start to a place.
    pub open spec fn offset_at(&self, text: Seq<char>, top: int) -> int {
        let travel = self.travel(text);
        if travel <= 0 || top <= 0 {
            0
        } else if top >= travel {
            self.last_offset(text)
        } else {
            top * self.last_offset(text) / travel
        }
    }

    /// The caret position for a client point, at a scroll offset.
    pub open spec fn hit(&self, edit: EditModel, x: int, y: int) -> int {
        layout::hit(
            edit.text,
            x + edit.first_column,
            y,
            HitTestLayout {
                wrap_width: self.column(edit.text) as i32,
                line_height: self.font.line_height,
                first_visible: edit.first_line as usize,
                wrap: layout::wraps(self.style),
                alignment: self.style & 3,
            },
            *self.font,
        )
    }
}

/// The scroll offset after a scroll-bar code, kept within `[0, last]`; a code that
/// does not scroll leaves the offset alone.
pub open spec fn scrolled(code: u16, thumb: int, offset: int, line: int, page: int, last: int) -> int {
    let wanted = if code == 0 {
        offset - line
    } else if code == 1 {
        offset + line
    } else if code == 2 {
        offset - page
    } else if code == 3 {
        offset + page
    } else if code == 4 || code == 5 {
        thumb
    } else if code == 6 {
        0
    } else {
        last
    };
    if code > 7 {
        offset
    } else if wanted < 0 {
        0
    } else if wanted > last {
        last
    } else {
        wanted
    }
}

fn scroll_by_code(code: u16, thumb: u16, offset: usize, line: usize, page: usize, last: usize) -> (result: usize)
    ensures
        result == scrolled(code, thumb as int, offset as int, line as int, page as int, last as int),
{
    let wanted: usize = if code == 0 {
        offset.saturating_sub(line)
    } else if code == 1 {
        offset.saturating_add(line)
    } else if code == 2 {
        offset.saturating_sub(page)
    } else if code == 3 {
        offset.saturating_add(page)
    } else if code == 4 || code == 5 {
        thumb as usize
    } else if code == 6 {
        0
    } else if code == 7 {
        last
    } else {
        return offset;
    };
    if wanted > last {
        last
    } else {
        wanted
    }
}

/// Whether `c` separates words.
pub open spec fn is_space(c: char) -> bool {
    let code = c as int;
    9 <= code <= 13 || code == 0x20 || code == 0x85 || code == 0xA0 || code == 0x1680 || 0x2000 <= code <= 0x200A
        || code == 0x2028 || code == 0x2029 || code == 0x202F || code == 0x205F || code == 0x3000
}

fn separates_words(c: char) -> (space: bool)
    ensures
        space == is_space(c),
{
    let code: u32 = c as u32;
    (9 <= code && code <= 13) || code == 0x20 || code == 0x85 || code == 0xA0 || code == 0x1680 || (0x2000 <= code
        && code <= 0x200A) || code == 0x2028 || code == 0x2029 || code == 0x202F || code == 0x205F || code == 0x3000
}

/// Where the word that ends at or after `index` starts.
pub open spec fn word_start(text: Seq<char>, index: int) -> int
    decreases index,
{
    if index <= 0 || is_space(text[index - 1]) {
        index
    } else {
        word_start(text, index - 1)
    }
}

/// Where the word that starts at or before `index` ends.
pub open spec fn word_end(text: Seq<char>, index: int) -> int
    decreases text.len() - index,
{
    if index >= text.len() || is_space(text[index]) {
        index
    } else {
        word_end(text, index + 1)
    }
}

/// The word at `index`, empty where there is a separator or the text ends.
pub open spec fn word_at(text: Seq<char>, index: int) -> (int, int) {
    if index >= text.len() || is_space(text[index]) {
        (index, index)
    } else {
        (word_start(text, index), word_end(text, index))
    }
}

/// A word contains the position it was looked up at, holds no separator, and
/// cannot be made longer on either side.
pub proof fn words_are_maximal(text: Seq<char>, index: int)
    requires
        0 <= index <= text.len(),
    ensures
        ({
            let (start, end) = word_at(text, index);
            &&& 0 <= start <= index <= end <= text.len()
            &&& forall|k: int| start <= k < end ==> !is_space(#[trigger] text[k])
            &&& start < end && start > 0 ==> is_space(text[start - 1])
            &&& start < end && end < text.len() ==> is_space(text[end])
        }),
{
    lemma_word_start(text, index);
    lemma_word_end(text, index);
}

pub(crate) proof fn lemma_word_start(text: Seq<char>, index: int)
    requires
        0 <= index <= text.len(),
    ensures
        0 <= word_start(text, index) <= index,
        forall|k: int| word_start(text, index) <= k < index ==> !is_space(#[trigger] text[k]),
        word_start(text, index) > 0 ==> is_space(text[word_start(text, index) - 1]),
    decreases index,
{
    if index > 0 && !is_space(text[index - 1]) {
        lemma_word_start(text, index - 1);
    }
}

pub(crate) proof fn lemma_word_end(text: Seq<char>, index: int)
    requires
        0 <= index <= text.len(),
    ensures
        index <= word_end(text, index) <= text.len(),
        forall|k: int| index <= k < word_end(text, index) ==> !is_space(#[trigger] text[k]),
        word_end(text, index) < text.len() ==> is_space(text[word_end(text, index)]),
    decreases text.len() - index,
{
    if index < text.len() && !is_space(text[index]) {
        lemma_word_end(text, index + 1);
    }
}

fn find_word(text: &[char], index: usize) -> (word: (usize, usize))
    requires
        index <= text@.len(),
    ensures
        word.0 == word_at(text@, index as int).0,
        word.1 == word_at(text@, index as int).1,
{
    if index >= text.len() || separates_words(text[index]) {
        return (index, index);
    }
    let mut start: usize = index;
    while start > 0 && !separates_words(text[start - 1])
        invariant
            start <= index <= text@.len(),
            word_start(text@, start as int) == word_start(text@, index as int),
        decreases start,
    {
        start = start - 1;
    }
    let mut end: usize = index;
    while end < text.len() && !separates_words(text[end])
        invariant
            index <= end <= text@.len(),
            word_end(text@, end as int) == word_end(text@, index as int),
        decreases text@.len() - end,
    {
        end = end + 1;
    }
    (start, end)
}

struct ScrollBar {
    track: i32,
    length: i32,
    last: usize,
}

proof fn lemma_product_fits(pixels: int, rows: int)
    requires
        0 <= pixels <= i32::MAX,
        0 <= rows <= u64::MAX,
    ensures
        0 <= pixels * rows <= u128::MAX,
{
    assert(0 <= pixels * rows <= 0x8000_0000 * 0x1_0000_0000_0000_0000) by (nonlinear_arith)
        requires
            0 <= pixels <= 0x8000_0000,
            0 <= rows <= 0x1_0000_0000_0000_0000,
    ;
}

proof fn lemma_share(whole: int, part: int, of: int)
    requires
        0 <= whole,
        0 <= part <= of,
        0 < of,
    ensures
        0 <= whole * part / of <= whole,
        whole * part == part * whole,
        0 <= whole * part <= whole * of,
{
    assert(0 <= whole * part <= whole * of && whole * part == part * whole) by (nonlinear_arith)
        requires
            0 <= whole,
            0 <= part <= of,
    ;
    assert(0 <= whole * part / of <= whole) by (nonlinear_arith)
        requires
            0 <= whole * part <= whole * of,
            0 < of,
    ;
}

impl EditModel {
    /// A dragged thumb stays on the track: the offset is one of the text's, the first
    /// where the thumb is pulled to the start and the last where it is pulled to the end.
    pub proof fn a_dragged_thumb_stays_on_the_track(self, y: int, frame: &EditFrame)
        requires
            self.thumb is Some,
        ensures
            0 <= self.thumb_dragged(y, frame).first_line <= frame.last_offset(self.text),
            y <= self.thumb->0 ==> self.thumb_dragged(y, frame).first_line == 0,
            0 < frame.travel(self.text) <= y - self.thumb->0 ==> self.thumb_dragged(y, frame).first_line
                == frame.last_offset(self.text),
            self.thumb_dragged(y, frame).text == self.text,
            self.thumb_dragged(y, frame).caret == self.caret,
    {
        let top = y - self.thumb->0;
        let travel = frame.travel(self.text);
        let last = frame.last_offset(self.text);
        if 0 < top < travel {
            lemma_share(last, top, travel);
        }
    }
}

impl EditState {
    /// The geometry of the control's text.
    pub fn area(&self, frame: &EditFrame) -> (area: TextArea)
        requires
            self@.wf(),
        ensures
            area.wrap == layout::wraps(frame.style),
            area.wrap_width == frame.column(self@.text),
            area.visible == frame.visible(self@.text),
            area.visible >= 1,
            area.v_scroll_visible == layout::v_gutter(
                self@.text,
                frame.width as int,
                frame.height as int,
                frame.font.line_height as int,
                frame.style,
                *frame.font,
            ),
            area.track == frame.track(self@.text),
            area.visible <= i32::MAX,
            area.total == frame.rows(self@.text).len(),
            area.total >= 1,
            area.caret_row == layout::row_of(frame.rows(self@.text), self@.caret, frame.rows(self@.text).len()),
    {
        layout::edit_text_area(
            &self.text,
            frame.width,
            frame.height,
            frame.font.line_height,
            frame.style,
            self.caret,
            frame.font,
        )
    }

    /// The visual rows of the control's text.
    pub fn rows(&self, frame: &EditFrame) -> (rows: Vec<Row>)
        requires
            self@.wf(),
        ensures
            layout::spans(rows@) == frame.rows(self@.text),
            rows@.len() >= 1,
    {
        let area = self.area(frame);
        layout::lay_out(&self.text, area.wrap_width, area.wrap, frame.font)
    }

    /// Scroll as little as possible to show the caret.
    pub fn scroll_caret(&mut self, frame: &EditFrame)
        requires
            old(self)@.wf(),
        ensures
            final(self)@ == old(self)@.revealed(frame),
            final(self)@.wf(),
    {
        let area = self.area(frame);
        self.first_line = layout::scroll_to_row(self.first_line, area.caret_row, area.visible);
        assert(self@.undo == old(self)@.undo);
        assert(self@ =~= old(self)@.revealed(frame));
    }

    fn move_caret(&mut self, to: usize, extend: bool, goal: Option<usize>)
        requires
            old(self)@.wf(),
            to <= old(self)@.text.len(),
        ensures
            final(self)@ == old(self)@.with_caret(
                to as int,
                extend,
                match goal {
                    Some(g) => Some(g as int),
                    None => None,
                },
            ),
            final(self)@.wf(),
    {
        let anchor: usize = if !extend {
            to
        } else if self.caret == self.sel_start {
            self.sel_end
        } else {
            self.sel_start
        };
        self.caret = to;
        if anchor < to {
            self.sel_start = anchor;
            self.sel_end = to;
        } else {
            self.sel_start = to;
            self.sel_end = anchor;
        }
        self.goal = goal;
        assert(self@.undo == old(self)@.undo);
    }

    fn aimed_column(&self) -> (column: usize)
        requires
            self@.wf(),
        ensures
            column == self@.aim(),
    {
        proof {
            lines::line_bounds(self.text@, self.caret as int);
        }
        match self.goal {
            Some(goal) => goal,
            None => self.caret - lines::start_of_line(&self.text, self.caret),
        }
    }

    fn vertical_move(&self, down: bool, count: usize) -> (to: Option<usize>)
        requires
            self@.wf(),
            count >= 1,
        ensures
            match to {
                Some(t) => self@.vertical_target(down, count as int) == Some(t as int) && t <= self@.text.len(),
                None => self@.vertical_target(down, count as int) is None,
            },
    {
        let line: usize = lines::line_number(&self.text, self.caret);
        let last: usize = lines::line_number(&self.text, self.text.len());
        if down && line >= last {
            return None;
        }
        if !down && line == 0 {
            return None;
        }
        let target: usize = if down {
            if count > last - line {
                last
            } else {
                line + count
            }
        } else if count > line {
            0
        } else {
            line - count
        };
        proof {
            lines::line_of_monotone(self.text@, self.caret as int, self.text@.len() as int);
            lemma_line_exists(self.text@, 0, target as nat);
        }
        match lines::nth_line_start(&self.text, target) {
            Some(start) => {
                let end: usize = lines::end_of_line(&self.text, start);
                let aim: usize = self.aimed_column();
                if aim < end - start {
                    Some(start + aim)
                } else {
                    Some(end)
                }
            },
            None => None,
        }
    }

    /// Move the caret by a navigation key. Answers whether the caret moved, and
    /// whether the move was vertical.
    pub fn navigate(&mut self, vk: u64, shift: bool, ctrl: bool, multiline: bool, page: usize) -> (moved: Option<bool>)
        requires
            old(self)@.wf(),
            page >= 1,
        ensures
            final(self)@ == old(self)@.navigated(vk, shift, ctrl, multiline, page as int),
            final(self)@.wf(),
            moved == old(self)@.move_kind(vk, ctrl, multiline, page as int),
    {
        let before: usize = self.caret;
        let len: usize = self.text.len();
        proof {
            lines::line_bounds(self.text@, self.caret as int);
        }
        let to: Option<(usize, bool)> = if vk == VK_LEFT {
            Some((if before > 0 { before - 1 } else { 0 }, false))
        } else if vk == VK_RIGHT {
            Some((if before < len { before + 1 } else { len }, false))
        } else if vk == VK_HOME {
            Some((if ctrl { 0 } else { lines::start_of_line(&self.text, before) }, ctrl))
        } else if vk == VK_END {
            Some((if ctrl { len } else { lines::end_of_line(&self.text, before) }, ctrl))
        } else if multiline && (vk == VK_UP || vk == VK_DOWN || vk == VK_PRIOR || vk == VK_NEXT) {
            let count: usize = if vk == VK_UP || vk == VK_DOWN {
                1
            } else {
                page
            };
            match self.vertical_move(vk == VK_DOWN || vk == VK_NEXT, count) {
                Some(to) => Some((to, true)),
                None => None,
            }
        } else {
            None
        };
        match to {
            Some((to, vertical)) => {
                let goal: Option<usize> = if vk == VK_UP || vk == VK_DOWN || vk == VK_PRIOR || vk == VK_NEXT {
                    Some(self.aimed_column())
                } else {
                    None
                };
                self.move_caret(to, shift, goal);
                if to == before {
                    None
                } else {
                    Some(vertical)
                }
            },
            None => None,
        }
    }

    /// Scroll vertically by a scroll-bar code. Answers whether the offset moved.
    pub fn scroll_vertically(&mut self, code: u16, thumb: u16, frame: &EditFrame) -> (moved: bool)
        requires
            old(self)@.wf(),
        ensures
            final(self)@ == old(self)@.v_scrolled(code, thumb as int, frame),
            final(self)@.wf(),
            moved == (final(self)@.first_line != old(self)@.first_line),
    {
        let area = self.area(frame);
        let last: usize = if area.total > area.visible {
            area.total - area.visible
        } else {
            0
        };
        let before: usize = self.first_line;
        self.first_line = scroll_by_code(code, thumb, before, 1, area.visible, last);
        assert(self@.undo == old(self)@.undo);
        self.first_line != before
    }

    /// Scroll horizontally by a scroll-bar code. A control that wraps its text does
    /// not scroll.
    pub fn scroll_horizontally(&mut self, code: u16, thumb: u16, frame: &EditFrame)
        requires
            old(self)@.wf(),
        ensures
            final(self)@ == old(self)@.h_scrolled(code, thumb as int, frame),
            final(self)@.wf(),
    {
        let area = self.area(frame);
        if area.wrap {
            return;
        }
        let widest: u128 = layout::widest_line(&self.text, frame.font);
        let over: u128 = if area.wrap_width < 0 {
            widest.saturating_add((-(area.wrap_width as i64)) as u128)
        } else if widest > area.wrap_width as u128 {
            widest - area.wrap_width as u128
        } else {
            0
        };
        let last: usize = if over > MAX_COLUMN as u128 {
            MAX_COLUMN
        } else {
            over as usize
        };
        let page: usize = if area.wrap_width < 0 {
            0
        } else {
            area.wrap_width as usize
        };
        self.first_column = scroll_by_code(code, thumb, self.first_column, CELL_WIDTH as usize, page, last);
        assert(self@.undo == old(self)@.undo);
        assert(frame.max_column(self@.text) == last);
    }

    /// Scroll by the mouse wheel: three lines per notch of 120, up where positive.
    pub fn scroll_by_wheel(&mut self, delta: i16, frame: &EditFrame)
        requires
            old(self)@.wf(),
        ensures
            final(self)@ == old(self)@.wheeled(delta as int, frame),
            final(self)@.wf(),
    {
        let area = self.area(frame);
        let wanted: usize = if delta >= 0 {
            let up: usize = (delta as u16 as usize) / 120 * 3;
            self.first_line.saturating_sub(up)
        } else {
            let down: usize = ((-(delta as i32)) as usize) / 120 * 3;
            self.first_line.saturating_add(down)
        };
        self.first_line = layout::clamp_scroll_offset(wanted, area.total, area.visible);
        assert(self@.undo == old(self)@.undo);
        assert(self@ =~= old(self)@.wheeled(delta as int, frame));
    }

    fn bar(&self, frame: &EditFrame) -> (bar: ScrollBar)
        requires
            self@.wf(),
            frame.track(self@.text) > 0,
        ensures
            bar.track == frame.track(self@.text),
            bar.length == frame.thumb_length(self@.text),
            1 <= bar.length <= bar.track,
            bar.last == frame.last_offset(self@.text),
    {
        let area = self.area(frame);
        let track: i32 = area.track;
        proof {
            lemma_product_fits(track as int, area.visible as int);
        }
        let share: u128 = track as u128 * area.visible as u128 / area.total as u128;
        let length: i32 = if share < 1 {
            1
        } else if share > track as u128 {
            track
        } else {
            share as i32
        };
        let last: usize = if area.total > area.visible {
            area.total - area.visible
        } else {
            0
        };
        ScrollBar { track, length, last }
    }

    /// Whether a client point lies on the vertical scroll bar.
    pub fn on_scroll_bar(&self, x: i32, y: i32, frame: &EditFrame) -> (on: bool)
        requires
            self@.wf(),
        ensures
            on == frame.in_gutter(self@.text, x as int, y as int),
    {
        let area = self.area(frame);
        area.v_scroll_visible && x < frame.width && x as i64 >= frame.width as i64 - SCROLL_BAR_SIZE as i64 && 0 <= y
            && y < area.track
    }

    /// Handle a press on the scroll bar. Answers whether the thumb was grabbed.
    pub fn press_scroll_bar(&mut self, y: i32, frame: &EditFrame) -> (grabbed: bool)
        requires
            old(self)@.wf(),
            0 <= y < frame.track(old(self)@.text),
        ensures
            final(self)@ == old(self)@.gutter_pressed(y as int, frame),
            final(self)@.wf(),
            grabbed == (final(self)@.thumb is Some),
    {
        let bar = self.bar(frame);
        let travel: i32 = bar.track - bar.length;
        let first: usize = self.first_line;
        let top: i32 = if bar.last == 0 {
            0
        } else if first > bar.last {
            travel
        } else {
            proof {
                lemma_share(travel as int, first as int, bar.last as int);
                lemma_product_fits(travel as int, first as int);
            }
            (travel as u128 * first as u128 / bar.last as u128) as i32
        };
        if y < top {
            self.thumb = None;
            self.scroll_vertically(2, 0, frame);
            false
        } else if y - top >= bar.length {
            self.thumb = None;
            self.scroll_vertically(3, 0, frame);
            false
        } else {
            self.thumb = Some(y - top);
            assert(self@.undo == old(self)@.undo);
            assert(self@ =~= old(self)@.gutter_pressed(y as int, frame));
            true
        }
    }

    /// Whether the thumb is being dragged.
    pub fn dragging_thumb(&self) -> (dragging: bool)
        ensures
            dragging == (self@.thumb is Some),
    {
        self.thumb.is_some()
    }

    /// Let the thumb follow the pointer.
    pub fn drag_thumb(&mut self, y: i32, frame: &EditFrame)
        requires
            old(self)@.wf(),
        ensures
            final(self)@ == old(self)@.thumb_dragged(y as int, frame),
            final(self)@.wf(),
    {
        let grab: i32 = match self.thumb {
            Some(grab) => grab,
            None => {
                return;
            },
        };
        let top: i64 = y as i64 - grab as i64;
        let area = self.area(frame);
        if area.track <= 0 || top <= 0 {
            self.first_line = 0;
            assert(self@.undo == old(self)@.undo);
            assert(area.track <= 0 ==> frame.travel(self@.text) <= 0);
            assert(self@ =~= old(self)@.thumb_dragged(y as int, frame));
            return;
        }
        let bar = self.bar(frame);
        let travel: i64 = (bar.track - bar.length) as i64;
        self.first_line = if travel <= 0 {
            0
        } else if top >= travel {
            bar.last
        } else {
            proof {
                lemma_share(bar.last as int, top as int, travel as int);
                lemma_product_fits(top as int, bar.last as int);
            }
            (top as u128 * bar.last as u128 / travel as u128) as usize
        };
        assert(self@.undo == old(self)@.undo);
        assert(self@ =~= old(self)@.thumb_dragged(y as int, frame));
    }

    /// Let go of the thumb.
    pub fn release_thumb(&mut self)
        requires
            old(self)@.wf(),
        ensures
            final(self)@ == (EditModel { thumb: None, ..old(self)@ }),
            final(self)@.wf(),
    {
        self.thumb = None;
        assert(self@.undo == old(self)@.undo);
    }

    /// The caret position for a client point.
    pub fn char_at(&self, x: i32, y: i32, frame: &EditFrame) -> (index: usize)
        requires
            self@.wf(),
        ensures
            index == frame.hit(self@, x as int, y as int),
            index <= self@.text.len(),
    {
        let area = self.area(frame);
        let hit_layout = HitTestLayout {
            wrap_width: area.wrap_width,
            line_height: frame.font.line_height,
            first_visible: self.first_line,
            wrap: area.wrap,
            alignment: frame.style & 3,
        };
        layout::edit_char_index_at_point(&self.text, x as i64 + self.first_column as i64, y, &hit_layout, frame.font)
    }

    /// Put the caret at a client point, extending the selection with `extend`.
    pub fn place_caret(&mut self, x: i32, y: i32, extend: bool, frame: &EditFrame)
        requires
            old(self)@.wf(),
        ensures
            final(self)@ == old(self)@.with_caret(frame.hit(old(self)@, x as int, y as int), extend, None),
            final(self)@.wf(),
    {
        let to: usize = self.char_at(x, y, frame);
        self.move_caret(to, extend, None);
    }

    /// Select the word at a client point.
    pub fn select_word(&mut self, x: i32, y: i32, frame: &EditFrame)
        requires
            old(self)@.wf(),
        ensures
            final(self)@ == old(self)@.with_word(frame.hit(old(self)@, x as int, y as int)),
            final(self)@.wf(),
    {
        let at: usize = self.char_at(x, y, frame);
        let (start, end) = find_word(&self.text, at);
        proof {
            words_are_maximal(self.text@, at as int);
        }
        self.sel_start = start;
        self.sel_end = end;
        self.caret = end;
        self.goal = None;
        assert(self@.undo == old(self)@.undo);
        assert(self@ =~= old(self)@.with_word(at as int));
    }

    /// What kind of selection there is.
    pub fn selection_type(&self) -> (kind: u64)
        requires
            self@.wf(),
        ensures
            kind == self@.selection_kind(),
    {
        if self.sel_start == self.sel_end {
            return SEL_EMPTY;
        }
        let several = self.sel_end - self.sel_start > 1;
        let across = lines::line_number(&self.text, self.sel_start) != lines::line_number(&self.text, self.sel_end - 1);
        proof {
            lines::line_of_monotone(self.text@, self.sel_start as int, self.sel_end - 1);
        }
        if across {
            SEL_TEXT + SEL_MULTICHAR + SEL_MULTILINE
        } else if several {
            SEL_TEXT + SEL_MULTICHAR
        } else {
            SEL_TEXT
        }
    }

    /// The number of lines.
    pub fn line_count(&self) -> (count: u64)
        requires
            self@.wf(),
        ensures
            count == if lines::line_count(self@.text) > u64::MAX {
                u64::MAX as nat
            } else {
                lines::line_count(self@.text)
            },
    {
        let last: usize = lines::line_number(&self.text, self.text.len());
        (last as u64).saturating_add(1)
    }

    /// The line of a position: -1 asks for the caret's, a position past the end is
    /// on the last line.
    pub fn line_from_char(&self, index: u32) -> (line: u64)
        requires
            self@.wf(),
        ensures
            line == lines::line_of(self@.text, self@.asked_position(index)),
    {
        let at: usize = if index == u32::MAX {
            self.caret
        } else if index as u64 > self.text.len() as u64 {
            self.text.len()
        } else {
            index as usize
        };
        lines::line_number(&self.text, at) as u64
    }

    /// The first position of a line: -1 asks for the caret's. A line past the last
    /// has none.
    pub fn line_index(&self, line: u32) -> (start: Option<usize>)
        requires
            self@.wf(),
        ensures
            match start {
                Some(s) => self@.asked_line_start(line) == Some(s as int),
                None => self@.asked_line_start(line) is None,
            },
    {
        if line == u32::MAX {
            Some(lines::start_of_line(&self.text, self.caret))
        } else {
            lines::nth_line_start(&self.text, line as usize)
        }
    }

    /// The length of the line of a position, without its line break: -1 asks for the
    /// caret's line, past the end it is 0.
    pub fn line_length(&self, index: u32) -> (length: usize)
        requires
            self@.wf(),
        ensures
            length == self@.asked_line_length(index),
    {
        if index != u32::MAX && index as u64 > self.text.len() as u64 {
            return 0;
        }
        let at: usize = if index == u32::MAX {
            self.caret
        } else {
            index as usize
        };
        proof {
            lines::line_bounds(self.text@, at as int);
        }
        lines::end_of_line(&self.text, at) - lines::start_of_line(&self.text, at)
    }

    /// The characters of a line, without its line break. A line past the last has
    /// none.
    pub fn line_text(&self, line: usize) -> (chars: Option<Vec<char>>)
        requires
            self@.wf(),
        ensures
            match chars {
                Some(c) => self@.line_chars(line as nat) == Some(c@),
                None => self@.line_chars(line as nat) is None,
            },
    {
        match lines::nth_line_start(&self.text, line) {
            Some(start) => {
                let end: usize = lines::end_of_line(&self.text, start);
                Some(layout::copy_range(&self.text, start, end))
            },
            None => None,
        }
    }
}

} // verus!
