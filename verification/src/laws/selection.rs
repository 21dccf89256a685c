//! How the caret and the selection of an EDIT control move.
use vstd::prelude::*;

use crate::edit;
use crate::edit::{EditFrame, Reply};
use crate::edit_proc;
use crate::lines;

verus! {

/// Whether nothing but the caret, the selection, the aimed column and the scroll offset
/// may differ.
pub open spec fn same_text(before: edit::EditModel, after: edit::EditModel) -> bool {
    &&& after.text == before.text
    &&& after.limit == before.limit
    &&& after.modified == before.modified
    &&& after.undo == before.undo
    &&& after.tab_stops == before.tab_stops
    &&& after.first_column == before.first_column
}

/// Whether the caret stands at a place with nothing selected.
pub open spec fn caret_alone(edit: edit::EditModel, at: int) -> bool {
    edit.caret == at && edit.sel_start == at && edit.sel_end == at
}

/// Whether the selection runs from an end that stays to the caret.
pub open spec fn selects_between(edit: edit::EditModel, anchor: int, caret: int) -> bool {
    &&& edit.caret == caret
    &&& anchor <= caret ==> edit.sel_start == anchor && edit.sel_end == caret
    &&& caret <= anchor ==> edit.sel_start == caret && edit.sel_end == anchor
}

/// The end of the selection that stays while the caret moves.
pub open spec fn other_end(edit: edit::EditModel) -> int {
    edit.sel_start + edit.sel_end - edit.caret
}

/// What moving the caret to a place does to the selection: with Shift the other end
/// stays, without it nothing is selected any more.
pub proof fn moving_the_caret_moves_the_selection(edit: edit::EditModel, to: int, extend: bool, goal: Option<int>)
    requires
        edit.wf(),
    ensures
        same_text(edit, edit.with_caret(to, extend, goal)),
        extend ==> selects_between(edit.with_caret(to, extend, goal), other_end(edit), to),
        !extend ==> caret_alone(edit.with_caret(to, extend, goal), to),
        edit.with_caret(to, extend, goal).first_line == edit.first_line,
{
}

/// Selecting two positions of the text selects what is between them, in either order,
/// with the caret at the upper one. Positions past the end are the end.
pub proof fn selecting_selects_what_is_between(edit: edit::EditModel, start: u32, end: u32)
    requires
        edit.wf(),
        start != u32::MAX,
    ensures
        same_text(edit, edit.with_selection(start, end)),
        start <= end <= edit.text.len() ==> edit.with_selection(start, end).sel_start == start && edit.with_selection(
            start,
            end,
        ).sel_end == end && edit.with_selection(start, end).caret == end,
        end <= start <= edit.text.len() ==> edit.with_selection(start, end).sel_start == end && edit.with_selection(
            start,
            end,
        ).sel_end == start && edit.with_selection(start, end).caret == start,
        end > edit.text.len() && start <= edit.text.len() ==> edit.with_selection(start, end).sel_start == start
            && edit.with_selection(start, end).sel_end == edit.text.len() && edit.with_selection(start, end).caret
            == edit.text.len(),
        start > edit.text.len() && end > edit.text.len() ==> caret_alone(
            edit.with_selection(start, end),
            edit.text.len() as int,
        ),
        edit.text.len() < u32::MAX ==> edit.with_selection(0, u32::MAX).selected() == edit.text,
{
    if edit.text.len() < u32::MAX {
        assert(edit.with_selection(0, u32::MAX).selected() =~= edit.text);
    }
}

/// A start of -1 drops the selection where the caret is.
pub proof fn selecting_from_minus_one_drops_the_selection(edit: edit::EditModel, end: u32)
    ensures
        caret_alone(edit.with_selection(0xFFFF_FFFF, end), edit.caret),
        same_text(edit, edit.with_selection(0xFFFF_FFFF, end)),
{
}

/// Left and Right move by one character and take each other back; at the ends of the
/// text they stay.
pub proof fn left_and_right_move_by_one(edit: edit::EditModel, shift: bool, ctrl: bool, multiline: bool, page: int)
    requires
        edit.wf(),
    ensures
        edit.navigated(0x25, shift, ctrl, multiline, page).caret == if edit.caret > 0 {
            edit.caret - 1
        } else {
            0
        },
        edit.navigated(0x27, shift, ctrl, multiline, page).caret == if edit.caret < edit.text.len() {
            edit.caret + 1
        } else {
            edit.text.len() as int
        },
        edit.caret > 0 ==> edit.move_kind(0x25, ctrl, multiline, page) == Some(false),
        edit.caret < edit.text.len() ==> edit.move_kind(0x27, ctrl, multiline, page) == Some(false),
        edit.caret == 0 ==> edit.move_kind(0x25, ctrl, multiline, page) is None,
        edit.caret == edit.text.len() ==> edit.move_kind(0x27, ctrl, multiline, page) is None,
        edit.caret < edit.text.len() ==> edit.navigated(0x27, shift, ctrl, multiline, page).navigated(
            0x25,
            shift,
            ctrl,
            multiline,
            page,
        ).caret == edit.caret,
{
}

/// Home goes to the first character after the line break before the caret, End to the
/// line break after it; with Ctrl they go to the ends of the text.
pub proof fn home_and_end_go_to_the_ends_of_the_line(
    edit: edit::EditModel,
    shift: bool,
    multiline: bool,
    page: int,
)
    requires
        edit.wf(),
    ensures
        ({
            let home = edit.navigated(0x24, shift, false, multiline, page).caret;
            &&& 0 <= home <= edit.caret
            &&& forall|j: int| home <= j < edit.caret ==> #[trigger] edit.text[j] != '\n'
            &&& home > 0 ==> edit.text[home - 1] == '\n'
        }),
        ({
            let end = edit.navigated(0x23, shift, false, multiline, page).caret;
            &&& edit.caret <= end <= edit.text.len()
            &&& forall|j: int| edit.caret <= j < end ==> #[trigger] edit.text[j] != '\n'
            &&& end < edit.text.len() ==> edit.text[end] == '\n'
        }),
        edit.navigated(0x24, shift, true, multiline, page).caret == 0,
        edit.navigated(0x23, shift, true, multiline, page).caret == edit.text.len(),
{
    lines::line_bounds(edit.text, edit.caret);
}

/// Up, Down, Page Up and Page Down move over lines in their direction, by one or by a
/// page, and stop at the first and the last line. Where there is no line to go to the
/// caret stays, as it always does in a control with one line.
pub proof fn vertical_keys_move_over_lines(edit: edit::EditModel, shift: bool, ctrl: bool, page: int, vk: u64)
    requires
        edit.wf(),
        page >= 1,
        vk == 0x26 || vk == 0x28 || vk == 0x21 || vk == 0x22,
    ensures
        ({
            let line = lines::line_of(edit.text, edit.caret) as int;
            let last = lines::line_of(edit.text, edit.text.len() as int) as int;
            let after = edit.navigated(vk, shift, ctrl, true, page);
            let now = lines::line_of(edit.text, after.caret) as int;
            let by = if vk == 0x26 || vk == 0x28 {
                1
            } else {
                page
            };
            let down = vk == 0x28 || vk == 0x22;
            &&& down && line + by <= last ==> now == line + by
            &&& down && line + by > last ==> now == last
            &&& !down && line >= by ==> now == line - by
            &&& !down && line < by ==> now == 0
            &&& down && line == last || !down && line == 0 ==> after.caret == edit.caret && edit.move_kind(
                vk,
                ctrl,
                true,
                page,
            ) is None
            &&& edit.navigated(vk, shift, ctrl, false, page) == edit
        }),
{
    let line = lines::line_of(edit.text, edit.caret) as int;
    let last = lines::line_of(edit.text, edit.text.len() as int) as int;
    lines::line_of_monotone(edit.text, edit.caret, edit.text.len() as int);
    let down = vk == 0x28 || vk == 0x22;
    let by = if vk == 0x26 || vk == 0x28 {
        1
    } else {
        page
    };
    if !(down && line >= last || !down && line == 0) {
        let target = if down && line + by > last {
            last
        } else if down {
            line + by
        } else if by > line {
            0
        } else {
            line - by
        };
        let start = lines::line_begin(edit.text, target as nat)->0;
        edit::lemma_line_exists(edit.text, 0, target as nat);
        lines::line_bounds(edit.text, start);
        lines::line_bounds(edit.text, edit.caret);
        edit::lemma_inside_line(edit.text, start, edit.vertical_target(down, by)->0);
    }
}

/// Any navigation key with Shift stretches the selection from its other end, and
/// without Shift drops it; no key changes the text.
pub proof fn keys_stretch_or_drop_the_selection(
    edit: edit::EditModel,
    vk: u64,
    shift: bool,
    ctrl: bool,
    multiline: bool,
    page: int,
)
    requires
        edit.wf(),
        edit.key_target(vk, ctrl, multiline, page) is Some,
    ensures
        ({
            let after = edit.navigated(vk, shift, ctrl, multiline, page);
            &&& same_text(edit, after)
            &&& shift ==> selects_between(after, other_end(edit), after.caret)
            &&& !shift ==> caret_alone(after, after.caret)
        }),
{
}

/// A press of the mouse in the text puts the caret under the pointer with nothing
/// selected, takes the mouse and the focus, and leaves the text, the clipboard and
/// guest memory alone.
pub proof fn a_press_puts_the_caret_under_the_pointer(
    edit: edit::EditModel,
    x: i16,
    y: i16,
    wparam: u64,
    lparam: u64,
    world: edit_proc::EditWorld,
    frame: &EditFrame,
)
    requires
        edit.wf(),
        is_point(lparam, x, y),
        !frame.in_gutter(edit.text, x as int, y as int),
    ensures
        edit_proc::edit_outcome(edit, 0x0201, wparam, lparam, world, frame) matches Some(outcome) && {
            &&& caret_alone(outcome.edit, frame.hit(edit, x as int, y as int))
            &&& same_text(edit, outcome.edit)
            &&& outcome.edit.thumb is None
            &&& outcome.capture is Take
            &&& outcome.reply == Reply::Value(0)
            &&& outcome.clip == world.clip
            &&& outcome.memory == world.memory
        },
{
}

/// Whether a message parameter holds a client point: x in the low word, y in the high.
pub open spec fn is_point(lparam: u64, x: i16, y: i16) -> bool {
    &&& lparam % 0x1_0000 == if x < 0 {
        x + 0x1_0000
    } else {
        x as int
    }
    &&& lparam / 0x1_0000 % 0x1_0000 == if y < 0 {
        y + 0x1_0000
    } else {
        y as int
    }
}

/// A drag with the mouse held selects from where the other end is to the pointer; the
/// release gives the mouse back and reports the navigation; without the mouse both are
/// ignored.
pub proof fn a_drag_selects_up_to_the_pointer(
    edit: edit::EditModel,
    x: i16,
    y: i16,
    wparam: u64,
    lparam: u64,
    world: edit_proc::EditWorld,
    frame: &EditFrame,
)
    requires
        edit.wf(),
        edit.thumb is None,
        is_point(lparam, x, y),
    ensures
        edit_proc::edit_outcome(edit, 0x0200, wparam, lparam, world, frame) matches Some(moved) && {
            &&& world.captured ==> selects_between(moved.edit, other_end(edit), frame.hit(edit, x as int, y as int))
            &&& !world.captured ==> moved.edit == edit
            &&& same_text(edit, moved.edit)
            &&& moved.capture is Keep
            &&& moved.reply == Reply::Value(0)
            &&& moved.clip == world.clip
            &&& moved.memory == world.memory
        },
        edit_proc::edit_outcome(edit, 0x0202, wparam, lparam, world, frame) matches Some(up) && {
            &&& up.edit == edit
            &&& world.captured ==> up.capture is Release && up.reply == Reply::Notify(0x0602)
            &&& !world.captured ==> up.capture is Keep && up.reply == Reply::Value(0)
            &&& up.clip == world.clip
            &&& up.memory == world.memory
        },
{
}

/// The word at a position is whole: it holds the position and no separator, and stands
/// between separators or the ends of the text. At a separator it is empty.
pub proof fn words_stand_between_separators(edit: edit::EditModel, at: int)
    requires
        edit.wf(),
        0 <= at <= edit.text.len(),
    ensures
        ({
            let start = edit.with_word(at).sel_start;
            let end = edit.with_word(at).sel_end;
            &&& 0 <= start <= at <= end <= edit.text.len()
            &&& edit.with_word(at).caret == end
            &&& forall|k: int| start <= k < end ==> !separates(#[trigger] edit.text[k])
            &&& at < edit.text.len() && !separates(edit.text[at]) ==> start < end && (start > 0 ==> separates(
                edit.text[start - 1],
            )) && (end < edit.text.len() ==> separates(edit.text[end]))
            &&& same_text(edit, edit.with_word(at))
        }),
{
    edit::words_are_maximal(edit.text, at);
    let (start, end) = edit::word_at(edit.text, at);
    assert forall|c: char| #[trigger] separates(c) == edit::is_space(c) by {}
    assert forall|k: int| start <= k < end implies !separates(#[trigger] edit.text[k]) by {
        assert(!edit::is_space(edit.text[k]));
    }
    if at < edit.text.len() && !separates(edit.text[at]) {
        edit::lemma_word_start(edit.text, at);
        edit::lemma_word_end(edit.text, at);
        assert(edit::word_end(edit.text, at) > at) by {
            reveal_with_fuel(edit::word_end, 2);
            edit::lemma_word_end(edit.text, at + 1);
        }
    }
}

/// A double click selects the word under the pointer.
pub proof fn a_double_click_selects_the_word(
    edit: edit::EditModel,
    x: i16,
    y: i16,
    wparam: u64,
    lparam: u64,
    world: edit_proc::EditWorld,
    frame: &EditFrame,
)
    requires
        edit.wf(),
        is_point(lparam, x, y),
        !frame.in_gutter(edit.text, x as int, y as int),
    ensures
        edit_proc::edit_outcome(edit, 0x0203, wparam, lparam, world, frame) matches Some(outcome) && {
            let word = edit.with_word(frame.hit(edit, x as int, y as int));
            &&& outcome.edit.sel_start == word.sel_start
            &&& outcome.edit.sel_end == word.sel_end
            &&& outcome.edit.caret == word.caret
            &&& same_text(edit, outcome.edit)
            &&& outcome.capture is Take
            &&& outcome.reply == Reply::Value(0)
        },
{
}

/// Whether a character stands between words: Unicode white space.
pub open spec fn separates(c: char) -> bool {
    let code = c as int;
    ||| code == 0x20 || code == 0x09 || code == 0x0A || code == 0x0B || code == 0x0C || code == 0x0D
    ||| code == 0x85 || code == 0xA0 || code == 0x1680 || code == 0x2028 || code == 0x2029 || code == 0x202F
    ||| code == 0x205F || code == 0x3000
    ||| 0x2000 <= code && code < 0x200B
}

/// A key press reaches the caret: where the caret moves, the parent hears of it and the
/// view follows; where it does not, the answer is 0. Keys that are no navigation keys
/// are left to others.
pub proof fn navigation_is_reported(
    edit: edit::EditModel,
    vk: u64,
    lparam: u64,
    world: edit_proc::EditWorld,
    frame: &EditFrame,
)
    requires
        edit.wf(),
        vk != 0x2E,
    ensures
        edit_proc::edit_outcome(edit, 0x0100, vk, lparam, world, frame) matches Some(outcome) && {
            let multiline = frame.style & 4 != 0;
            let moved = edit.navigated(vk, world.keys.shift, world.keys.ctrl, multiline, frame.page());
            &&& outcome.clip == world.clip
            &&& outcome.memory == world.memory
            &&& outcome.capture is Keep
            &&& same_text(edit, outcome.edit)
            &&& 0x21 <= vk <= 0x28 ==> outcome.edit.caret == moved.caret && outcome.edit.sel_start == moved.sel_start
                && outcome.edit.sel_end == moved.sel_end
            &&& 0x21 <= vk <= 0x28 && moved.caret == edit.caret ==> outcome.reply == Reply::Value(0)
            &&& (vk == 0x25 || vk == 0x27) && moved.caret != edit.caret ==> outcome.reply == Reply::Notify(0x0601)
            &&& (vk == 0x26 || vk == 0x28 || vk == 0x21 || vk == 0x22) && moved.caret != edit.caret ==> outcome.reply
                == Reply::Notify(0x0602)
            &&& (vk == 0x23 || vk == 0x24) && moved.caret != edit.caret ==> outcome.reply == Reply::Notify(
                if world.keys.ctrl {
                    0x0602
                } else {
                    0x0601
                },
            )
            &&& !(0x21 <= vk <= 0x28) ==> outcome.edit == edit && outcome.reply is Unhandled
        },
{
}

/// The first of several vertical moves keeps to the column where the caret stands: on a
/// line that is long enough it lands in the same column, on a shorter one at its end.
/// The column is remembered for the next, and forgotten by every other key.
pub proof fn vertical_keys_keep_to_the_column(
    edit: edit::EditModel,
    shift: bool,
    ctrl: bool,
    page: int,
    vk: u64,
    start: int,
)
    requires
        edit.wf(),
        page >= 1,
        edit.goal is None,
        vk == 0x26 || vk == 0x28 || vk == 0x21 || vk == 0x22,
        edit.move_kind(vk, ctrl, true, page) is Some,
        0 <= start <= edit.caret,
        start > 0 ==> edit.text[start - 1] == '\n',
        forall|j: int| start <= j < edit.caret ==> #[trigger] edit.text[j] != '\n',
    ensures
        ({
            let after = edit.navigated(vk, shift, ctrl, true, page);
            let column = edit.caret - start;
            let landed = after.caret - lines::line_start(edit.text, after.caret);
            &&& after.goal == Some(column)
            &&& landed == column || landed < column && (after.caret == edit.text.len() || edit.text[after.caret] == '\n')
        }),
{
    lines::line_bounds(edit.text, edit.caret);
    let s = lines::line_start(edit.text, edit.caret);
    if s < start {
        assert(edit.text[start - 1] == '\n');
    }
    if s > start {
        assert(edit.text[s - 1] != '\n');
    }
    let down = vk == 0x28 || vk == 0x22;
    let by = if vk == 0x26 || vk == 0x28 {
        1
    } else {
        page
    };
    edit::vertical_moves_keep_the_column(edit, down, by);
    let to = edit.vertical_target(down, by)->0;
    lines::line_bounds(edit.text, to);
}

/// A remembered column is the one that later vertical moves keep to; moves along the
/// line, clicks and changes of the text forget it.
pub proof fn columns_are_remembered_and_forgotten(
    edit: edit::EditModel,
    vk: u64,
    shift: bool,
    ctrl: bool,
    multiline: bool,
    page: int,
    column: int,
)
    requires
        edit.wf(),
        edit.goal == Some(column),
    ensures
        edit.aim() == column,
        (vk == 0x26 || vk == 0x28 || vk == 0x21 || vk == 0x22) && edit.key_target(vk, ctrl, multiline, page) is Some
            ==> edit.navigated(vk, shift, ctrl, multiline, page).goal == Some(column),
        vk == 0x23 || vk == 0x24 || vk == 0x25 || vk == 0x27 ==> edit.navigated(vk, shift, ctrl, multiline, page).goal
            is None,
        edit.typed(0x41, multiline).goal is None || edit.typed(0x41, multiline) == edit,
        edit.with_selection(0, 0).goal is None,
        edit.with_caret(0, false, None).goal is None,
{
}

} // verus!
