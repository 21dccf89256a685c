//! What an EDIT control answers about its text.
use vstd::prelude::*;

use crate::controls;
use crate::cpu;
use crate::edit;
use crate::edit::{EditFrame, Reply};
use crate::edit_proc;
use crate::laws::memory;
use crate::lines;
use crate::text;

verus! {

/// How many line breaks a text holds.
pub open spec fn breaks(text: Seq<char>) -> nat {
    text.filter(|c: char| c == '\n').len()
}

/// The line of a position is the number of line breaks before it.
pub proof fn lines_are_counted_by_their_breaks(text: Seq<char>, index: int)
    requires
        0 <= index <= text.len(),
    ensures
        lines::line_of(text, index) == breaks(text.take(index)),
        lines::line_count(text) == breaks(text) + 1,
    decreases index,
{
    reveal(Seq::filter);
    if index > 0 {
        lines_are_counted_by_their_breaks(text, index - 1);
        assert(text.take(index).drop_last() =~= text.take(index - 1));
        assert(text.take(index).last() == text[index - 1]);
    }
    if index < text.len() {
        lemma_breaks(text, text.len() as int);
    }
    assert(text.take(text.len() as int) =~= text);
}

proof fn lemma_breaks(text: Seq<char>, index: int)
    requires
        0 <= index <= text.len(),
    ensures
        lines::line_of(text, index) == breaks(text.take(index)),
    decreases index,
{
    reveal(Seq::filter);
    if index > 0 {
        lemma_breaks(text, index - 1);
        assert(text.take(index).drop_last() =~= text.take(index - 1));
        assert(text.take(index).last() == text[index - 1]);
    }
}

/// Whether a message only asked: nothing but guest memory may have changed.
pub open spec fn only_asked(edit: edit::EditModel, world: edit_proc::EditWorld, outcome: edit_proc::EditOutcome) -> bool {
    outcome.edit == edit && outcome.clip == world.clip && outcome.capture is Keep
}

/// The number of lines is one more than that of the line breaks, the line of a
/// character is the number of line breaks before it, and the answer to -1 is for the
/// caret.
pub proof fn line_numbers_are_answered(
    edit: edit::EditModel,
    index: u32,
    lparam: u64,
    world: edit_proc::EditWorld,
    frame: &EditFrame,
)
    requires
        edit.wf(),
        edit.text.len() < u64::MAX,
    ensures
        edit_proc::edit_outcome(edit, 0x00BA, 0, lparam, world, frame) matches Some(count) && only_asked(edit, world, count)
            && count.reply == Reply::Value((breaks(edit.text) + 1) as u64) && count.memory == world.memory,
        edit_proc::edit_outcome(edit, 0x00C9, index as u64, lparam, world, frame) matches Some(line) && {
            &&& only_asked(edit, world, line)
            &&& line.memory == world.memory
            &&& index <= edit.text.len() && index != u32::MAX ==> line.reply == Reply::Value(
                breaks(edit.text.take(index as int)) as u64,
            )
            &&& index == u32::MAX ==> line.reply == Reply::Value(breaks(edit.text.take(edit.caret)) as u64)
            &&& edit.text.len() < index < u32::MAX ==> line.reply == Reply::Value(breaks(edit.text) as u64)
        },
{
    lines_are_counted_by_their_breaks(edit.text, edit.text.len() as int);
    lines_are_counted_by_their_breaks(edit.text, edit.caret);
    lines::line_of_monotone(edit.text, 0, edit.text.len() as int);
    assert(edit.text.take(edit.text.len() as int) =~= edit.text);
    if index <= edit.text.len() {
        lines_are_counted_by_their_breaks(edit.text, index as int);
    }
}

/// The start of a line is answered by its number: the position right after its earlier
/// line break, with as many line breaks before it as the number says.
pub proof fn line_starts_are_answered(
    edit: edit::EditModel,
    line: u32,
    lparam: u64,
    world: edit_proc::EditWorld,
    frame: &EditFrame,
    start: int,
)
    requires
        edit.text.len() < u32::MAX,
        0 <= start <= edit.text.len(),
        start > 0 ==> edit.text[start - 1] == '\n',
        breaks(edit.text.take(start)) == line,
    ensures
        edit_proc::edit_outcome(edit, 0x00BB, line as u64, lparam, world, frame) matches Some(found) && only_asked(
            edit,
            world,
            found,
        ) && found.memory == world.memory && found.reply == Reply::Value(start as u64),
{
    lines_are_counted_by_their_breaks(edit.text, start);
    lines::line_lookup(edit.text, start);
    lines::line_of_monotone(edit.text, 0, start);
    assert(lines::line_start(edit.text, start) == start);
    assert(edit.asked_line_start(line) == Some(start));
}

/// A line that does not exist is answered with -1, and the line -1 is the caret's.
pub proof fn missing_lines_are_answered_with_minus_one(
    edit: edit::EditModel,
    lparam: u64,
    world: edit_proc::EditWorld,
    frame: &EditFrame,
)
    requires
        edit.wf(),
        edit.text.len() < u32::MAX - 1,
    ensures
        edit_proc::edit_outcome(edit, 0x00BB, (breaks(edit.text) + 1) as u64, lparam, world, frame) matches Some(none)
            && none.reply == Reply::Value(u64::MAX),
        edit_proc::edit_outcome(edit, 0x00BB, 0xFFFF_FFFF, lparam, world, frame) matches Some(own) && own.reply
            == Reply::Value(lines::line_start(edit.text, edit.caret) as u64),
{
    lines_are_counted_by_their_breaks(edit.text, edit.text.len() as int);
    assert(edit.text.take(edit.text.len() as int) =~= edit.text);
    lines::line_lookup(edit.text, 0);
    lines::line_of_monotone(edit.text, 0, edit.text.len() as int);
    assert(edit.asked_line_start((breaks(edit.text) + 1) as u32) is None);
}

/// The length of the line of a character counts what stands between its two line breaks.
pub proof fn line_lengths_are_answered(
    edit: edit::EditModel,
    index: u32,
    lparam: u64,
    world: edit_proc::EditWorld,
    frame: &EditFrame,
    start: int,
    end: int,
)
    requires
        edit.wf(),
        edit.text.len() < u32::MAX,
        0 <= start <= index <= end <= edit.text.len(),
        start > 0 ==> edit.text[start - 1] == '\n',
        end < edit.text.len() ==> edit.text[end] == '\n',
        forall|j: int| start <= j < end ==> #[trigger] edit.text[j] != '\n',
    ensures
        edit_proc::edit_outcome(edit, 0x00C1, index as u64, lparam, world, frame) matches Some(found) && only_asked(
            edit,
            world,
            found,
        ) && found.memory == world.memory && found.reply == Reply::Value((end - start) as u64),
{
    lines::line_bounds(edit.text, index as int);
    let s = lines::line_start(edit.text, index as int);
    let e = lines::line_end(edit.text, index as int);
    if s < start {
        assert(edit.text[start - 1] == '\n');
    }
    if s > start {
        assert(edit.text[s - 1] != '\n');
    }
    if e > end {
        assert(edit.text[end] == '\n');
    }
    if e < end {
        assert(edit.text[e] != '\n');
    }
}

/// The selection is answered with its start in the low word and its end in the high
/// one, and both are written in full where the parameters point.
pub proof fn the_selection_is_answered(
    edit: edit::EditModel,
    wparam: u64,
    lparam: u64,
    world: edit_proc::EditWorld,
    frame: &EditFrame,
)
    requires
        edit.wf(),
        edit.text.len() < 0x1_0000_0000,
        wparam != 0 ==> cpu::mapped(world.memory, wparam as int, 4),
        lparam != 0 ==> cpu::mapped(world.memory, lparam as int, 4),
        wparam == 0 || lparam == 0 || wparam + 4 <= lparam || lparam + 4 <= wparam,
    ensures
        edit_proc::edit_outcome(edit, 0x00B0, wparam, lparam, world, frame) matches Some(found) && {
            &&& only_asked(edit, world, found)
            &&& found.reply matches Reply::Value(both) && both % 0x1_0000 == edit.sel_start % 0x1_0000 && both / 0x1_0000
                == edit.sel_end % 0x1_0000
            &&& wparam != 0 ==> cpu::le_value(cpu::load(found.memory, wparam as int, 4)) == edit.sel_start
            &&& lparam != 0 ==> cpu::le_value(cpu::load(found.memory, lparam as int, 4)) == edit.sel_end
            &&& wparam == 0 && lparam == 0 ==> found.memory == world.memory
        },
{
    assert(cpu::pow256(4) == 0x1_0000_0000) by {
        reveal_with_fuel(cpu::pow256, 5);
    }
    let start = cpu::le_bytes((edit.sel_start % 0x1_0000_0000) as nat, 4);
    let end = cpu::le_bytes((edit.sel_end % 0x1_0000_0000) as nat, 4);
    cpu::le_round_trip((edit.sel_start % 0x1_0000_0000) as nat, 4);
    cpu::le_round_trip((edit.sel_end % 0x1_0000_0000) as nat, 4);
    let first = if wparam != 0 {
        cpu::store(world.memory, wparam as int, start)
    } else {
        world.memory
    };
    let second = if lparam != 0 {
        cpu::store(first, lparam as int, end)
    } else {
        first
    };
    if wparam != 0 {
        memory::written_bytes_are_read_back(world.memory, wparam as int, start, 0);
    }
    if lparam != 0 {
        assert(cpu::mapped(first, lparam as int, 4));
        memory::written_bytes_are_read_back(first, lparam as int, end, 0);
    }
    if wparam != 0 && lparam != 0 {
        assert forall|i: int| 0 <= i < 4 implies #[trigger] second[wparam + i] == first[wparam + i] by {
            assert(world.memory.dom().contains(wparam + i));
        }
        assert(cpu::load(second, wparam as int, 4) =~= cpu::load(first, wparam as int, 4));
    }
}

/// A line is copied to a buffer as bytes with a NUL behind them: as much of it as fits in
/// the size that the buffer's first word names, and the number of bytes is answered.
pub proof fn lines_are_copied_out(
    edit: edit::EditModel,
    line: u64,
    lparam: u64,
    world: edit_proc::EditWorld,
    frame: &EditFrame,
    chars: Seq<char>,
)
    requires
        edit.line_chars(line as nat) == Some(chars),
        cpu::mapped(world.memory, lparam as int, 2),
        world.memory[lparam as int] + 256 * world.memory[lparam + 1] > chars.len(),
        cpu::mapped(world.memory, lparam as int, chars.len() + 1),
    ensures
        edit_proc::edit_outcome(edit, 0x00C4, line, lparam, world, frame) matches Some(found) && {
            &&& only_asked(edit, world, found)
            &&& found.reply == Reply::Value(chars.len() as u64)
            &&& forall|i: int|
                0 <= i < chars.len() ==> (#[trigger] found.memory[lparam + i]) == text::ansi_byte(chars[i])
            &&& found.memory[lparam + chars.len()] == 0
        },
{
    memory::numbers_stand_low_byte_first(world.memory, lparam as int);
    let bytes = edit_proc::line_bytes(chars, chars.len() as int);
    memory::written_bytes_are_read_back(world.memory, lparam as int, bytes, 0);
    let after = cpu::store(world.memory, lparam as int, bytes);
    assert forall|i: int| 0 <= i < bytes.len() implies #[trigger] after[lparam + i] == bytes[i] by {
        assert(world.memory.dom().contains(lparam + i));
    }
}

/// The characters of a line are those between two line breaks.
pub proof fn lines_lie_between_their_breaks(edit: edit::EditModel, line: nat, start: int, end: int)
    requires
        0 <= start <= end <= edit.text.len(),
        start > 0 ==> edit.text[start - 1] == '\n',
        end < edit.text.len() ==> edit.text[end] == '\n',
        forall|j: int| start <= j < end ==> #[trigger] edit.text[j] != '\n',
        breaks(edit.text.take(start)) == line,
    ensures
        edit.line_chars(line) == Some(edit.text.subrange(start, end)),
{
    lines_are_counted_by_their_breaks(edit.text, start);
    lines::line_lookup(edit.text, start);
    lines::line_bounds(edit.text, start);
    let s = lines::line_start(edit.text, start);
    let e = lines::line_end(edit.text, start);
    if s < start {
        assert(edit.text[start - 1] == '\n');
    }
    if e > end {
        assert(edit.text[end] == '\n');
    }
    if e < end {
        assert(edit.text[e] != '\n');
    }
}

/// Where a character stands is answered with its line's top edge, in pixels, where the
/// parameter points; a position that is no character's is answered with 0.
pub proof fn positions_are_answered_by_line(
    edit: edit::EditModel,
    index: u64,
    lparam: u64,
    world: edit_proc::EditWorld,
    frame: &EditFrame,
)
    requires
        edit.wf(),
        cpu::mapped(world.memory, lparam as int, 8),
        0 <= frame.font.line_height,
        breaks(edit.text) * frame.font.line_height <= i32::MAX,
    ensures
        edit_proc::edit_outcome(edit, 0x00D6, index, lparam, world, frame) matches Some(found) && {
            &&& only_asked(edit, world, found)
            &&& index >= edit.text.len() ==> found.reply == Reply::Value(0) && found.memory == world.memory
            &&& index < edit.text.len() ==> {
                &&& found.reply == Reply::Value(1)
                &&& cpu::le_value(cpu::load(found.memory, lparam as int, 4)) == 0
                &&& cpu::le_value(cpu::load(found.memory, lparam + 4, 4)) == breaks(edit.text.take(index as int))
                    * frame.font.line_height
            }
        },
{
    if index < edit.text.len() {
        lines_are_counted_by_their_breaks(edit.text, index as int);
        lines_are_counted_by_their_breaks(edit.text, edit.text.len() as int);
        assert(edit.text.take(edit.text.len() as int) =~= edit.text);
        lines::line_of_monotone(edit.text, index as int, edit.text.len() as int);
        let h = frame.font.line_height as int;
        let line = lines::line_of(edit.text, index as int) as int;
        let last = lines::line_of(edit.text, edit.text.len() as int) as int;
        assert(0 <= line * h <= last * h) by (nonlinear_arith)
            requires
                0 <= line <= last,
                0 <= h,
        ;
        let point = edit_proc::line_point(edit, index as int, frame);
        assert(cpu::pow256(4) == 0x1_0000_0000) by {
            reveal_with_fuel(cpu::pow256, 5);
        }
        reveal_with_fuel(controls::int_bytes, 3);
        cpu::le_round_trip(0, 4);
        cpu::le_round_trip((line * h) as nat, 4);
        let x = cpu::le_bytes(0, 4);
        let y = cpu::le_bytes((line * h) as nat, 4);
        let bytes = controls::int_bytes(point, 2);
        assert(bytes =~= x + y);
        memory::written_bytes_are_read_back(world.memory, lparam as int, bytes, 0);
        let after = cpu::store(world.memory, lparam as int, bytes);
        assert forall|i: int| 0 <= i < 8 implies #[trigger] after[lparam + i] == bytes[i] by {
            assert(world.memory.dom().contains(lparam + i));
        }
        assert(cpu::load(after, lparam as int, 4) =~= x);
        assert(cpu::load(after, lparam + 4, 4) =~= y);
    }
}

/// The kind of a selection: none, one character, more than one, or more than one line.
pub proof fn selections_are_classified(edit: edit::EditModel, world: edit_proc::EditWorld, frame: &EditFrame)
    requires
        edit.wf(),
    ensures
        edit_proc::edit_outcome(edit, 0x0442, 0, 0, world, frame) matches Some(found) && {
            let several_lines = edit.sel_start < edit.sel_end && breaks(edit.text.take(edit.sel_start)) != breaks(
                edit.text.take(edit.sel_end - 1),
            );
            &&& only_asked(edit, world, found)
            &&& edit.sel_start == edit.sel_end ==> found.reply == Reply::Value(0)
            &&& several_lines ==> found.reply == Reply::Value(0x15)
            &&& !several_lines && edit.sel_end == edit.sel_start + 1 ==> found.reply == Reply::Value(1)
            &&& !several_lines && edit.sel_end > edit.sel_start + 1 ==> found.reply == Reply::Value(5)
        },
{
    if edit.sel_start < edit.sel_end {
        lines_are_counted_by_their_breaks(edit.text, edit.sel_start);
        lines_are_counted_by_their_breaks(edit.text, edit.sel_end - 1);
    }
}

/// The first visible row, a scroll to the caret and the selection on request do what they
/// say.
pub proof fn the_view_is_answered_and_moved(
    edit: edit::EditModel,
    start: u32,
    end: u32,
    world: edit_proc::EditWorld,
    frame: &EditFrame,
)
    ensures
        edit_proc::edit_outcome(edit, 0x00CE, 0, 0, world, frame) matches Some(first) && only_asked(edit, world, first)
            && first.reply == Reply::Value(edit.first_line as u64),
        edit_proc::edit_outcome(edit, 0x00B7, 0, 0, world, frame) matches Some(shown) && shown.edit == edit.revealed(frame)
            && shown.reply == Reply::Value(1),
        edit_proc::edit_outcome(edit, 0x00B1, start as u64, end as u64, world, frame) matches Some(selected)
            && selected.edit == edit.with_selection(start, end) && selected.reply == Reply::Value(1) && selected.clip
            == world.clip && selected.memory == world.memory,
{
}

/// The length of a line that is asked for by a position past the end is 0, and the
/// position -1 stands for the caret.
pub proof fn line_lengths_of_other_positions(
    edit: edit::EditModel,
    index: u32,
    world: edit_proc::EditWorld,
    frame: &EditFrame,
)
    requires
        edit.wf(),
        edit.text.len() < u32::MAX,
    ensures
        edit.text.len() < index < u32::MAX ==> (edit_proc::edit_outcome(edit, 0x00C1, index as u64, 0, world, frame)
            matches Some(none) && none.reply == Reply::Value(0)),
        edit_proc::edit_outcome(edit, 0x00C1, 0xFFFF_FFFF, 0, world, frame) matches Some(own)
            && edit_proc::edit_outcome(edit, 0x00C1, edit.caret as u64, 0, world, frame) matches Some(same) && own.reply
            == same.reply,
{
}

/// A line that is longer than the buffer is cut so that the NUL still fits; a buffer of
/// no size and a line that does not exist are answered with 0, and nothing is written.
pub proof fn long_lines_are_cut(
    edit: edit::EditModel,
    line: u64,
    lparam: u64,
    world: edit_proc::EditWorld,
    frame: &EditFrame,
)
    requires
        cpu::mapped(world.memory, lparam as int, 2),
    ensures
        ({
            let size = world.memory[lparam as int] + 256 * world.memory[lparam + 1];
            &&& edit.line_chars(line as nat) is None || size == 0 ==> (edit_proc::edit_outcome(
                edit,
                0x00C4,
                line,
                lparam,
                world,
                frame,
            ) matches Some(none) && none.reply == Reply::Value(0) && none.memory == world.memory && only_asked(
                edit,
                world,
                none,
            ))
            &&& (edit.line_chars(line as nat) matches Some(chars) && 0 < size <= chars.len()) && cpu::mapped(
                world.memory,
                lparam as int,
                size as nat,
            ) ==> (edit_proc::edit_outcome(edit, 0x00C4, line, lparam, world, frame) matches Some(cut) && cut.reply
                == Reply::Value((size - 1) as u64) && only_asked(edit, world, cut) && (forall|i: int|
                0 <= i < size - 1 ==> (#[trigger] cut.memory[lparam + i]) == text::ansi_byte(
                    edit.line_chars(line as nat)->0[i],
                )) && cut.memory[lparam + size - 1] == 0)
        }),
{
    memory::numbers_stand_low_byte_first(world.memory, lparam as int);
    let size = world.memory[lparam as int] + 256 * world.memory[lparam + 1];
    if let Some(chars) = edit.line_chars(line as nat) {
        if 0 < size <= chars.len() && cpu::mapped(world.memory, lparam as int, size as nat) {
            let bytes = edit_proc::line_bytes(chars, size - 1);
            let after = cpu::store(world.memory, lparam as int, bytes);
            assert forall|i: int| 0 <= i < bytes.len() implies #[trigger] after[lparam + i] == bytes[i] by {
                assert(world.memory.dom().contains(lparam + i));
            }
            assert(after[lparam + (size - 1)] == bytes[size - 1]);
        }
    }
}

} // verus!
