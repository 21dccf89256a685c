//! A window that is created is the one that was asked for.
use vstd::prelude::*;

use crate::controls;
use crate::controls::{ControlClassKind, WindowClassIdentifier};
use crate::dispatch;
use crate::dispatch::{OuterReturn, WinApiControlSignal};
use crate::edit::Reply;
use crate::resources::MenuTemplate;
use crate::text;
use crate::user32;
use crate::user32::CreateWindowRequest;
use crate::window;
use crate::window::{WindowClassRecord, WindowRecord, WindowState};

verus! {

/// Whether two characters are the same letter in either case, or the same character.
pub open spec fn same_letter(a: char, b: char) -> bool {
    ||| a == b
    ||| 'A' <= a <= 'Z' && b as int == a as int + 32
    ||| 'A' <= b <= 'Z' && a as int == b as int + 32
}

/// Names are compared letter by letter, without regard to the case of ASCII letters.
pub proof fn names_are_compared_without_case(a: Seq<char>, b: Seq<char>)
    ensures
        text::same_name(a, b) <==> a.len() == b.len() && forall|i: int|
            0 <= i < a.len() ==> same_letter(#[trigger] a[i], b[i]),
{
    let fa = a.map_values(|c: char| text::folded(c));
    let fb = b.map_values(|c: char| text::folded(c));
    if text::same_name(a, b) {
        assert(fa.len() == fb.len());
        assert forall|i: int| 0 <= i < a.len() implies same_letter(#[trigger] a[i], b[i]) by {
            assert(fa[i] == fb[i]);
        }
    }
    if a.len() == b.len() && forall|i: int| 0 <= i < a.len() ==> same_letter(#[trigger] a[i], b[i]) {
        assert forall|i: int| 0 <= i < fa.len() implies fa[i] == fb[i] by {
            assert(same_letter(a[i], b[i]));
        }
        assert(fa =~= fb);
    }
}

/// The window that a creation appends is the one that was asked for: under the handle
/// that is answered, with the requested parent, place, size, title and style. It shows
/// exactly if its style says so, and then waits for its first paint. The windows that
/// were there stay as they are, and the host hears of the new one.
pub proof fn a_created_window_is_as_asked(
    before: WindowState,
    after: WindowState,
    templates: Seq<MenuTemplate>,
    ui_language: u16,
    request: CreateWindowRequest,
    handle: u64,
)
    requires
        user32::window_created(before, after, templates, ui_language, request, handle),
    ensures
        after.windows@.len() == before.windows@.len() + 1,
        forall|i: int| 0 <= i < before.windows@.len() ==> #[trigger] after.windows@[i] == before.windows@[i],
        ({
            let record = after.windows@.last();
            &&& record.handle.0 == handle
            &&& record.parent_handle.0 == request.parent_handle
            &&& record.x == request.x
            &&& record.y == request.y
            &&& record.width == request.width
            &&& record.height == request.height
            &&& record.title == request.title
            &&& record.style == request.style
            &&& record.visible <==> request.style & 0x1000_0000 != 0
            &&& record.invalidated <==> request.style & 0x1000_0000 != 0
            &&& !record.erase_background
            &&& !record.mouse_tracking
            &&& record.subclass_original_wndproc == 0
            &&& record.font_handle.0 == 0
        }),
        after.window_mirror_rev != before.window_mirror_rev,
        after.window_mirror_synced_rev == before.window_mirror_synced_rev,
        after.next_window_handle.0 == (handle + 1) as u64,
        after.focus_window_handle == before.focus_window_handle,
        after.capture_window_handle == before.capture_window_handle,
        after.keyboard_state == before.keyboard_state,
        after.classes == before.classes,
        after.timers == before.timers,
{
    assert forall|i: int| 0 <= i < before.windows@.len() implies #[trigger] after.windows@[i] == before.windows@[i] by {
        assert(after.windows@.drop_last()[i] == before.windows@[i]);
    }
}

/// Two creations answer two handles.
pub proof fn created_windows_have_their_own_handles(
    before: WindowState,
    between: WindowState,
    after: WindowState,
    templates: Seq<MenuTemplate>,
    ui_language: u16,
    first: CreateWindowRequest,
    second: CreateWindowRequest,
    handle: u64,
    other: u64,
)
    requires
        handle < u64::MAX,
        user32::window_created(before, between, templates, ui_language, first, handle),
        other == between.next_window_handle.0,
        user32::window_created(between, after, templates, ui_language, second, other),
    ensures
        handle != other,
        after.windows@[before.windows@.len() as int].handle.0 == handle,
        after.windows@.last().handle.0 == other,
{
    assert(after.windows@.drop_last()[before.windows@.len() as int] == between.windows@.last());
}

/// A window of a registered class runs the class's procedure; the class is the first
/// one with the name, in any case, or with the atom.
pub proof fn a_class_gives_its_procedure(
    before: WindowState,
    after: WindowState,
    templates: Seq<MenuTemplate>,
    ui_language: u16,
    request: CreateWindowRequest,
    handle: u64,
    i: int,
)
    requires
        user32::window_created(before, after, templates, ui_language, request, handle),
        request.kind() is None,
        0 <= i < before.classes@.len(),
        match request.class_identifier {
            WindowClassIdentifier::Name(name) => text::same_name(before.classes@[i].class_name@, name@) && forall|j: int|
                0 <= j < i ==> !text::same_name((#[trigger] before.classes@[j]).class_name@, name@),
            WindowClassIdentifier::Atom(atom) => before.classes@[i].atom == atom && forall|j: int|
                0 <= j < i ==> (#[trigger] before.classes@[j]).atom != atom,
        },
    ensures
        after.windows@.last().window_proc == before.classes@[i].window_proc,
        after.windows@.last().control is Plain,
        request.style & 0x4000_0000 != 0 || request.menu_handle != 0 || before.classes@[i].menu_name == 0
            ==> after.windows@.last().menu_handle == request.menu_handle,
{
    lemma_first_class(before.classes@, request.class_identifier, 0, i);
}

proof fn lemma_first_class(classes: Seq<WindowClassRecord>, identifier: WindowClassIdentifier, from: int, i: int)
    requires
        0 <= from <= i < classes.len(),
        user32::is_class(classes[i], identifier),
        forall|j: int| from <= j < i ==> !user32::is_class(#[trigger] classes[j], identifier),
    ensures
        user32::class_from(classes, identifier, from) == Some(i),
    decreases i - from,
{
    if from < i {
        lemma_first_class(classes, identifier, from + 1, i);
    }
}

/// A top-level window has a menu exactly if it was given one or its class has one that
/// could be loaded, and the host hears of the menu. A child's number is its id and
/// never a menu.
pub proof fn menus_belong_to_top_level_windows(
    before: WindowState,
    after: WindowState,
    templates: Seq<MenuTemplate>,
    ui_language: u16,
    request: CreateWindowRequest,
    handle: u64,
)
    requires
        user32::window_created(before, after, templates, ui_language, request, handle),
    ensures
        request.menu_handle != 0 || request.style & 0x4000_0000 != 0 ==> after.windows@.last().menu_handle
            == request.menu_handle && after.menus@ == before.menus@,
        request.style & 0x4000_0000 != 0 ==> after.menu_dirty == before.menu_dirty,
        request.style & 0x4000_0000 == 0 && after.windows@.last().menu_handle != 0 ==> after.menu_dirty,
        before.menu_dirty ==> after.menu_dirty,
{
}

/// A class with a built-in name makes a control of its kind, whatever the case of the
/// name: an edit control starts with the title as its text, the caret at its start and
/// nothing selected; the others keep the title as their caption.
pub proof fn built_in_names_make_controls(
    before: WindowState,
    after: WindowState,
    templates: Seq<MenuTemplate>,
    ui_language: u16,
    request: CreateWindowRequest,
    handle: u64,
    name: String,
)
    requires
        user32::window_created(before, after, templates, ui_language, request, handle),
        request.class_identifier == WindowClassIdentifier::Name(name),
    ensures
        text::same_name(name@, "button"@) ==> after.windows@.last().control@ == controls::ControlModel::Button(false)
            && after.windows@.last().control_text@ == request.title@,
        text::same_name(name@, "static"@) ==> after.windows@.last().control@ is Label
            && after.windows@.last().control_text@ == request.title@,
        text::same_name(name@, "edit"@) ==> (after.windows@.last().control@ matches controls::ControlModel::Edit(field)
            && field.edit.text == request.title@ && field.edit.caret == 0 && field.edit.sel_start == 0
            && field.edit.sel_end == 0 && field.edit.limit == 32767 && !field.edit.modified && field.edit.undo is None
            && field.edit.first_line == 0 && !field.caret.focused && field.buffer is None),
        text::same_name(name@, "listbox"@) ==> (after.windows@.last().control@ matches controls::ControlModel::ListBox(
            list,
        ) && list.items.len() == 0 && list.selected is None && list.first == 0),
        text::same_name(name@, "msctls_statusbar32"@) ==> (after.windows@.last().control@
            matches controls::ControlModel::StatusBar(bar) && bar.rights.len() == 0 && bar.texts.len() == 0)
            && after.windows@.last().control_text@ == request.title@,
        text::same_name(name@, "button"@) || text::same_name(name@, "static"@) || text::same_name(name@, "edit"@)
            || text::same_name(name@, "listbox"@) || text::same_name(name@, "msctls_statusbar32"@)
            ==> after.windows@.last().window_proc == 0,
        !text::same_name(name@, "button"@) && !text::same_name(name@, "static"@) && !text::same_name(name@, "edit"@)
            && !text::same_name(name@, "listbox"@) && !text::same_name(name@, "msctls_statusbar32"@)
            ==> after.windows@.last().control is Plain,
{
    reveal_strlit("button");
    reveal_strlit("static");
    reveal_strlit("edit");
    reveal_strlit("listbox");
    reveal_strlit("msctls_statusbar32");
    names_are_compared_without_case(name@, "button"@);
    names_are_compared_without_case(name@, "static"@);
    names_are_compared_without_case(name@, "edit"@);
    names_are_compared_without_case(name@, "listbox"@);
    names_are_compared_without_case(name@, "msctls_statusbar32"@);
    if name@.len() == 6 {
        assert(same_letter(name@[0], 'b') ==> !same_letter(name@[0], 's'));
        assert("button"@[0] == 'b' && "static"@[0] == 's');
    }
}

/// A control that was created reports to the parent that was asked for: its
/// notifications run the parent's procedure as a command message that names the
/// control.
pub proof fn a_created_control_reports_to_its_parent(
    before: WindowState,
    after: WindowState,
    templates: Seq<MenuTemplate>,
    ui_language: u16,
    request: CreateWindowRequest,
    handle: u64,
    parent: int,
    code: u16,
)
    requires
        user32::window_created(before, after, templates, ui_language, request, handle),
        window::window_index(before.windows@, request.parent_handle) == Some(parent),
        before.windows@[parent].window_proc != 0,
    ensures
        dispatch::delivered(after.windows@, after.windows@.last(), Reply::Notify(code))
            matches Err(WinApiControlSignal::GuestCallbackRequested { request: call })
            && call.callback_address == before.windows@[parent].window_proc && call.window_handle
            == request.parent_handle && call.message == 0x0111 && call.long_parameter == handle && call.outer_return
            == OuterReturn::Fixed(0),
{
    window::lookup_finds_the_first(before.windows@, request.parent_handle);
    assert forall|i: int| 0 <= i < before.windows@.len() implies #[trigger] after.windows@[i] == before.windows@[i] by {
        assert(after.windows@.drop_last()[i] == before.windows@[i]);
    }
    lemma_found_as_before(before.windows@, after.windows@, request.parent_handle, 0, parent);
}

proof fn lemma_found_as_before(
    before: Seq<WindowRecord>,
    after: Seq<WindowRecord>,
    handle: u64,
    from: int,
    found: int,
)
    requires
        0 <= from <= found < before.len() <= after.len(),
        forall|i: int| 0 <= i < before.len() ==> #[trigger] after[i] == before[i],
        window::window_from(before, handle, from) == Some(found),
    ensures
        window::window_from(after, handle, from) == Some(found),
    decreases found - from,
{
    assert(after[from] == before[from]);
    if from < found {
        lemma_not_before(before, handle, from, found);
        lemma_found_as_before(before, after, handle, from + 1, found);
    } else {
        lemma_not_before(before, handle, from, found);
    }
}

proof fn lemma_not_before(windows: Seq<WindowRecord>, handle: u64, from: int, found: int)
    requires
        0 <= from <= found < windows.len(),
        window::window_from(windows, handle, from) == Some(found),
    ensures
        windows[from].handle.0 == handle <==> from == found,
    decreases windows.len() - from,
{
    if windows[from].handle.0 != handle {
        if from + 1 <= found {
            lemma_found_has_handle(windows, handle, from + 1, found);
        }
    } else {
        assert(windows[from].handle == crate::handles::Hwnd(handle));
    }
    lemma_found_has_handle(windows, handle, from, found);
}

proof fn lemma_found_has_handle(windows: Seq<WindowRecord>, handle: u64, from: int, found: int)
    requires
        0 <= from <= windows.len(),
        window::window_from(windows, handle, from) == Some(found),
    ensures
        from <= found < windows.len(),
        windows[found].handle.0 == handle,
    decreases windows.len() - from,
{
    if from < windows.len() && windows[from].handle != crate::handles::Hwnd(handle) {
        lemma_found_has_handle(windows, handle, from + 1, found);
    }
}

} // verus!
