//! What whole API calls do, from the guest's arguments to its result.
use vstd::prelude::*;

use crate::cpu;
use crate::cpu::{GuestCpu, MemoryFault};
use crate::dll_state::DllId;
use crate::handlers;
use crate::handlers::{BoxKind, HandlerSignal};
use crate::menus;
use crate::menus::{MenuEntry, MenuRecord};
use crate::present::PresentState;
use crate::process;
use crate::resources::MenuTemplate;
use crate::state::{WinApiHandlerResult, WinApiState};
use crate::user32;
use crate::user32::CreateWindowRequest;
use crate::window::{AccelRecord, PendingMessageBox, WindowState};

verus! {

/// A sync at the end of a call changes nothing of the window state but the revision that
/// the host has seen.
proof fn lemma_settled_windows<F>(between: WinApiState<F>, after: WinApiState<F>, to: WindowState)
    requires
        between.settled(after),
        between.dll_states.state::<WindowState>(DllId::Window) == Some(to),
    ensures
        after.dll_states.state::<WindowState>(DllId::Window) matches Some(now) && now == (WindowState {
            window_mirror_synced_rev: now.window_mirror_synced_rev,
            ..to
        }),
{
    between.dll_states.lemma_len();
    after.dll_states.lemma_len();
}

/// Registering a message name returns its id to the guest: the one under which the name
/// stands from then on.
pub proof fn registering_a_name_returns_its_id<F>(
    before: WinApiState<F>,
    after: WinApiState<F>,
    engine: GuestCpu,
    engine_after: GuestCpu,
    name: Seq<char>,
    result: Result<WinApiHandlerResult, MemoryFault>,
    ws: WindowState,
)
    requires
        handlers::message_registered(before, after, engine, engine_after, name, result),
        before.dll_states.state::<WindowState>(DllId::Window) == Some(ws),
    ensures
        after.dll_states.state::<WindowState>(DllId::Window) matches Some(now) && {
            &&& result matches Ok(done) ==> user32::registered(
                ws.registered_messages@,
                name,
                now.registered_messages@,
                done.return_value,
            ) && engine_after.rax == done.return_value
            &&& now.windows == ws.windows
            &&& now.menus == ws.menus
            &&& now.keyboard_state == ws.keyboard_state
        },
        result is Ok <==> cpu::mapped(engine.memory(), engine.rsp as int, 8),
        after.process == before.process,
{
    before.dll_states.lemma_len();
    let (from, to, between, id) = choose|from: WindowState, to: WindowState, between: WinApiState<F>, id: u64|
        {
            &&& #[trigger] handlers::windows_replaced(before, from, to, between)
            &&& #[trigger] user32::registered(from.registered_messages@, name, to.registered_messages@, id)
            &&& to == (WindowState { registered_messages: to.registered_messages, ..from })
            &&& between.settled(after)
            &&& crate::state::call_returned(engine, engine_after, id, result)
        };
    between.dll_states.lemma_len();
    assert(from == ws);
    assert(between.dll_states.state::<WindowState>(DllId::Window) == Some(to));
    lemma_settled_windows(between, after, to);
}

/// A message box whose choice is there returns it and is over. One without a choice asks
/// the host to show the texts that the guest passed and waits, the guest's registers and
/// stack untouched; where nobody shows boxes it returns OK at once.
pub proof fn a_message_box_waits_for_the_choice<F>(
    before: WinApiState<F>,
    after: WinApiState<F>,
    engine: GuestCpu,
    engine_after: GuestCpu,
    kind: BoxKind,
    caption: Seq<char>,
    shown: Seq<char>,
    bits: int,
    result: Result<WinApiHandlerResult, HandlerSignal>,
    ws: WindowState,
    present: PresentState,
)
    requires
        handlers::box_stepped(before, after, engine, engine_after, kind, caption, shown, bits, result),
        before.dll_states.state::<WindowState>(DllId::Window) == Some(ws),
        before.dll_states.state::<PresentState>(DllId::Present) == Some(present),
        cpu::mapped(engine.memory(), engine.rsp as int, 8),
    ensures
        after.dll_states.state::<WindowState>(DllId::Window) matches Some(now) && {
            let picked = ws.pending_message_box matches Some(waiting) && waiting.pick is Some;
            let asks = !picked && (ws.pending_message_box is Some || present.message_box_bridge);
            &&& now.windows == ws.windows && now.focus_window_handle == ws.focus_window_handle
            &&& asks ==> {
                &&& now.pending_message_box == Some(PendingMessageBox { pick: None })
                &&& engine_after == engine
                &&& result matches Err(HandlerSignal::MessageBoxBridgeRequested { request }) && request.caption@ == caption
                    && request.text@ == shown && request.message_box_type == bits
            }
            &&& !asks ==> {
                &&& now.pending_message_box is None
                &&& result matches Ok(done) && engine_after.rax == done.return_value && {
                    &&& kind == BoxKind::About ==> done.return_value == 1
                    &&& kind != BoxKind::About && picked ==> done.return_value
                        == ws.pending_message_box->0.pick->0
                    &&& kind != BoxKind::About && !picked ==> done.return_value == 1
                }
            }
        },
{
    before.dll_states.lemma_len();
    let (from, to, between) = choose|from: WindowState, to: WindowState, between: WinApiState<F>|
        {
            &&& #[trigger] handlers::windows_replaced(before, from, to, between)
            &&& match handlers::box_answer(from.pending_message_box, handlers::has_bridge(before)) {
                Some(answer) => {
                    &&& to == (WindowState { pending_message_box: None, ..from })
                    &&& between.settled(after)
                    &&& handlers::box_closed(engine, engine_after, handlers::box_value(kind, answer), result)
                },
                None => {
                    &&& to == (WindowState {
                        pending_message_box: Some(PendingMessageBox { pick: None }),
                        ..from
                    })
                    &&& after == between
                    &&& engine_after == engine
                    &&& result matches Err(HandlerSignal::MessageBoxBridgeRequested { request })
                        && request.caption@ == caption && request.text@ == shown && request.message_box_type == bits
                },
            }
        };
    between.dll_states.lemma_len();
    assert(from == ws);
    assert(between.dll_states.state::<WindowState>(DllId::Window) == Some(to));
    if let Some(answer) = handlers::box_answer(from.pending_message_box, handlers::has_bridge(before)) {
        lemma_settled_windows(between, after, to);
    }
}

/// A menu is found by its handle: the first that has it.
pub proof fn menus_are_found_by_handle(all: Seq<MenuRecord>, handle: u64, i: int)
    ensures
        0 <= i < all.len() && all[i].handle.0 == handle && (forall|j: int|
            0 <= j < i ==> (#[trigger] all[j]).handle.0 != handle) ==> menus::menu_from(all, handle, 0) == Some(i),
        (forall|j: int| 0 <= j < all.len() ==> (#[trigger] all[j]).handle.0 != handle) ==> menus::menu_from(
            all,
            handle,
            0,
        ) is None,
{
    lemma_menu(all, handle, 0, i);
}

proof fn lemma_menu(all: Seq<MenuRecord>, handle: u64, from: int, i: int)
    requires
        0 <= from <= all.len(),
    ensures
        from <= i < all.len() && all[i].handle.0 == handle && (forall|j: int|
            from <= j < i ==> (#[trigger] all[j]).handle.0 != handle) ==> menus::menu_from(all, handle, from) == Some(i),
        (forall|j: int| from <= j < all.len() ==> (#[trigger] all[j]).handle.0 != handle) ==> menus::menu_from(
            all,
            handle,
            from,
        ) is None,
    decreases all.len() - from,
{
    if from < all.len() {
        lemma_menu(all, handle, from + 1, i);
        if all[from].handle.0 == handle {
            assert(all[from].handle == crate::handles::Hmenu(handle));
            assert(!(forall|j: int| from <= j < all.len() ==> (#[trigger] all[j]).handle.0 != handle));
        }
    }
}

/// An entry that is appended is what was asked for: a line, a popup of the named menu, or
/// a command with its number, caption and state.
pub proof fn appended_entries_are_as_asked(entry: MenuEntry, flags: u32, item: u64, caption: String)
    requires
        menus::is_appended(entry, flags, item, caption),
    ensures
        flags & 0x0800 != 0 ==> entry is Separator,
        flags & 0x0800 == 0 && flags & 0x0010 != 0 ==> (entry matches MenuEntry::Popup { text, submenu } && text == caption
            && submenu.0 == item),
        flags & 0x0800 == 0 && flags & 0x0010 == 0 ==> (entry matches MenuEntry::Item { id, text, enabled, checked } && id
            == item as int % 0x1_0000_0000 && text == caption && (enabled <==> flags & 1 == 0 && flags & 2 == 0) && (checked
            <==> flags & 8 != 0)),
{
}

/// The state of an entry: 1 where it is gray, 8 where it is checked, both where it is
/// both; a line and a popup have states of their own, and what does not exist has -1. An
/// entry is named by its place in the menu or by its number anywhere in the tree.
pub proof fn entry_states_are_answered(all: Seq<MenuRecord>, handle: u64, item: u32, at: int, entry: MenuEntry)
    requires
        menus::menu_from(all, handle, 0) == Some(at),
        item < all[at].items@.len(),
        all[at].items@[item as int] == entry,
    ensures
        entry matches MenuEntry::Item { enabled, checked, .. } ==> menus::menu_state(all, handle, item, 0x0400) == (if enabled {
            0int
        } else {
            1
        }) + (if checked {
            8int
        } else {
            0
        }),
        entry is Separator ==> menus::menu_state(all, handle, item, 0x0400) == 0x0800,
        entry is Popup ==> menus::menu_state(all, handle, item, 0x0400) == 0x0010,
        entry is Item && item == 0 ==> menus::menu_state(all, handle, entry->id, 0)
            == menus::menu_state(all, handle, 0, 0x0400),
{
    assert(0x0400u32 & 0x0400 != 0) by (bit_vector);
    assert(0u32 & 0x0400 == 0) by (bit_vector);
}

/// A number or a place that no entry has is answered with -1.
pub proof fn missing_entries_have_no_state(all: Seq<MenuRecord>, handle: u64, item: u32, flags: u32)
    ensures
        menus::menu_from(all, handle, 0) is None ==> menus::menu_state(all, handle, item, flags) == 0xFFFF_FFFF,
        (menus::menu_from(all, handle, 0) matches Some(at) && item >= all[at].items@.len()) ==> menus::menu_state(
            all,
            handle,
            item,
            0x0400,
        ) == 0xFFFF_FFFF,
{
    assert(0x0400u32 & 0x0400 != 0) by (bit_vector);
}

/// Graying or checking a command changes that command alone, the host hears of it, and
/// the answer is what it was before.
pub proof fn commands_are_changed_one_at_a_time(
    before: WindowState,
    after: WindowState,
    place: (int, int),
    on: bool,
    previous: u64,
    checking: bool,
    m: int,
    e: int,
)
    requires
        0 <= place.0 < before.menus@.len(),
        0 <= place.1 < before.menus@[place.0].items@.len(),
        before.menus@[place.0].items@[place.1] is Item,
        !checking ==> menus::item_enabled(before, after, Some(place), on, previous),
        checking ==> menus::item_checked(before, after, Some(place), on, previous),
    ensures
        after.menus@.len() == before.menus@.len(),
        0 <= m < before.menus@.len() && 0 <= e < before.menus@[m].items@.len() && (m, e) != place
            ==> after.menus@[m].items@[e] == before.menus@[m].items@[e],
        0 <= m < before.menus@.len() ==> after.menus@[m].handle == before.menus@[m].handle,
        before.menus@[place.0].items@[place.1] matches MenuEntry::Item { id, text, enabled, checked } && (
        after.menus@[place.0].items@[place.1] matches MenuEntry::Item {
            id: id2,
            text: text2,
            enabled: enabled2,
            checked: checked2,
        } && id2 == id && text2 == text && {
            &&& !checking ==> enabled2 == on && checked2 == checked && previous == (if enabled {
                0int
            } else {
                1
            })
            &&& checking ==> checked2 == on && enabled2 == enabled && previous == (if checked {
                8int
            } else {
                0
            })
        }),
        after.menu_dirty,
        after.window_mirror_rev != before.window_mirror_rev,
        after.windows == before.windows,
{
}

/// A top-level window without a menu of its own takes the menu of its class, loaded by
/// the class's number in the user's language.
pub proof fn windows_take_the_menu_of_their_class(
    before: WindowState,
    after: WindowState,
    templates: Seq<MenuTemplate>,
    ui_language: u16,
    request: CreateWindowRequest,
    handle: u64,
    i: int,
)
    requires
        user32::window_created(before, after, templates, ui_language, request, handle),
        request.class(before.classes@) == Some(i),
        request.style & 0x4000_0000 == 0,
        request.menu_handle == 0,
        before.classes@[i].menu_name != 0,
        exists|best: int| menus::is_best_menu(templates, before.classes@[i].menu_name, ui_language, best),
        menus::menu_of_template(before.menus@, best_of(templates, before.classes@[i].menu_name, ui_language), 0) is None,
        before.next_menu_handle.0 != 0,
        before.next_menu_handle.0 + menus::menu_count(
            templates[best_of(templates, before.classes@[i].menu_name, ui_language)].items@,
        ) <= u64::MAX,
    ensures
        after.windows@.last().menu_handle == before.next_menu_handle.0,
        after.menu_dirty,
        after.menus@.len() > before.menus@.len(),
        after.menus@[before.menus@.len() as int].handle.0 == after.windows@.last().menu_handle,
{
    let id = before.classes@[i].menu_name;
    let best = best_of(templates, id, ui_language);
    assert(menus::is_best_menu(templates, id, ui_language, best));
    let menu = after.windows@.last().menu_handle;
    let loaded = WindowState {
        windows: before.windows,
        next_window_handle: before.next_window_handle,
        window_mirror_rev: before.window_mirror_rev,
        menu_dirty: before.menu_dirty,
        ..after
    };
    assert(menus::menu_loaded(before, loaded, templates, id, ui_language, menu));
    let taken = choose|k: int| #[trigger]
        menus::is_best_menu(templates, id, ui_language, k) && menus::template_loaded(
            before,
            loaded,
            k,
            templates[k].items@,
            menu,
        );
    assert(templates[taken].id == id && templates[best].id == id);
    assert(taken == best);
}

/// The template that is taken for a number in a language.
pub open spec fn best_of(templates: Seq<MenuTemplate>, id: u64, ui_language: u16) -> int {
    choose|best: int| menus::is_best_menu(templates, id, ui_language, best)
}

/// A loaded accelerator table is found by its handle.
pub proof fn accelerator_tables_are_found_by_handle(accels: Seq<AccelRecord>, handle: u64, i: int)
    ensures
        0 <= i < accels.len() && accels[i].handle.0 == handle && (forall|j: int|
            0 <= j < i ==> (#[trigger] accels[j]).handle.0 != handle) ==> user32::accel_handle_from(accels, handle, 0)
            == Some(i),
        (forall|j: int| 0 <= j < accels.len() ==> (#[trigger] accels[j]).handle.0 != handle)
            ==> user32::accel_handle_from(accels, handle, 0) is None,
{
    lemma_accel_handle(accels, handle, 0, i);
}

proof fn lemma_accel_handle(accels: Seq<AccelRecord>, handle: u64, from: int, i: int)
    requires
        0 <= from <= accels.len(),
    ensures
        from <= i < accels.len() && accels[i].handle.0 == handle && (forall|j: int|
            from <= j < i ==> (#[trigger] accels[j]).handle.0 != handle) ==> user32::accel_handle_from(
            accels,
            handle,
            from,
        ) == Some(i),
        (forall|j: int| from <= j < accels.len() ==> (#[trigger] accels[j]).handle.0 != handle)
            ==> user32::accel_handle_from(accels, handle, from) is None,
    decreases accels.len() - from,
{
    if from < accels.len() {
        lemma_accel_handle(accels, handle, from + 1, i);
        if accels[from].handle.0 == handle {
            assert(accels[from].handle == crate::handles::Haccel(handle));
            assert(!(forall|j: int| from <= j < accels.len() ==> (#[trigger] accels[j]).handle.0 != handle));
        }
    }
}

/// The environment of a new process agrees with itself: programs are found in a directory
/// of the system root, both names of that root and both names of the temporary directory
/// lead to the same place, and the processor is a 64-bit one.
pub proof fn the_environment_agrees_with_itself()
    ensures
        ({
            let all = process::default_variables();
            &&& all.len() == 10
            &&& all[0].0 == "PATH"@ && all[1].0 == "TEMP"@ && all[2].0 == "TMP"@ && all[3].0 == "SystemRoot"@
            &&& all[4].0 == "windir"@ && all[5].0 == "COMPUTERNAME"@ && all[6].0 == "USERNAME"@ && all[7].0 == "OS"@
            &&& all[8].0 == "PROCESSOR_ARCHITECTURE"@ && all[9].0 == "NUMBER_OF_PROCESSORS"@
            &&& all[3].1 == all[4].1
            &&& all[1].1 == all[2].1
            &&& all[0].1 == all[3].1 + "\\System32"@
            &&& all[1].1 == "C:\\Users\\"@ + all[6].1 + "\\AppData\\Local\\Temp"@
            &&& all[5].1 == all[6].1
            &&& all[7].1 == "Windows_NT"@
            &&& all[8].1 == "AMD64"@
            &&& all[9].1 == "4"@
        }),
{
    reveal_strlit("C:\\Windows\\System32");
    reveal_strlit("C:\\Windows");
    reveal_strlit("\\System32");
    reveal_strlit("C:\\Users\\WIE\\AppData\\Local\\Temp");
    reveal_strlit("C:\\Users\\");
    reveal_strlit("WIE");
    reveal_strlit("\\AppData\\Local\\Temp");
    assert("C:\\Windows\\System32"@ =~= "C:\\Windows"@ + "\\System32"@);
    assert("C:\\Users\\WIE\\AppData\\Local\\Temp"@ =~= "C:\\Users\\"@ + "WIE"@ + "\\AppData\\Local\\Temp"@);
}

} // verus!
