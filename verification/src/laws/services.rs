//! What the smaller services answer: registry, message names, boxes, resources, colours.
use vstd::prelude::*;

use crate::cpu;
use crate::cpu::GuestCpu;
use crate::display;
use crate::display::DisplayMetrics;
use crate::handlers;
use crate::handlers::BoxKind;
use crate::laws::memory;
use crate::menus;
use crate::menus::{MenuEntry, MenuRecord};
use crate::process::{ProcessState, RegistryKey};
use crate::registry;
use crate::resources::{AccelTemplate, MenuItemTemplate, MenuTemplate, StringBlock};
use crate::text;
use crate::user32;
use crate::window::{AccelRecord, PendingMessageBox, WindowClassRecord, WindowState};

verus! {

/// Whether key `i` is the one with a parent and a path: the first, in any case.
pub open spec fn is_key(keys: Seq<RegistryKey>, parent: u64, path: Seq<char>, i: int) -> bool {
    &&& 0 <= i < keys.len()
    &&& keys[i].parent == parent
    &&& text::same_name(keys[i].subkey@, path)
    &&& forall|j: int|
        0 <= j < i ==> !((#[trigger] keys[j]).parent == parent && text::same_name(keys[j].subkey@, path))
}

/// A key is found by its parent and its path, without regard to case.
pub proof fn keys_are_found_by_parent_and_path(keys: Seq<RegistryKey>, parent: u64, path: Seq<char>, i: int)
    ensures
        is_key(keys, parent, path, i) ==> registry::key_from(keys, parent, path, 0) == Some(i),
        (forall|j: int|
            0 <= j < keys.len() ==> !((#[trigger] keys[j]).parent == parent && text::same_name(keys[j].subkey@, path)))
            ==> registry::key_from(keys, parent, path, 0) is None,
{
    lemma_key(keys, parent, path, 0, i);
}

proof fn lemma_key(keys: Seq<RegistryKey>, parent: u64, path: Seq<char>, from: int, i: int)
    requires
        0 <= from <= keys.len(),
    ensures
        from <= i < keys.len() && keys[i].parent == parent && text::same_name(keys[i].subkey@, path) && (forall|j: int|
            from <= j < i ==> !((#[trigger] keys[j]).parent == parent && text::same_name(keys[j].subkey@, path)))
            ==> registry::key_from(keys, parent, path, from) == Some(i),
        (forall|j: int|
            from <= j < keys.len() ==> !((#[trigger] keys[j]).parent == parent && text::same_name(
                keys[j].subkey@,
                path,
            ))) ==> registry::key_from(keys, parent, path, from) is None,
    decreases keys.len() - from,
{
    if from < keys.len() {
        lemma_key(keys, parent, path, from + 1, i);
        if keys[from].parent == parent && text::same_name(keys[from].subkey@, path) {
            assert(!(forall|j: int|
                from <= j < keys.len() ==> !((#[trigger] keys[j]).parent == parent && text::same_name(
                    keys[j].subkey@,
                    path,
                ))));
        }
    }
}

/// A key that exists is opened and nothing changes; one that does not is made with the
/// next handle, under the given parent and path. How it came is answered: 1 for a new
/// key, 2 for one that was there.
pub proof fn keys_are_opened_or_made(before: ProcessState, after: ProcessState, parent: u64, path: Seq<char>, i: int)
    requires
        registry::key_created(before, after, parent, path),
        before.next_registry_key_handle.0 < u64::MAX,
    ensures
        is_key(before.registry_keys@, parent, path, i) ==> {
            &&& after == before
            &&& registry::created_key(before, parent, path) matches Some(key) && key.handle
                == before.registry_keys@[i].handle && key.disposition == 2
        },
        (forall|j: int|
            0 <= j < before.registry_keys@.len() ==> !((#[trigger] before.registry_keys@[j]).parent == parent
                && text::same_name(before.registry_keys@[j].subkey@, path))) ==> {
            let made = after.registry_keys@.last();
            &&& after.registry_keys@.len() == before.registry_keys@.len() + 1
            &&& forall|j: int|
                0 <= j < before.registry_keys@.len() ==> #[trigger] after.registry_keys@[j] == before.registry_keys@[j]
            &&& made.parent == parent
            &&& made.subkey@ == path
            &&& made.handle == before.next_registry_key_handle.0
            &&& after.next_registry_key_handle.0 == before.next_registry_key_handle.0 + 1
            &&& after.last_error == before.last_error
            &&& registry::created_key(before, parent, path) matches Some(key) && key.handle == made.handle
                && key.disposition == 1
        },
{
    keys_are_found_by_parent_and_path(before.registry_keys@, parent, path, i);
    if registry::key_from(before.registry_keys@, parent, path, 0) is None {
        assert forall|j: int| 0 <= j < before.registry_keys@.len() implies #[trigger] after.registry_keys@[j]
            == before.registry_keys@[j] by {
            assert(after.registry_keys@.drop_last()[j] == before.registry_keys@[j]);
        }
    }
}

/// Opening a key writes its handle where the caller asked for it and answers 0; a key
/// that does not exist writes 0 and answers 2.
pub proof fn opened_keys_are_written_out(
    engine: GuestCpu,
    keys: Seq<RegistryKey>,
    wide: bool,
    path: Seq<char>,
    i: int,
)
    requires
        text::pointed_name(engine.memory(), engine.rdx, wide) == Some(path),
        cpu::mapped(engine.memory(), engine.r8 as int, 8),
    ensures
        registry::open_outcome(engine, keys, wide, false) matches Some((after, status)) && {
            let written = cpu::le_value(cpu::load(after, engine.r8 as int, 8));
            &&& is_key(keys, engine.rcx, path, i) ==> status == 0 && written == keys[i].handle
            &&& (forall|j: int|
                0 <= j < keys.len() ==> !((#[trigger] keys[j]).parent == engine.rcx && text::same_name(
                    keys[j].subkey@,
                    path,
                ))) ==> status == 2 && written == 0
        },
{
    keys_are_found_by_parent_and_path(keys, engine.rcx, path, i);
    let handle = match registry::key_from(keys, engine.rcx, path, 0) {
        Some(k) => keys[k].handle,
        None => 0,
    };
    memory::written_numbers_are_read_back(engine.memory(), engine.r8 as int, handle);
}

/// The extended call takes its result pointer from the stack, the sixth argument.
pub proof fn the_extended_call_answers_on_the_stack(engine: GuestCpu, keys: Seq<RegistryKey>, wide: bool, pointer: u64)
    requires
        cpu::mapped(engine.memory(), engine.rsp + 0x30, 8),
        cpu::le_value(cpu::load(engine.memory(), engine.rsp + 0x30, 8)) == pointer,
    ensures
        registry::open_outcome(engine, keys, wide, true) == registry::open_outcome(
            GuestCpu { r8: pointer, ..engine },
            keys,
            wide,
            false,
        ),
{
    assert((GuestCpu { r8: pointer, ..engine }).memory() == engine.memory());
}

/// Creating a key writes its handle and, where asked for, how it came.
pub proof fn created_keys_are_written_out(
    before: Map<int, u8>,
    pointer: u64,
    disposition: u64,
    handle: u64,
    how: u32,
)
    requires
        cpu::mapped(before, pointer as int, 8),
        disposition != 0 ==> cpu::mapped(before, disposition as int, 4),
        disposition == 0 || pointer + 8 <= disposition || disposition + 4 <= pointer,
    ensures
        ({
            let after = registry::create_memory(before, pointer, disposition, handle, how);
            &&& cpu::le_value(cpu::load(after, pointer as int, 8)) == handle
            &&& disposition != 0 ==> cpu::le_value(cpu::load(after, disposition as int, 4)) == how
        }),
{
    memory::written_numbers_are_read_back(before, pointer as int, handle);
    let written = cpu::store(before, pointer as int, cpu::le_bytes(handle as nat, 8));
    if disposition != 0 {
        assert(cpu::pow256(4) == 0x1_0000_0000 && cpu::pow256(8) == 0x1_0000_0000_0000_0000) by {
            reveal_with_fuel(cpu::pow256, 9);
        }
        cpu::le_round_trip(how as nat, 4);
        cpu::le_round_trip(handle as nat, 8);
        let word = cpu::le_bytes(how as nat, 4);
        assert(cpu::mapped(written, disposition as int, 4));
        memory::written_bytes_are_read_back(written, disposition as int, word, 0);
        let after = cpu::store(written, disposition as int, word);
        assert forall|i: int| 0 <= i < 8 implies #[trigger] after[pointer + i] == written[pointer + i] by {
            assert(before.dom().contains(pointer + i));
        }
        assert(cpu::load(after, pointer as int, 8) =~= cpu::load(written, pointer as int, 8));
    }
}

/// A message name has one id in all cases of its letters: the first registration gives
/// it the next number from 0xC000 on, a later one answers the same and registers
/// nothing. Where no number is left the answer is 0.
pub proof fn message_names_get_the_next_id(before: Seq<Vec<char>>, name: Seq<char>, after: Seq<Vec<char>>, id: u64, i: int)
    requires
        user32::registered(before, name, after, id),
        before.len() <= 0x4000,
    ensures
        0 <= i < before.len() && text::same_name(before[i]@, name) && (forall|j: int|
            0 <= j < i ==> !text::same_name((#[trigger] before[j])@, name)) ==> id == 0xC000 + i && after == before,
        (forall|j: int| 0 <= j < before.len() ==> !text::same_name((#[trigger] before[j])@, name)) && before.len()
            < 0x4000 ==> id == 0xC000 + before.len() && after.len() == before.len() + 1 && after.last()@ == name && (
        forall|j: int| 0 <= j < before.len() ==> #[trigger] after[j] == before[j]),
        (forall|j: int| 0 <= j < before.len() ==> !text::same_name((#[trigger] before[j])@, name)) && before.len()
            == 0x4000 ==> id == 0 && after == before,
        id != 0 ==> 0xC000 <= id <= 0xFFFF,
{
    lemma_name(before, name, 0, i);
    lemma_name_in_range(before, name, 0);
    if user32::name_from(before, name, 0) is None && before.len() < 0x4000 {
        assert forall|j: int| 0 <= j < before.len() implies #[trigger] after[j] == before[j] by {
            assert(after.drop_last()[j] == before[j]);
        }
    }
}

proof fn lemma_name(names: Seq<Vec<char>>, name: Seq<char>, from: int, i: int)
    requires
        0 <= from <= names.len(),
    ensures
        from <= i < names.len() && text::same_name(names[i]@, name) && (forall|j: int|
            from <= j < i ==> !text::same_name((#[trigger] names[j])@, name)) ==> user32::name_from(names, name, from)
            == Some(i),
        (forall|j: int| from <= j < names.len() ==> !text::same_name((#[trigger] names[j])@, name))
            ==> user32::name_from(names, name, from) is None,
    decreases names.len() - from,
{
    if from < names.len() {
        lemma_name(names, name, from + 1, i);
        if text::same_name(names[from]@, name) {
            assert(!(forall|j: int| from <= j < names.len() ==> !text::same_name((#[trigger] names[j])@, name)));
        }
    }
}

proof fn lemma_name_in_range(names: Seq<Vec<char>>, name: Seq<char>, from: int)
    requires
        0 <= from <= names.len(),
    ensures
        user32::name_from(names, name, from) matches Some(k) ==> from <= k < names.len(),
    decreases names.len() - from,
{
    if from < names.len() {
        lemma_name_in_range(names, name, from + 1);
    }
}

/// A message box that the user answered returns the button that was chosen; one that
/// waits asks again; where nobody can show it, it is answered with OK at once. An about
/// box returns 1 whatever was chosen.
pub proof fn message_boxes_return_the_choice(pick: u32, bridge: bool, answer: u64)
    ensures
        handlers::box_answer(Some(PendingMessageBox { pick: Some(pick) }), bridge) == Some(pick as u64),
        handlers::box_answer(Some(PendingMessageBox { pick: None }), bridge) is None,
        handlers::box_answer(None, true) is None,
        handlers::box_answer(None, false) == Some(1u64),
        handlers::box_value(BoxKind::About, answer) == 1,
        handlers::box_value(BoxKind::Ansi, answer) == answer,
        handlers::box_value(BoxKind::Wide, answer) == answer,
{
}

/// A message box shows the text of its second argument under the caption of its third,
/// an about box the other way round and with a plain OK button; only the ANSI call
/// reads bytes.
pub proof fn message_boxes_show_their_arguments(engine: GuestCpu)
    ensures
        handlers::box_texts(engine, BoxKind::Ansi) == (
            text::pointed_name(engine.memory(), engine.r8, false),
            text::pointed_name(engine.memory(), engine.rdx, false),
            engine.r9 as int % 0x1_0000_0000,
        ),
        handlers::box_texts(engine, BoxKind::Wide) == (
            text::pointed_name(engine.memory(), engine.r8, true),
            text::pointed_name(engine.memory(), engine.rdx, true),
            engine.r9 as int % 0x1_0000_0000,
        ),
        handlers::box_texts(engine, BoxKind::About) == (
            text::pointed_name(engine.memory(), engine.rdx, true),
            text::pointed_name(engine.memory(), engine.r8, true),
            0int,
        ),
{
}

/// An accelerator table of the module is loaded once: the first load gives it the next
/// handle, a later one answers the same; a table that the module does not have is
/// answered with 0, and nothing else changes.
pub proof fn accelerator_tables_are_loaded_once(
    before: WindowState,
    after: WindowState,
    templates: Seq<AccelTemplate>,
    id: u64,
    handle: u64,
    i: int,
)
    requires
        user32::accel_loaded(before, after, templates, id, handle),
        before.next_accel_handle.0 < u64::MAX,
    ensures
        0 <= i < before.accels@.len() && before.accels@[i].id == id && (forall|j: int|
            0 <= j < i ==> (#[trigger] before.accels@[j]).id != id) ==> handle == before.accels@[i].handle.0 && after
            == before,
        (forall|j: int| 0 <= j < before.accels@.len() ==> (#[trigger] before.accels@[j]).id != id) && (forall|j: int|
            0 <= j < templates.len() ==> (#[trigger] templates[j]).id != id) ==> handle == 0 && after == before,
        (forall|j: int| 0 <= j < before.accels@.len() ==> (#[trigger] before.accels@[j]).id != id) && 0 <= i
            < templates.len() && templates[i].id == id ==> {
            &&& handle == before.next_accel_handle.0
            &&& after.accels@.len() == before.accels@.len() + 1
            &&& after.accels@.last().id == id
            &&& after.accels@.last().handle.0 == handle
            &&& after.next_accel_handle.0 == handle + 1
            &&& after.windows == before.windows
            &&& after.menus == before.menus
        },
{
    lemma_accel(before.accels@, id, 0, i);
    if 0 <= i < templates.len() && templates[i].id == id {
        assert(user32::has_accel_template(templates, id));
    }
}

proof fn lemma_accel(accels: Seq<AccelRecord>, id: u64, from: int, i: int)
    requires
        0 <= from <= accels.len(),
    ensures
        from <= i < accels.len() && accels[i].id == id && (forall|j: int|
            from <= j < i ==> (#[trigger] accels[j]).id != id) ==> user32::accel_from(accels, id, from) == Some(i),
        (forall|j: int| from <= j < accels.len() ==> (#[trigger] accels[j]).id != id) ==> user32::accel_from(
            accels,
            id,
            from,
        ) is None,
    decreases accels.len() - from,
{
    if from < accels.len() {
        lemma_accel(accels, id, from + 1, i);
        if accels[from].id == id {
            assert(!(forall|j: int| from <= j < accels.len() ==> (#[trigger] accels[j]).id != id));
        }
    }
}

/// Of the menus with an id the one in the user's language is taken; where there is none
/// the one in the language without its region, then the American English one, then any;
/// the first among equals.
pub proof fn menus_are_taken_in_the_best_language(templates: Seq<MenuTemplate>, id: u64, ui: u16, best: int, other: int)
    requires
        menus::is_best_menu(templates, id, ui, best),
        0 <= other < templates.len(),
        templates[other].id == id,
    ensures
        templates[best].id == id,
        templates[other].lang == ui ==> templates[best].lang == ui,
        templates[other].lang == ui % 0x400 ==> templates[best].lang == ui || templates[best].lang == ui % 0x400,
        templates[other].lang == 0x0409 ==> templates[best].lang == ui || templates[best].lang == ui % 0x400
            || templates[best].lang == 0x0409,
        templates[other].lang == templates[best].lang ==> best <= other,
{
}

/// Strings are taken in the same order of languages.
pub proof fn strings_are_taken_in_the_best_language(blocks: Seq<StringBlock>, block: int, ui: u16, best: int, other: int)
    requires
        user32::is_best_block(blocks, block, ui, best),
        0 <= other < blocks.len(),
        blocks[other].block == block,
    ensures
        blocks[best].block == block,
        blocks[other].lang == ui ==> blocks[best].lang == ui,
        blocks[other].lang == ui % 0x400 ==> blocks[best].lang == ui || blocks[best].lang == ui % 0x400,
        blocks[other].lang == 0x0409 ==> blocks[best].lang == ui || blocks[best].lang == ui % 0x400
            || blocks[best].lang == 0x0409,
        blocks[other].lang == blocks[best].lang ==> best <= other,
{
}

/// An entry of a loaded menu is what its template entry says: a popup where it has
/// entries of its own or says so, a line where it says so or has neither number nor
/// caption, and else a command with its number, caption and state.
pub proof fn loaded_entries_are_as_in_the_template(entry: MenuEntry, item: MenuItemTemplate, popup: int)
    requires
        menus::is_entry(entry, item, popup),
    ensures
        entry is Popup <==> item.flags & 0x0010 != 0 || item.sub@.len() > 0,
        entry is Separator <==> !(item.flags & 0x0010 != 0 || item.sub@.len() > 0) && (item.flags & 0x0800 != 0
            || item.id == 0 && (item.text matches Some(t) ==> t@.len() == 0)),
        entry matches MenuEntry::Item { id, text, enabled, checked } ==> {
            &&& id == item.id
            &&& item.text matches Some(t) ==> text@ == t@
            &&& item.text is None ==> text@.len() == 0
            &&& enabled <==> item.flags & 0x0001 == 0 && item.flags & 0x0002 == 0
            &&& checked <==> item.flags & 0x0008 != 0
        },
        entry matches MenuEntry::Popup { text, submenu } ==> {
            &&& submenu.0 == popup
            &&& item.text matches Some(t) ==> text@ == t@
        },
{
}

/// The menu bar that is loaded has an entry for each of the template's, and every popup
/// names the menu that holds the entries below it.
pub proof fn popups_lead_to_their_entries(
    menus_after: Seq<MenuRecord>,
    at: int,
    items: Seq<MenuItemTemplate>,
    handle: int,
    k: int,
)
    requires
        menus::is_tree(menus_after, at, items, handle),
        0 <= k < items.len(),
    ensures
        menus_after[at].handle.0 == handle,
        menus_after[at].items@.len() == items.len(),
        item_leads_down(menus_after, menus_after[at].items@[k], items[k]),
{
    assert(menus::is_entry(menus_after[at].items@[k], items[k], handle + 1 + menus::popup_menus(items, k)));
    if menus::is_popup(items[k]) {
        let below = at + 1 + menus::popup_menus(items, k);
        assert(menus::is_tree(
            menus_after,
            below,
            items[k].sub@,
            handle + 1 + menus::popup_menus(items, k),
        ));
        assert(menus_after[below].handle.0 == menus_after[at].items@[k]->submenu.0);
    }
}

/// Whether a popup entry names a menu with as many entries as the template has below it.
pub open spec fn item_leads_down(menus_after: Seq<MenuRecord>, entry: MenuEntry, item: MenuItemTemplate) -> bool {
    entry matches MenuEntry::Popup { submenu, .. } ==> exists|m: int|
        0 <= m < menus_after.len() && (#[trigger] menus_after[m]).handle == submenu && menus_after[m].items@.len()
            == item.sub@.len()
}

/// A registered class is kept as it was given, under the next atom.
pub proof fn registered_classes_are_kept(
    before: WindowState,
    after: WindowState,
    record: WindowClassRecord,
    atom: u32,
)
    requires
        user32::class_registered(before, after, record, Some(atom)),
    ensures
        atom == before.next_window_class_atom,
        atom <= 0xFFFF,
        after.next_window_class_atom == atom + 1,
        after.classes@.len() == before.classes@.len() + 1,
        forall|j: int| 0 <= j < before.classes@.len() ==> #[trigger] after.classes@[j] == before.classes@[j],
        ({
            let kept = after.classes@.last();
            &&& kept.atom == atom
            &&& kept.class_name == record.class_name
            &&& kept.window_proc == record.window_proc
            &&& kept.style == record.style
            &&& kept.menu_name == record.menu_name
            &&& kept.background_brush == record.background_brush
            &&& kept.instance_handle == record.instance_handle
            &&& kept.icon_handle == record.icon_handle
            &&& kept.cursor_handle == record.cursor_handle
            &&& kept.small_icon_handle == record.small_icon_handle
            &&& kept.unicode == record.unicode
        }),
        after.windows == before.windows,
{
}

/// System colours: the highlight and the active caption are blue, windows and edges in
/// the light white, the dark edge grey, and every index has a colour.
pub proof fn system_colours_are_fixed(index: int)
    ensures
        user32::system_color(13) == 0x0000_78D7 && user32::system_color(2) == 0x0000_78D7,
        user32::system_color(5) == 0x00FF_FFFF && user32::system_color(20) == 0x00FF_FFFF,
        user32::system_color(21) == 0x0069_6969,
        user32::system_color(0) == 0x00C8_C8C8,
        !(index == 0 || index == 2 || index == 5 || index == 13 || index == 20 || index == 21) ==> user32::system_color(
            index,
        ) == 0x00F0_F0F0,
{
}

/// The screen is reported in pixels as it is, and in millimetres at 96 dots per inch; a
/// negative size is reported as none.
pub proof fn the_screen_is_reported_as_it_is(pixels: int)
    ensures
        pixels >= 0 ==> display::metric(pixels) == pixels,
        pixels < 0 ==> display::metric(pixels) == 0 && display::millimetres(pixels) == 0,
        pixels >= 0 ==> 1920 * display::millimetres(pixels) <= 508 * pixels + 960 && 508 * pixels < 1920
            * display::millimetres(pixels) + 960,
        DisplayMetrics::default_metrics().width == 1920 && DisplayMetrics::default_metrics().height == 1080,
{
}

/// Creating a key answers 0 with the handle written out, or 14 with nothing written
/// where no handle is left.
pub proof fn creating_a_key_answers_a_status(
    before: Map<int, u8>,
    after: Map<int, u8>,
    pointer: u64,
    disposition: u64,
    created: Option<registry::CreatedKey>,
    result: Result<u64, cpu::MemoryFault>,
)
    requires
        registry::create_done(before, after, pointer, disposition, created, result),
    ensures
        created is Some ==> result == Ok::<u64, cpu::MemoryFault>(0) && after == registry::create_memory(
            before,
            pointer,
            disposition,
            created->0.handle,
            created->0.disposition,
        ),
        created is None ==> result == Ok::<u64, cpu::MemoryFault>(14) && after == before,
{
}

} // verus!
