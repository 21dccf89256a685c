//! Menus: trees of entries, made by the guest or loaded from a template.
use vstd::prelude::*;

use crate::handles::Hmenu;
use crate::messages;
use crate::resources::{MenuItemTemplate, MenuTemplate};
use crate::text;
use crate::user32;
use crate::window;
use crate::window::{WindowRecord, WindowState};

verus! {

/// What the state calls answer for an entry that does not exist.
pub const MENU_STATE_NONE: u64 = 0xFFFF_FFFF;

/// Menu flag: the entry cannot be chosen, and shows it.
pub const MF_GRAYED: u32 = 0x0001;

/// Menu flag: the entry cannot be chosen.
pub const MF_DISABLED: u32 = 0x0002;

/// Menu flag: the entry has a check mark.
pub const MF_CHECKED: u32 = 0x0008;

/// Menu flag: an entry that opens a popup.
pub const MF_POPUP: u32 = 0x0010;

/// Menu flag: an entry is named by its position.
pub const MF_BYPOSITION: u32 = 0x0400;

/// Menu flag: a line between entries.
pub const MF_SEPARATOR: u32 = 0x0800;

/// One entry of a menu.
#[derive(Debug, Clone)]
pub enum MenuEntry {
    /// A command.
    Item { id: u32, text: String, enabled: bool, checked: bool },
    /// A line between entries.
    Separator,
    /// An entry that opens another menu.
    Popup { text: String, submenu: Hmenu },
}

/// A menu.
#[derive(Debug, Clone)]
pub struct MenuRecord {
    pub handle: Hmenu,
    pub items: Vec<MenuEntry>,
    /// Index of the template that it was loaded from; popups and menus that the guest
    /// made have none.
    pub template: Option<usize>,
}

/// Whether a template entry opens a popup.
pub open spec fn is_popup(item: MenuItemTemplate) -> bool {
    item.flags & MF_POPUP != 0 || item.sub@.len() > 0
}

/// The caption of a template entry.
pub open spec fn caption(item: MenuItemTemplate) -> Seq<char> {
    match item.text {
        Some(text) => text@,
        None => Seq::empty(),
    }
}

/// Whether a template entry is a line: it says so, or has neither id nor caption.
pub open spec fn is_line(item: MenuItemTemplate) -> bool {
    item.flags & MF_SEPARATOR != 0 || item.id == 0 && caption(item).len() == 0
}

/// Whether an entry with these flags can be chosen.
pub open spec fn is_enabled(flags: u32) -> bool {
    flags & MF_GRAYED == 0 && flags & MF_DISABLED == 0
}

/// Whether `entry` is what a template entry makes, with its popup's menu under a
/// handle.
pub open spec fn is_entry(entry: MenuEntry, item: MenuItemTemplate, popup: int) -> bool {
    if is_popup(item) {
        entry matches MenuEntry::Popup { text, submenu } && text@ == caption(item) && submenu.0 == popup
    } else if is_line(item) {
        entry is Separator
    } else {
        entry matches MenuEntry::Item { id, text, enabled, checked } && id == item.id && text@ == caption(item)
            && enabled == is_enabled(item.flags) && checked == (item.flags & MF_CHECKED != 0)
    }
}

/// How many menus the popups among the first `n` entries make, with those inside.
pub open spec fn popup_menus(items: Seq<MenuItemTemplate>, n: int) -> nat
    decreases items, n,
{
    if n <= 0 || n > items.len() {
        0
    } else if is_popup(items[n - 1]) {
        popup_menus(items, n - 1) + 1 + popup_menus(items[n - 1].sub@, items[n - 1].sub@.len() as int)
    } else {
        popup_menus(items, n - 1)
    }
}

/// How many menus a template makes: itself and its popups.
pub open spec fn menu_count(items: Seq<MenuItemTemplate>) -> nat {
    1 + popup_menus(items, items.len() as int)
}

/// Whether the records from `at` on are a menu and its popups, each before the popups
/// inside it, with handles that count up from `handle`.
pub open spec fn is_tree(menus: Seq<MenuRecord>, at: int, items: Seq<MenuItemTemplate>, handle: int) -> bool
    decreases items,
{
    &&& 0 <= at
    &&& at + menu_count(items) <= menus.len()
    &&& menus[at].handle.0 == handle
    &&& menus[at].items@.len() == items.len()
    &&& forall|k: int| #![trigger items[k]]
        0 <= k < items.len() ==> {
            &&& is_entry(menus[at].items@[k], items[k], handle + 1 + popup_menus(items, k))
            &&& is_popup(items[k]) ==> is_tree(
                menus,
                at + 1 + popup_menus(items, k),
                items[k].sub@,
                handle + 1 + popup_menus(items, k),
            )
        }
}

/// Whether `after` is `before` with the menus of a template behind it.
pub open spec fn tree_pushed(
    before: Seq<MenuRecord>,
    after: Seq<MenuRecord>,
    template: Option<usize>,
    items: Seq<MenuItemTemplate>,
    handle: int,
) -> bool {
    let at = before.len() as int;
    &&& after.len() == at + menu_count(items)
    &&& forall|j: int| 0 <= j < at ==> #[trigger] after[j] == before[j]
    &&& is_tree(after, at, items, handle)
    &&& after[at].template == template
    &&& forall|j: int| at <= j < after.len() ==> (#[trigger] after[j]).handle.0 == handle + (j - at)
    &&& forall|j: int| at < j < after.len() ==> (#[trigger] after[j]).template is None
}

proof fn lemma_popup_menus_grow(items: Seq<MenuItemTemplate>, i: int, j: int)
    requires
        0 <= i <= j <= items.len(),
    ensures
        popup_menus(items, i) <= popup_menus(items, j),
    decreases j - i,
{
    if i < j {
        lemma_popup_menus_grow(items, i, j - 1);
    }
}

proof fn lemma_tree_kept(
    before: Seq<MenuRecord>,
    after: Seq<MenuRecord>,
    at: int,
    items: Seq<MenuItemTemplate>,
    handle: int,
)
    requires
        is_tree(before, at, items, handle),
        before.len() <= after.len(),
        forall|j: int| 0 <= j < before.len() ==> #[trigger] after[j] == before[j],
    ensures
        is_tree(after, at, items, handle),
    decreases items,
{
    assert(after[at] == before[at]);
    assert forall|k: int| #![trigger items[k]] 0 <= k < items.len() && is_popup(items[k]) implies is_tree(
        after,
        at + 1 + popup_menus(items, k),
        items[k].sub@,
        handle + 1 + popup_menus(items, k),
    ) by {
        lemma_tree_kept(
            before,
            after,
            at + 1 + popup_menus(items, k),
            items[k].sub@,
            handle + 1 + popup_menus(items, k),
        );
    }
}

/// How many menus the popups among some entries make, as far as that can be counted.
fn count_popups(items: &Vec<MenuItemTemplate>) -> (count: u64)
    ensures
        popup_menus(items@, items@.len() as int) <= u64::MAX ==> count == popup_menus(items@, items@.len() as int),
        popup_menus(items@, items@.len() as int) > u64::MAX ==> count == u64::MAX,
    decreases items@,
{
    let mut count: u64 = 0;
    let mut i: usize = 0;
    while i < items.len()
        invariant
            i <= items@.len(),
            popup_menus(items@, i as int) <= u64::MAX ==> count == popup_menus(items@, i as int),
            popup_menus(items@, i as int) > u64::MAX ==> count == u64::MAX,
        decreases items@.len() - i,
    {
        if opens_popup(&items[i]) {
            count = count.saturating_add(1).saturating_add(count_popups(&items[i].sub));
        }
        i = i + 1;
    }
    count
}

fn opens_popup(item: &MenuItemTemplate) -> (popup: bool)
    ensures
        popup == is_popup(*item),
{
    item.flags & MF_POPUP != 0 || item.sub.len() > 0
}

fn caption_of(item: &MenuItemTemplate) -> (chars: Vec<char>)
    ensures
        chars@ == caption(*item),
{
    match &item.text {
        Some(caption) => text::to_chars(caption.as_str()),
        None => {
            let none: Vec<char> = Vec::new();
            assert(none@ =~= Seq::<char>::empty());
            none
        },
    }
}

fn make_entry(item: &MenuItemTemplate, popup: u64) -> (entry: MenuEntry)
    ensures
        is_entry(entry, *item, popup as int),
{
    let chars = caption_of(item);
    if opens_popup(item) {
        MenuEntry::Popup { text: text::to_string(&chars), submenu: Hmenu(popup) }
    } else if item.flags & MF_SEPARATOR != 0 || item.id == 0 && chars.len() == 0 {
        MenuEntry::Separator
    } else {
        MenuEntry::Item {
            id: item.id as u32,
            text: text::to_string(&chars),
            enabled: item.flags & MF_GRAYED == 0 && item.flags & MF_DISABLED == 0,
            checked: item.flags & MF_CHECKED != 0,
        }
    }
}

/// The entries of one menu, its popups under handles from `handle` on.
fn make_entries(items: &Vec<MenuItemTemplate>, handle: u64) -> (entries: Vec<MenuEntry>)
    requires
        handle + popup_menus(items@, items@.len() as int) <= u64::MAX,
    ensures
        entries@.len() == items@.len(),
        forall|k: int| #![trigger items@[k]]
            0 <= k < items@.len() ==> is_entry(entries@[k], items@[k], handle + popup_menus(items@, k)),
{
    let mut entries: Vec<MenuEntry> = Vec::new();
    let mut next: u64 = handle;
    let mut i: usize = 0;
    while i < items.len()
        invariant
            i <= items@.len(),
            entries@.len() == i,
            next == handle + popup_menus(items@, i as int),
            handle + popup_menus(items@, items@.len() as int) <= u64::MAX,
            forall|k: int| #![trigger items@[k]]
                0 <= k < i ==> is_entry(entries@[k], items@[k], handle + popup_menus(items@, k)),
        decreases items@.len() - i,
    {
        entries.push(make_entry(&items[i], next));
        proof {
            lemma_popup_menus_grow(items@, i + 1, items@.len() as int);
        }
        if opens_popup(&items[i]) {
            next = next + 1 + count_popups(&items[i].sub);
        }
        i = i + 1;
    }
    entries
}

/// Whether the popups among the first `n` entries of the menu at `at` stand behind it.
#[verifier::opaque]
spec fn popups_pushed(menus: Seq<MenuRecord>, at: int, items: Seq<MenuItemTemplate>, handle: int, n: int) -> bool {
    forall|k: int| #![trigger items[k]]
        0 <= k < n && is_popup(items[k]) ==> is_tree(
            menus,
            at + 1 + popup_menus(items, k),
            items[k].sub@,
            handle + 1 + popup_menus(items, k),
        )
}

proof fn lemma_popups_pushed(
    before: Seq<MenuRecord>,
    after: Seq<MenuRecord>,
    at: int,
    items: Seq<MenuItemTemplate>,
    handle: int,
    n: int,
)
    requires
        0 <= n < items.len(),
        popups_pushed(before, at, items, handle, n),
        before.len() <= after.len(),
        forall|j: int| 0 <= j < before.len() ==> #[trigger] after[j] == before[j],
        is_popup(items[n]) ==> is_tree(
            after,
            at + 1 + popup_menus(items, n),
            items[n].sub@,
            handle + 1 + popup_menus(items, n),
        ),
    ensures
        popups_pushed(after, at, items, handle, n + 1),
{
    reveal(popups_pushed);
    assert forall|k: int| #![trigger items[k]] 0 <= k < n + 1 && is_popup(items[k]) implies is_tree(
        after,
        at + 1 + popup_menus(items, k),
        items[k].sub@,
        handle + 1 + popup_menus(items, k),
    ) by {
        if k < n {
            lemma_tree_kept(
                before,
                after,
                at + 1 + popup_menus(items, k),
                items[k].sub@,
                handle + 1 + popup_menus(items, k),
            );
        }
    }
}

/// Put the menus of a template behind the others.
fn push_tree(items: &Vec<MenuItemTemplate>, handle: u64, template: Option<usize>, menus: &mut Vec<MenuRecord>)
    requires
        handle + menu_count(items@) <= u64::MAX,
    ensures
        tree_pushed(old(menus)@, final(menus)@, template, items@, handle as int),
    decreases items@,
{
    let ghost at = menus@.len() as int;
    let entries = make_entries(items, handle + 1);
    let ghost made = entries@;
    menus.push(MenuRecord { handle: Hmenu(handle), items: entries, template });
    let ghost own = menus@[at];
    let mut next: u64 = handle + 1;
    let mut i: usize = 0;
    assert(popups_pushed(menus@, at, items@, handle as int, 0)) by {
        reveal(popups_pushed);
    }
    while i < items.len()
        invariant
            i <= items@.len(),
            at == old(menus)@.len(),
            handle + menu_count(items@) <= u64::MAX,
            next == handle + 1 + popup_menus(items@, i as int),
            menus@.len() == at + 1 + popup_menus(items@, i as int),
            forall|j: int| 0 <= j < at ==> #[trigger] menus@[j] == old(menus)@[j],
            menus@[at] == own,
            own.handle.0 == handle,
            own.template == template,
            forall|j: int| at <= j < menus@.len() ==> (#[trigger] menus@[j]).handle.0 == handle + (j - at),
            forall|j: int| at < j < menus@.len() ==> (#[trigger] menus@[j]).template is None,
            popups_pushed(menus@, at, items@, handle as int, i as int),
        decreases items@.len() - i,
    {
        let ghost before = menus@;
        if opens_popup(&items[i]) {
            proof {
                lemma_popup_menus_grow(items@, i + 1, items@.len() as int);
            }
            push_tree(&items[i].sub, next, None, menus);
            next = next + 1 + count_popups(&items[i].sub);
        }
        proof {
            lemma_popups_pushed(before, menus@, at, items@, handle as int, i as int);
        }
        i = i + 1;
    }
    proof {
        reveal(popups_pushed);
        assert(own.items@ == made);
        assert(is_tree(menus@, at, items@, handle as int));
    }
}

/// Whether menu template `i` is the one to take: of those with the id, the one whose
/// language suits best, and the first among equals.
pub open spec fn is_best_menu(templates: Seq<MenuTemplate>, id: u64, ui_language: u16, i: int) -> bool {
    &&& 0 <= i < templates.len()
    &&& templates[i].id == id
    &&& forall|j: int|
        0 <= j < templates.len() && (#[trigger] templates[j]).id == id ==> {
            let other = user32::language_rank(templates[j].lang, ui_language);
            let best = user32::language_rank(templates[i].lang, ui_language);
            other < best || other == best && i <= j
        }
}

/// The first loaded menu from `from` on that was made from a template.
pub open spec fn menu_of_template(menus: Seq<MenuRecord>, template: int, from: int) -> Option<int>
    decreases menus.len() - from,
{
    if from < 0 || from >= menus.len() {
        None
    } else if menus[from].template == Some(template as usize) {
        Some(from)
    } else {
        menu_of_template(menus, template, from + 1)
    }
}

/// What loading a menu from a template does, and the handle it answers: a loaded menu
/// keeps its handle; another gets the next one, with a handle for each of its popups,
/// and 0 says that there are not enough left.
pub open spec fn template_loaded(
    before: WindowState,
    after: WindowState,
    template: int,
    items: Seq<MenuItemTemplate>,
    handle: u64,
) -> bool {
    match menu_of_template(before.menus@, template, 0) {
        Some(k) => after == before && handle == before.menus@[k].handle.0,
        None => if before.next_menu_handle.0 + menu_count(items) > u64::MAX {
            after == before && handle == 0
        } else {
            &&& handle == before.next_menu_handle.0
            &&& tree_pushed(before.menus@, after.menus@, Some(template as usize), items, handle as int)
            &&& after == (WindowState {
                menus: after.menus,
                next_menu_handle: Hmenu((handle + menu_count(items)) as u64),
                ..before
            })
        },
    }
}

/// What loading a menu by its id does, and the handle it answers: 0 where the module
/// has no such menu.
pub open spec fn menu_loaded(
    before: WindowState,
    after: WindowState,
    templates: Seq<MenuTemplate>,
    id: u64,
    ui_language: u16,
    handle: u64,
) -> bool {
    if exists|i: int| is_best_menu(templates, id, ui_language, i) {
        exists|i: int| #[trigger] is_best_menu(templates, id, ui_language, i) && template_loaded(
            before,
            after,
            i,
            templates[i].items@,
            handle,
        )
    } else {
        after == before && handle == 0
    }
}

/// Loading a menu again answers the same handle and loads nothing.
pub proof fn menus_are_loaded_once(
    before: WindowState,
    between: WindowState,
    after: WindowState,
    templates: Seq<MenuTemplate>,
    id: u64,
    ui_language: u16,
    handle: u64,
    again: u64,
)
    requires
        templates.len() <= usize::MAX,
        menu_loaded(before, between, templates, id, ui_language, handle),
        handle != 0,
        menu_loaded(between, after, templates, id, ui_language, again),
    ensures
        again == handle,
        after == between,
{
    let i = choose|i: int| #[trigger]
        is_best_menu(templates, id, ui_language, i) && template_loaded(before, between, i, templates[i].items@, handle);
    let j = choose|j: int| #[trigger]
        is_best_menu(templates, id, ui_language, j) && template_loaded(between, after, j, templates[j].items@, again);
    assert(templates[i].id == id && templates[j].id == id);
    assert(i == j);
    lemma_tree_found(before.menus@, between.menus@, i, 0);
}

proof fn lemma_tree_found(before: Seq<MenuRecord>, after: Seq<MenuRecord>, template: int, from: int)
    requires
        0 <= from <= before.len(),
    ensures
        menu_of_template(before, template, from) matches Some(k) ==> from <= k < before.len(),
        menu_of_template(before, template, from) is None && after.len() > before.len() && after[before.len() as int].template
            == Some(template as usize) && (forall|j: int| 0 <= j < before.len() ==> #[trigger] after[j] == before[j])
            ==> menu_of_template(after, template, from) == Some(before.len() as int),
    decreases before.len() - from,
{
    if from < before.len() {
        lemma_tree_found(before, after, template, from + 1);
        assert((forall|j: int| 0 <= j < before.len() ==> #[trigger] after[j] == before[j]) ==> after[from]
            == before[from]);
    }
}

fn find_best_menu(templates: &[MenuTemplate], id: u64, ui_language: u16) -> (best: Option<usize>)
    ensures
        match best {
            Some(b) => is_best_menu(templates@, id, ui_language, b as int),
            None => forall|i: int| !is_best_menu(templates@, id, ui_language, i),
        },
{
    let mut best: Option<usize> = None;
    let mut i: usize = 0;
    while i < templates.len()
        invariant
            i <= templates@.len(),
            match best {
                Some(b) => {
                    &&& b < i
                    &&& templates@[b as int].id == id
                    &&& forall|j: int|
                        0 <= j < i && (#[trigger] templates@[j]).id == id ==> {
                            let other = user32::language_rank(templates@[j].lang, ui_language);
                            let own = user32::language_rank(templates@[b as int].lang, ui_language);
                            other < own || other == own && b <= j
                        }
                },
                None => forall|j: int| 0 <= j < i ==> (#[trigger] templates@[j]).id != id,
            },
        decreases templates@.len() - i,
    {
        if templates[i].id as u64 == id {
            match best {
                Some(b) => {
                    if user32::rank(templates[i].lang, ui_language) > user32::rank(templates[b].lang, ui_language) {
                        best = Some(i);
                    }
                },
                None => {
                    best = Some(i);
                },
            }
        }
        i = i + 1;
    }
    best
}

/// Load a menu of the main module by its resource id, in the language that suits
/// best. Menus cannot be named by a string.
pub fn load_menu(windows: &mut WindowState, templates: &[MenuTemplate], id: u64, ui_language: u16) -> (handle: u64)
    ensures
        menu_loaded(*old(windows), *final(windows), templates@, id, ui_language, handle),
        old(windows).wf() ==> final(windows).wf(),
{
    let template: usize = match find_best_menu(templates, id, ui_language) {
        Some(template) => template,
        None => {
            return 0;
        },
    };
    assert(is_best_menu(templates@, id, ui_language, template as int));
    let items = &templates[template].items;
    let mut i: usize = 0;
    while i < windows.menus.len()
        invariant
            i <= windows.menus@.len(),
            *windows == *old(windows),
            template < templates@.len(),
            items@ == templates@[template as int].items@,
            is_best_menu(templates@, id, ui_language, template as int),
            menu_of_template(windows.menus@, template as int, i as int) == menu_of_template(
                windows.menus@,
                template as int,
                0,
            ),
        decreases windows.menus@.len() - i,
    {
        if let Some(source) = windows.menus[i].template {
            if source == template {
                let handle: u64 = windows.menus[i].handle.as_u64();
                assert(template_loaded(*old(windows), *windows, template as int, items@, handle));
                return handle;
            }
        }
        i = i + 1;
    }
    let handle: u64 = windows.next_menu_handle.as_u64();
    let popups: u64 = count_popups(items);
    if popups == u64::MAX || handle > u64::MAX - 1 - popups {
        assert(template_loaded(*old(windows), *windows, template as int, items@, 0));
        return 0;
    }
    push_tree(items, handle, Some(template), &mut windows.menus);
    windows.next_menu_handle = Hmenu(handle + 1 + popups);
    assert(template_loaded(*old(windows), *windows, template as int, items@, handle));
    proof {
        if old(windows).wf() {
            assert forall|k: int| 0 <= k < windows.menus@.len() implies (#[trigger] windows.menus@[k]).handle.0
                < windows.next_menu_handle.0 by {
                if k < old(windows).menus@.len() {
                    assert(windows.menus@[k] == old(windows).menus@[k]);
                }
            }
        }
    }
    handle
}

/// The first menu from `from` on with a handle.
pub open spec fn menu_from(menus: Seq<MenuRecord>, handle: u64, from: int) -> Option<int>
    decreases menus.len() - from,
{
    if from < 0 || from >= menus.len() {
        None
    } else if menus[from].handle == Hmenu(handle) {
        Some(from)
    } else {
        menu_from(menus, handle, from + 1)
    }
}

fn find_menu(menus: &[MenuRecord], handle: u64) -> (index: Option<usize>)
    ensures
        match index {
            Some(i) => menu_from(menus@, handle, 0) == Some(i as int) && i < menus@.len(),
            None => menu_from(menus@, handle, 0) is None,
        },
{
    let mut i: usize = 0;
    while i < menus.len()
        invariant
            i <= menus@.len(),
            menu_from(menus@, handle, i as int) == menu_from(menus@, handle, 0),
        decreases menus@.len() - i,
    {
        if menus[i].handle.as_u64() == handle {
            return Some(i);
        }
        i = i + 1;
    }
    None
}

/// The place of the first command with an id in a menu, from an entry on: the menu and
/// the entry there. Popups are searched where they stand, down to a depth.
pub open spec fn command_place(menus: Seq<MenuRecord>, at: int, id: u32, entry: int, depth: nat) -> Option<(int, int)>
    decreases depth, menus[at].items@.len() - entry,
{
    if entry < 0 || entry >= menus[at].items@.len() {
        None
    } else {
        match menus[at].items@[entry] {
            MenuEntry::Item { id: own, .. } => if own == id {
                Some((at, entry))
            } else {
                command_place(menus, at, id, entry + 1, depth)
            },
            MenuEntry::Separator => command_place(menus, at, id, entry + 1, depth),
            MenuEntry::Popup { submenu, .. } => {
                let inside = match menu_from(menus, submenu.0, 0) {
                    Some(popup) => if depth == 0 {
                        None
                    } else {
                        command_place(menus, popup, id, 0, (depth - 1) as nat)
                    },
                    None => None,
                };
                match inside {
                    Some(place) => Some(place),
                    None => command_place(menus, at, id, entry + 1, depth),
                }
            },
        }
    }
}

/// The place of an entry of a menu: by its position, or by its command id anywhere in
/// the tree. A popup that leads back to itself is not followed for ever: no way through
/// the tree is longer than there are menus.
pub open spec fn place(menus: Seq<MenuRecord>, handle: u64, item: u32, flags: u32) -> Option<(int, int)> {
    match menu_from(menus, handle, 0) {
        Some(at) => if flags & MF_BYPOSITION == 0 {
            command_place(menus, at, item, 0, menus.len())
        } else if item < menus[at].items@.len() {
            Some((at, item as int))
        } else {
            None
        },
        None => None,
    }
}

proof fn lemma_menu_from(menus: Seq<MenuRecord>, handle: u64, from: int)
    requires
        0 <= from <= menus.len(),
    ensures
        match menu_from(menus, handle, from) {
            Some(i) => {
                &&& from <= i < menus.len()
                &&& menus[i].handle == Hmenu(handle)
                &&& forall|j: int| from <= j < i ==> (#[trigger] menus[j]).handle != Hmenu(handle)
            },
            None => forall|j: int| from <= j < menus.len() ==> (#[trigger] menus[j]).handle != Hmenu(handle),
        },
    decreases menus.len() - from,
{
    if from < menus.len() && menus[from].handle != Hmenu(handle) {
        lemma_menu_from(menus, handle, from + 1);
    }
}

fn find_command(menus: &[MenuRecord], at: usize, id: u32, depth: usize) -> (found: Option<(usize, usize)>)
    requires
        at < menus@.len(),
    ensures
        match found {
            Some((menu, entry)) => {
                &&& command_place(menus@, at as int, id, 0, depth as nat) == Some((menu as int, entry as int))
                &&& menu < menus@.len()
                &&& entry < menus@[menu as int].items@.len()
                &&& menus@[menu as int].items@[entry as int] is Item
            },
            None => command_place(menus@, at as int, id, 0, depth as nat) is None,
        },
    decreases depth,
{
    let mut i: usize = 0;
    while i < menus[at].items.len()
        invariant
            at < menus@.len(),
            i <= menus@[at as int].items@.len(),
            command_place(menus@, at as int, id, i as int, depth as nat) == command_place(
                menus@,
                at as int,
                id,
                0,
                depth as nat,
            ),
        decreases menus@[at as int].items@.len() - i,
    {
        match &menus[at].items[i] {
            MenuEntry::Item { id: own, .. } => {
                if *own == id {
                    return Some((at, i));
                }
            },
            MenuEntry::Separator => {},
            MenuEntry::Popup { submenu, .. } => {
                if depth > 0 {
                    if let Some(popup) = find_menu(menus, submenu.as_u64()) {
                        if let Some(found) = find_command(menus, popup, id, depth - 1) {
                            return Some(found);
                        }
                    }
                }
            },
        }
        i = i + 1;
    }
    None
}

fn find_place(menus: &[MenuRecord], handle: u64, item: u32, flags: u32) -> (found: Option<(usize, usize)>)
    ensures
        match found {
            Some((menu, entry)) => {
                &&& place(menus@, handle, item, flags) == Some((menu as int, entry as int))
                &&& menu < menus@.len()
                &&& entry < menus@[menu as int].items@.len()
            },
            None => place(menus@, handle, item, flags) is None,
        },
{
    match find_menu(menus, handle) {
        Some(at) => {
            if flags & MF_BYPOSITION == 0 {
                find_command(menus, at, item, menus.len())
            } else if (item as u64) < menus[at].items.len() as u64 {
                Some((at, item as usize))
            } else {
                None
            }
        },
        None => None,
    }
}

/// The flags that an entry reports.
pub open spec fn entry_state(entry: MenuEntry) -> u64 {
    match entry {
        MenuEntry::Item { enabled, checked, .. } => {
            ((if enabled {
                0
            } else {
                MF_GRAYED
            }) + (if checked {
                MF_CHECKED
            } else {
                0
            })) as u64
        },
        MenuEntry::Separator => MF_SEPARATOR as u64,
        MenuEntry::Popup { .. } => MF_POPUP as u64,
    }
}

/// The state of an entry of a menu.
pub open spec fn menu_state(menus: Seq<MenuRecord>, handle: u64, item: u32, flags: u32) -> u64 {
    match place(menus, handle, item, flags) {
        Some((menu, entry)) => entry_state(menus[menu].items@[entry]),
        None => MENU_STATE_NONE,
    }
}

/// The state of an entry, by its command id or its position; an unknown menu or entry
/// has none.
pub fn get_menu_state(windows: &WindowState, handle: u64, item: u32, flags: u32) -> (state: u64)
    ensures
        state == menu_state(windows.menus@, handle, item, flags),
{
    match find_place(&windows.menus, handle, item, flags) {
        Some((menu, entry)) => match &windows.menus[menu].items[entry] {
            MenuEntry::Item { enabled, checked, .. } => {
                let gray: u32 = if *enabled {
                    0
                } else {
                    MF_GRAYED
                };
                let check: u32 = if *checked {
                    MF_CHECKED
                } else {
                    0
                };
                (gray + check) as u64
            },
            MenuEntry::Separator => MF_SEPARATOR as u64,
            MenuEntry::Popup { .. } => MF_POPUP as u64,
        },
        None => MENU_STATE_NONE,
    }
}

/// Whether `after` is `before` with one menu's entries changed, which the host must see.
pub open spec fn entries_changed(before: WindowState, after: WindowState, menu: int, entries: Seq<MenuEntry>) -> bool {
    let record = after.menus@[menu];
    &&& after.menus@ == before.menus@.update(menu, record)
    &&& record == (MenuRecord { items: record.items, ..before.menus@[menu] })
    &&& record.items@ == entries
    &&& after == (WindowState {
        menus: after.menus,
        menu_dirty: true,
        window_mirror_rev: vstd::wrapping::u64_specs::wrapping_add(before.window_mirror_rev, 1),
        ..before
    })
}

/// A command with another enabled state.
pub open spec fn with_enabled(entry: MenuEntry, enabled: bool) -> MenuEntry {
    match entry {
        MenuEntry::Item { id, text, checked, .. } => MenuEntry::Item { id, text, enabled, checked },
        _ => entry,
    }
}

/// A command with or without its check mark.
pub open spec fn with_checked(entry: MenuEntry, checked: bool) -> MenuEntry {
    match entry {
        MenuEntry::Item { id, text, enabled, .. } => MenuEntry::Item { id, text, enabled, checked },
        _ => entry,
    }
}

/// What graying or enabling the entry at a place does, and what it answers: whether the
/// command was grayed. An entry that is no command, or does not exist, is left alone.
pub open spec fn item_enabled(
    before: WindowState,
    after: WindowState,
    place: Option<(int, int)>,
    enabled: bool,
    previous: u64,
) -> bool {
    match place {
        Some((menu, entry)) => match before.menus@[menu].items@[entry] {
            MenuEntry::Item { enabled: was, .. } => {
                let items = before.menus@[menu].items@;
                &&& entries_changed(before, after, menu, items.update(entry, with_enabled(items[entry], enabled)))
                &&& previous == if was {
                    0
                } else {
                    MF_GRAYED
                }
            },
            _ => after == before && previous == MENU_STATE_NONE,
        },
        None => after == before && previous == MENU_STATE_NONE,
    }
}

/// What checking or unchecking the entry at a place does, and what it answers: whether
/// the command was checked. An entry that is no command, or does not exist, is left
/// alone.
pub open spec fn item_checked(
    before: WindowState,
    after: WindowState,
    place: Option<(int, int)>,
    checked: bool,
    previous: u64,
) -> bool {
    match place {
        Some((menu, entry)) => match before.menus@[menu].items@[entry] {
            MenuEntry::Item { checked: was, .. } => {
                let items = before.menus@[menu].items@;
                &&& entries_changed(before, after, menu, items.update(entry, with_checked(items[entry], checked)))
                &&& previous == if was {
                    MF_CHECKED
                } else {
                    0
                }
            },
            _ => after == before && previous == MENU_STATE_NONE,
        },
        None => after == before && previous == MENU_STATE_NONE,
    }
}

/// Enable or gray a command, by its id or its position.
pub fn enable_menu_item(windows: &mut WindowState, handle: u64, item: u32, flags: u32) -> (previous: u64)
    ensures
        item_enabled(
            *old(windows),
            *final(windows),
            place(old(windows).menus@, handle, item, flags),
            is_enabled(flags),
            previous,
        ),
        old(windows).wf() ==> final(windows).wf(),
{
    if let Some((menu, entry)) = find_place(&windows.menus, handle, item, flags) {
        if let MenuEntry::Item { enabled: was, .. } = &windows.menus[menu].items[entry] {
            let previous: u64 = if *was {
                0
            } else {
                MF_GRAYED as u64
            };
            if let MenuEntry::Item { enabled, .. } = &mut windows.menus[menu].items[entry] {
                *enabled = flags & MF_GRAYED == 0 && flags & MF_DISABLED == 0;
            }
            show_menus(windows);
            assert(windows.menus@ =~= old(windows).menus@.update(menu as int, windows.menus@[menu as int]));
            return previous;
        }
    }
    MENU_STATE_NONE
}

/// Check or uncheck a command, by its id or its position.
pub fn check_menu_item(windows: &mut WindowState, handle: u64, item: u32, flags: u32) -> (previous: u64)
    ensures
        item_checked(
            *old(windows),
            *final(windows),
            place(old(windows).menus@, handle, item, flags),
            flags & MF_CHECKED != 0,
            previous,
        ),
        old(windows).wf() ==> final(windows).wf(),
{
    if let Some((menu, entry)) = find_place(&windows.menus, handle, item, flags) {
        if let MenuEntry::Item { checked: was, .. } = &windows.menus[menu].items[entry] {
            let previous: u64 = if *was {
                MF_CHECKED as u64
            } else {
                0
            };
            if let MenuEntry::Item { checked, .. } = &mut windows.menus[menu].items[entry] {
                *checked = flags & MF_CHECKED != 0;
            }
            show_menus(windows);
            assert(windows.menus@ =~= old(windows).menus@.update(menu as int, windows.menus@[menu as int]));
            return previous;
        }
    }
    MENU_STATE_NONE
}

/// Let the host see that menus changed.
fn show_menus(windows: &mut WindowState)
    ensures
        *final(windows) == (WindowState {
            menu_dirty: true,
            window_mirror_rev: vstd::wrapping::u64_specs::wrapping_add(old(windows).window_mirror_rev, 1),
            ..*old(windows)
        }),
{
    windows.menu_dirty = true;
    windows.window_mirror_rev = windows.window_mirror_rev.wrapping_add(1);
}

/// Make an empty menu. Answers its handle, 0 where handles have run out. There is
/// nothing in it yet for the host to see.
pub fn create_menu(windows: &mut WindowState) -> (handle: u64)
    ensures
        old(windows).wf() ==> final(windows).wf(),
        if old(windows).next_menu_handle.0 == u64::MAX {
            *final(windows) == *old(windows) && handle == 0
        } else {
            &&& handle == old(windows).next_menu_handle.0
            &&& final(windows).menus@.len() == old(windows).menus@.len() + 1
            &&& final(windows).menus@.drop_last() == old(windows).menus@
            &&& final(windows).menus@.last().handle == Hmenu(handle)
            &&& final(windows).menus@.last().items@ == Seq::<MenuEntry>::empty()
            &&& final(windows).menus@.last().template is None
            &&& *final(windows) == (WindowState {
                menus: final(windows).menus,
                next_menu_handle: Hmenu((handle + 1) as u64),
                ..*old(windows)
            })
        },
{
    let handle: u64 = windows.next_menu_handle.as_u64();
    if handle == u64::MAX {
        return 0;
    }
    windows.menus.push(MenuRecord { handle: Hmenu(handle), items: Vec::new(), template: None });
    windows.next_menu_handle = Hmenu(handle + 1);
    proof {
        assert(windows.menus@.drop_last() =~= old(windows).menus@);
        if old(windows).wf() {
            assert forall|k: int| 0 <= k < windows.menus@.len() implies (#[trigger] windows.menus@[k]).handle.0
                < windows.next_menu_handle.0 by {
                if k < old(windows).menus@.len() {
                    assert(windows.menus@[k] == old(windows).menus@[k]);
                }
            }
        }
    }
    handle
}

/// Whether `entry` is what the arguments of an append ask for: a line, a popup whose
/// menu is named in place of an id, or a command.
pub open spec fn is_appended(entry: MenuEntry, flags: u32, item: u64, caption: String) -> bool {
    if flags & MF_SEPARATOR != 0 {
        entry is Separator
    } else if flags & MF_POPUP != 0 {
        entry == (MenuEntry::Popup { text: caption, submenu: Hmenu(item) })
    } else {
        entry == (MenuEntry::Item {
            id: messages::low_dword(item) as u32,
            text: caption,
            enabled: is_enabled(flags),
            checked: flags & MF_CHECKED != 0,
        })
    }
}

/// Put an entry at the end of a menu. An unknown menu is left alone.
pub fn append_menu(windows: &mut WindowState, handle: u64, flags: u32, item: u64, caption: String) -> (appended: bool)
    ensures
        old(windows).wf() ==> final(windows).wf(),
        match menu_from(old(windows).menus@, handle, 0) {
            Some(menu) => {
                let items = final(windows).menus@[menu].items@;
                &&& appended
                &&& items.len() == old(windows).menus@[menu].items@.len() + 1
                &&& is_appended(items.last(), flags, item, caption)
                &&& entries_changed(
                    *old(windows),
                    *final(windows),
                    menu,
                    old(windows).menus@[menu].items@.push(items.last()),
                )
            },
            None => !appended && *final(windows) == *old(windows),
        },
{
    let menu: usize = match find_menu(&windows.menus, handle) {
        Some(menu) => menu,
        None => {
            return false;
        },
    };
    let entry = if flags & MF_SEPARATOR != 0 {
        MenuEntry::Separator
    } else if flags & MF_POPUP != 0 {
        MenuEntry::Popup { text: caption, submenu: Hmenu(item) }
    } else {
        MenuEntry::Item {
            id: messages::lodword(item),
            text: caption,
            enabled: flags & MF_GRAYED == 0 && flags & MF_DISABLED == 0,
            checked: flags & MF_CHECKED != 0,
        }
    };
    windows.menus[menu].items.push(entry);
    show_menus(windows);
    assert(windows.menus@ =~= old(windows).menus@.update(menu as int, windows.menus@[menu as int]));
    true
}

/// Destroy a menu. An unknown one is left alone.
pub fn destroy_menu(windows: &mut WindowState, handle: u64) -> (destroyed: bool)
    ensures
        old(windows).wf() ==> final(windows).wf(),
        match menu_from(old(windows).menus@, handle, 0) {
            Some(menu) => {
                &&& destroyed
                &&& final(windows).menus@ == old(windows).menus@.remove(menu)
                &&& *final(windows) == (WindowState {
                    menus: final(windows).menus,
                    menu_dirty: true,
                    window_mirror_rev: vstd::wrapping::u64_specs::wrapping_add(old(windows).window_mirror_rev, 1),
                    ..*old(windows)
                })
            },
            None => !destroyed && *final(windows) == *old(windows),
        },
{
    match find_menu(&windows.menus, handle) {
        Some(menu) => {
            windows.menus.remove(menu);
            show_menus(windows);
            proof {
                if old(windows).wf() {
                    assert forall|k: int| 0 <= k < windows.menus@.len() implies (#[trigger] windows.menus@[k]).handle.0
                        < windows.next_menu_handle.0 by {
                        assert(windows.menus@[k] == old(windows).menus@[if k < menu {
                            k
                        } else {
                            k + 1
                        }]);
                    }
                }
            }
            true
        },
        None => false,
    }
}

/// The menu of a window, 0 where it has none or is unknown.
pub fn get_menu(windows: &WindowState, hwnd: u64) -> (handle: u64)
    ensures
        handle == match window::window_index(windows.windows@, hwnd) {
            Some(i) => windows.windows@[i].menu_handle,
            None => 0,
        },
{
    match window::find_window(&windows.windows, hwnd) {
        Some(i) => windows.windows[i].menu_handle,
        None => 0,
    }
}

/// Give a window another menu. The host sees a menu that changed; an unknown window is
/// left alone.
pub fn set_menu(windows: &mut WindowState, hwnd: u64, menu: u64) -> (set: bool)
    requires
        old(windows).wf(),
    ensures
        final(windows).wf(),
        match window::window_index(old(windows).windows@, hwnd) {
            Some(i) => {
                &&& set
                &&& if old(windows).windows@[i].menu_handle == menu {
                    *final(windows) == *old(windows)
                } else {
                    &&& final(windows).windows@ == old(windows).windows@.update(
                        i,
                        WindowRecord { menu_handle: menu, ..old(windows).windows@[i] },
                    )
                    &&& *final(windows) == (WindowState {
                        windows: final(windows).windows,
                        menu_dirty: true,
                        window_mirror_rev: vstd::wrapping::u64_specs::wrapping_add(old(windows).window_mirror_rev, 1),
                        ..*old(windows)
                    })
                }
            },
            None => !set && *final(windows) == *old(windows),
        },
{
    match window::find_window(&windows.windows, hwnd) {
        Some(i) => {
            if windows.windows[i].menu_handle != menu {
                windows.windows[i].menu_handle = menu;
                show_menus(windows);
            }
            true
        },
        None => false,
    }
}

/// The first command with an id among template entries from `from` on, popups searched
/// where they stand.
pub open spec fn template_command(items: Seq<MenuItemTemplate>, id: u32, from: int) -> Option<MenuItemTemplate>
    decreases items, items.len() - from,
{
    if from < 0 || from >= items.len() {
        None
    } else if is_popup(items[from]) {
        match template_command(items[from].sub@, id, 0) {
            Some(item) => Some(item),
            None => template_command(items, id, from + 1),
        }
    } else if !is_line(items[from]) && items[from].id == id {
        Some(items[from])
    } else {
        template_command(items, id, from + 1)
    }
}

/// A menu that was loaded now answers the state of every command of its template, as
/// the template has it, and of no other.
pub proof fn loaded_commands_are_found(
    before: WindowState,
    after: WindowState,
    template: int,
    items: Seq<MenuItemTemplate>,
    handle: u64,
    id: u32,
)
    requires
        before.wf(),
        menu_of_template(before.menus@, template, 0) is None,
        template_loaded(before, after, template, items, handle),
        handle != 0,
    ensures
        menu_state(after.menus@, handle, id, 0) == match template_command(items, id, 0) {
            Some(item) => ((if is_enabled(item.flags) {
                0
            } else {
                MF_GRAYED
            }) + (if item.flags & MF_CHECKED != 0 {
                MF_CHECKED
            } else {
                0
            })) as u64,
            None => MENU_STATE_NONE,
        },
{
    let menus = after.menus@;
    let at = before.menus@.len() as int;
    assert(0u32 & MF_BYPOSITION == 0) by (bit_vector);
    assert forall|j: int| 0 <= j < at implies (#[trigger] menus[j]).handle.0 < handle by {
        assert(menus[j] == before.menus@[j]);
    }
    lemma_numbered(menus, at, handle as int, at);
    lemma_tree_searched(menus, at, handle as int, at, items, id, 0, menus.len());
}

proof fn lemma_numbered(menus: Seq<MenuRecord>, base: int, first: int, at: int)
    requires
        0 <= base <= at < menus.len(),
        forall|j: int| 0 <= j < base ==> (#[trigger] menus[j]).handle.0 < first,
        forall|j: int| base <= j < menus.len() ==> (#[trigger] menus[j]).handle.0 == first + (j - base),
    ensures
        menu_from(menus, menus[at].handle.0, 0) == Some(at),
{
    lemma_menu_from(menus, menus[at].handle.0, 0);
}

proof fn lemma_tree_searched(
    menus: Seq<MenuRecord>,
    base: int,
    first: int,
    at: int,
    items: Seq<MenuItemTemplate>,
    id: u32,
    from: int,
    depth: nat,
)
    requires
        0 <= base <= at,
        forall|j: int| 0 <= j < base ==> (#[trigger] menus[j]).handle.0 < first,
        forall|j: int| base <= j < menus.len() ==> (#[trigger] menus[j]).handle.0 == first + (j - base),
        is_tree(menus, at, items, first + (at - base)),
        0 <= from <= items.len(),
        depth >= popup_menus(items, items.len() as int),
    ensures
        match (template_command(items, id, from), command_place(menus, at, id, from, depth)) {
            (Some(item), Some((menu, entry))) => {
                &&& !is_popup(item)
                &&& !is_line(item)
                &&& is_entry(menus[menu].items@[entry], item, 0)
            },
            (None, None) => true,
            _ => false,
        },
    decreases items, items.len() - from,
{
    if from < items.len() {
        let item = items[from];
        let inside = at + 1 + popup_menus(items, from);
        assert(is_entry(menus[at].items@[from], item, first + (at - base) + 1 + popup_menus(items, from)));
        lemma_tree_searched(menus, base, first, at, items, id, from + 1, depth);
        if is_popup(item) {
            lemma_popup_menus_grow(items, from + 1, items.len() as int);
            assert(is_tree(menus, inside, item.sub@, first + (inside - base)));
            lemma_numbered(menus, base, first, inside);
            lemma_tree_searched(menus, base, first, inside, item.sub@, id, 0, (depth - 1) as nat);
        }
    }
}

/// Whether two entries differ in no more than the state of a command.
pub open spec fn same_shape(a: MenuEntry, b: MenuEntry) -> bool {
    match (a, b) {
        (MenuEntry::Item { id, text, .. }, MenuEntry::Item { id: id2, text: text2, .. }) => id == id2 && text == text2,
        (MenuEntry::Separator, MenuEntry::Separator) => true,
        (MenuEntry::Popup { .. }, MenuEntry::Popup { .. }) => a == b,
        _ => false,
    }
}

spec fn same_shapes(before: Seq<MenuRecord>, after: Seq<MenuRecord>) -> bool {
    &&& before.len() == after.len()
    &&& forall|m: int| #![trigger before[m]]
        0 <= m < before.len() ==> {
            &&& after[m].handle == before[m].handle
            &&& after[m].items@.len() == before[m].items@.len()
            &&& forall|e: int| #![trigger before[m].items@[e]]
                0 <= e < before[m].items@.len() ==> same_shape(before[m].items@[e], after[m].items@[e])
        }
}

proof fn lemma_same_menu(before: Seq<MenuRecord>, after: Seq<MenuRecord>, handle: u64, from: int)
    requires
        same_shapes(before, after),
        0 <= from <= before.len(),
    ensures
        menu_from(after, handle, from) == menu_from(before, handle, from),
    decreases before.len() - from,
{
    if from < before.len() {
        assert(after[from].handle == before[from].handle);
        lemma_same_menu(before, after, handle, from + 1);
    }
}

proof fn lemma_same_place(
    before: Seq<MenuRecord>,
    after: Seq<MenuRecord>,
    at: int,
    id: u32,
    entry: int,
    depth: nat,
)
    requires
        same_shapes(before, after),
        0 <= at < before.len(),
    ensures
        command_place(after, at, id, entry, depth) == command_place(before, at, id, entry, depth),
    decreases depth, before[at].items@.len() - entry,
{
    assert(after[at].items@.len() == before[at].items@.len());
    if 0 <= entry < before[at].items@.len() {
        assert(same_shape(before[at].items@[entry], after[at].items@[entry]));
        lemma_same_place(before, after, at, id, entry + 1, depth);
        if let MenuEntry::Popup { submenu, .. } = before[at].items@[entry] {
            lemma_same_menu(before, after, submenu.0, 0);
            lemma_menu_from(before, submenu.0, 0);
            if depth > 0 {
                if let Some(popup) = menu_from(before, submenu.0, 0) {
                    lemma_same_place(before, after, popup, id, 0, (depth - 1) as nat);
                }
            }
        }
    }
}

proof fn lemma_places_kept(before: Seq<MenuRecord>, after: Seq<MenuRecord>, handle: u64, item: u32, flags: u32)
    requires
        same_shapes(before, after),
    ensures
        place(after, handle, item, flags) == place(before, handle, item, flags),
{
    lemma_same_menu(before, after, handle, 0);
    lemma_menu_from(before, handle, 0);
    if let Some(at) = menu_from(before, handle, 0) {
        assert(after[at].items@.len() == before[at].items@.len());
        lemma_same_place(before, after, at, item, 0, before.len());
    }
}

/// A command that was grayed or enabled reports it, with its check mark as before, and
/// setting it once more answers what was set.
pub proof fn enabled_states_are_read_back(
    before: WindowState,
    between: WindowState,
    after: WindowState,
    handle: u64,
    item: u32,
    flags: u32,
    enabled: bool,
    later: bool,
    previous: u64,
    again: u64,
)
    requires
        previous != MENU_STATE_NONE,
        item_enabled(before, between, place(before.menus@, handle, item, flags), enabled, previous),
        item_enabled(between, after, place(between.menus@, handle, item, flags), later, again),
    ensures
        place(between.menus@, handle, item, flags) == place(before.menus@, handle, item, flags),
        menu_state(between.menus@, handle, item, flags) == (if enabled {
            0
        } else {
            MF_GRAYED
        }) + (if menu_state(before.menus@, handle, item, flags) >= MF_CHECKED {
            MF_CHECKED
        } else {
            0
        }),
        again == if enabled {
            0
        } else {
            MF_GRAYED
        },
{
    lemma_place_in_range(before.menus@, handle, item, flags);
    let (menu, entry) = place(before.menus@, handle, item, flags)->0;
    assert(between.menus@[menu].items@ == before.menus@[menu].items@.update(
        entry,
        with_enabled(before.menus@[menu].items@[entry], enabled),
    ));
    lemma_places_kept(before.menus@, between.menus@, handle, item, flags);
}

/// A command that was checked or unchecked reports it, grayed or not as before, and
/// setting it once more answers what was set.
pub proof fn check_marks_are_read_back(
    before: WindowState,
    between: WindowState,
    after: WindowState,
    handle: u64,
    item: u32,
    flags: u32,
    checked: bool,
    later: bool,
    previous: u64,
    again: u64,
)
    requires
        previous != MENU_STATE_NONE,
        item_checked(before, between, place(before.menus@, handle, item, flags), checked, previous),
        item_checked(between, after, place(between.menus@, handle, item, flags), later, again),
    ensures
        place(between.menus@, handle, item, flags) == place(before.menus@, handle, item, flags),
        menu_state(between.menus@, handle, item, flags) == (if menu_state(before.menus@, handle, item, flags) % 2 == 0 {
            0
        } else {
            MF_GRAYED
        }) + (if checked {
            MF_CHECKED
        } else {
            0
        }),
        again == if checked {
            MF_CHECKED
        } else {
            0
        },
{
    lemma_place_in_range(before.menus@, handle, item, flags);
    let (menu, entry) = place(before.menus@, handle, item, flags)->0;
    assert(between.menus@[menu].items@ == before.menus@[menu].items@.update(
        entry,
        with_checked(before.menus@[menu].items@[entry], checked),
    ));
    lemma_places_kept(before.menus@, between.menus@, handle, item, flags);
}

proof fn lemma_place_in_range(menus: Seq<MenuRecord>, handle: u64, item: u32, flags: u32)
    ensures
        place(menus, handle, item, flags) matches Some((menu, entry)) ==> 0 <= menu < menus.len() && 0 <= entry
            < menus[menu].items@.len(),
{
    lemma_menu_from(menus, handle, 0);
    if let Some(at) = menu_from(menus, handle, 0) {
        lemma_command_in_range(menus, at, item, 0, menus.len());
    }
}

proof fn lemma_command_in_range(menus: Seq<MenuRecord>, at: int, id: u32, entry: int, depth: nat)
    requires
        0 <= at < menus.len(),
    ensures
        command_place(menus, at, id, entry, depth) matches Some((menu, found)) ==> 0 <= menu < menus.len() && 0 <= found
            < menus[menu].items@.len(),
    decreases depth, menus[at].items@.len() - entry,
{
    if 0 <= entry < menus[at].items@.len() {
        lemma_command_in_range(menus, at, id, entry + 1, depth);
        if let MenuEntry::Popup { submenu, .. } = menus[at].items@[entry] {
            lemma_menu_from(menus, submenu.0, 0);
            if depth > 0 {
                if let Some(popup) = menu_from(menus, submenu.0, 0) {
                    lemma_command_in_range(menus, popup, id, 0, (depth - 1) as nat);
                }
            }
        }
    }
}

} // verus!
