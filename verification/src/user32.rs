//! USER32 services over the window state: message names, accelerator tables,
//! window procedures, window creation.
use vstd::prelude::*;

use crate::controls::{ControlClassKind, ControlState, WindowClassIdentifier};
use crate::handles::{Haccel, Hfont, Hwnd};
use crate::menus;
use crate::resources::{AccelTemplate, MenuTemplate, StringBlock};
use crate::text;
use crate::window;
use crate::window::{AccelRecord, WindowClassRecord, WindowRecord, WindowState};

verus! {

/// The first id of a registered window message.
pub const FIRST_MESSAGE_ID: u64 = 0xC000;

/// How many window messages can be registered.
pub const MESSAGE_ID_COUNT: usize = 0x4000;

/// Style bit: the window lies inside another.
pub const WS_CHILD: u32 = 0x4000_0000;

/// The last atom.
pub const MAX_ATOM: u32 = 0xFFFF;

/// Style bit: the window is shown.
pub const WS_VISIBLE: u32 = 0x1000_0000;

/// The language that resources fall back to.
pub const FALLBACK_LANGUAGE: u16 = 0x0409;

/// The first name from `from` on that equals `name` without regard to case.
pub open spec fn name_from(names: Seq<Vec<char>>, name: Seq<char>, from: int) -> Option<int>
    decreases names.len() - from,
{
    if from < 0 || from >= names.len() {
        None
    } else if text::same_name(names[from]@, name) {
        Some(from)
    } else {
        name_from(names, name, from + 1)
    }
}

/// What registering a name does to the registered names, and the id it answers: a
/// known name keeps its id, a new one gets the next, and 0 says that there is none
/// left.
pub open spec fn registered(before: Seq<Vec<char>>, name: Seq<char>, after: Seq<Vec<char>>, id: u64) -> bool {
    match name_from(before, name, 0) {
        Some(i) => after == before && id == FIRST_MESSAGE_ID + i,
        None => if before.len() >= MESSAGE_ID_COUNT {
            after == before && id == 0
        } else {
            &&& after.len() == before.len() + 1
            &&& after.drop_last() == before
            &&& after.last()@ == name
            &&& id == FIRST_MESSAGE_ID + before.len()
        },
    }
}

proof fn lemma_name_from(names: Seq<Vec<char>>, name: Seq<char>, from: int)
    requires
        0 <= from <= names.len(),
    ensures
        match name_from(names, name, from) {
            Some(i) => from <= i < names.len() && text::same_name(names[i]@, name),
            None => forall|j: int| from <= j < names.len() ==> !text::same_name((#[trigger] names[j])@, name),
        },
    decreases names.len() - from,
{
    if from < names.len() && !text::same_name(names[from]@, name) {
        lemma_name_from(names, name, from + 1);
    }
}

proof fn lemma_name_pushed(before: Seq<Vec<char>>, after: Seq<Vec<char>>, name: Seq<char>, from: int)
    requires
        0 <= from <= before.len(),
        after.len() == before.len() + 1,
        after.drop_last() == before,
    ensures
        name_from(before, name, from) is Some ==> name_from(after, name, from) == name_from(before, name, from),
        name_from(before, name, from) is None ==> name_from(after, name, from) == if text::same_name(
            after.last()@,
            name,
        ) {
            Some(before.len() as int)
        } else {
            None
        },
    decreases before.len() - from,
{
    assert forall|j: int| 0 <= j < before.len() implies #[trigger] after[j] == before[j] by {
        assert(after.drop_last()[j] == before[j]);
    }
    if from < before.len() {
        if !text::same_name(before[from]@, name) {
            lemma_name_pushed(before, after, name, from + 1);
        }
    } else {
        reveal_with_fuel(name_from, 3);
    }
}

/// A name that got an id keeps it: registering the same name again, in whatever
/// case, answers the same id and registers nothing.
pub proof fn message_ids_are_stable(
    before: Seq<Vec<char>>,
    name: Seq<char>,
    between: Seq<Vec<char>>,
    id: u64,
    again: Seq<char>,
    after: Seq<Vec<char>>,
    id_again: u64,
)
    requires
        registered(before, name, between, id),
        id != 0,
        text::same_name(name, again),
        registered(between, again, after, id_again),
    ensures
        id_again == id,
        after == between,
        FIRST_MESSAGE_ID <= id,
{
    lemma_name_from(before, name, 0);
    lemma_same_lookup(before, name, again, 0);
    if name_from(before, name, 0) is None {
        lemma_name_pushed(before, between, again, 0);
    }
}

proof fn lemma_same_lookup(names: Seq<Vec<char>>, name: Seq<char>, again: Seq<char>, from: int)
    requires
        text::same_name(name, again),
    ensures
        name_from(names, name, from) == name_from(names, again, from),
    decreases names.len() - from,
{
    if 0 <= from < names.len() {
        lemma_same_lookup(names, name, again, from + 1);
    }
}

/// Different names get different ids.
pub proof fn message_ids_are_distinct(
    before: Seq<Vec<char>>,
    name: Seq<char>,
    between: Seq<Vec<char>>,
    id: u64,
    other: Seq<char>,
    after: Seq<Vec<char>>,
    other_id: u64,
)
    requires
        registered(before, name, between, id),
        id != 0,
        !text::same_name(name, other),
        registered(between, other, after, other_id),
    ensures
        other_id != id,
{
    lemma_name_from(before, name, 0);
    lemma_name_from(between, other, 0);
    if name_from(before, name, 0) is None {
        lemma_name_pushed(before, between, other, 0);
        lemma_name_from(before, other, 0);
    }
}

/// Register a window-message name.
pub fn register_window_message(windows: &mut WindowState, name: Vec<char>) -> (id: u64)
    requires
        old(windows).wf(),
    ensures
        final(windows).wf(),
        registered(old(windows).registered_messages@, name@, final(windows).registered_messages@, id),
        *final(windows) == (WindowState { registered_messages: final(windows).registered_messages, ..*old(windows) }),
{
    let mut i: usize = 0;
    while i < windows.registered_messages.len()
        invariant
            i <= windows.registered_messages@.len() <= MESSAGE_ID_COUNT,
            *windows == *old(windows),
            windows.wf(),
            name_from(windows.registered_messages@, name@, i as int) == name_from(
                windows.registered_messages@,
                name@,
                0,
            ),
        decreases windows.registered_messages@.len() - i,
    {
        if text::names_match(&windows.registered_messages[i], &name) {
            proof {
                lemma_name_from(windows.registered_messages@, name@, 0);
            }
            return FIRST_MESSAGE_ID + i as u64;
        }
        i = i + 1;
    }
    let count: usize = windows.registered_messages.len();
    if count >= MESSAGE_ID_COUNT {
        return 0;
    }
    windows.registered_messages.push(name);
    assert(windows.registered_messages@.drop_last() =~= old(windows).registered_messages@);
    FIRST_MESSAGE_ID + count as u64
}

/// The first loaded table from `from` on with a resource id.
pub open spec fn accel_from(accels: Seq<AccelRecord>, id: u64, from: int) -> Option<int>
    decreases accels.len() - from,
{
    if from < 0 || from >= accels.len() {
        None
    } else if accels[from].id == id {
        Some(from)
    } else {
        accel_from(accels, id, from + 1)
    }
}

/// Whether a module has an accelerator table with an id.
pub open spec fn has_accel_template(templates: Seq<AccelTemplate>, id: u64) -> bool {
    exists|i: int| 0 <= i < templates.len() && (#[trigger] templates[i]).id == id
}

/// What loading an accelerator table does, and the handle it answers: a loaded table
/// keeps its handle, a table of the module gets the next one, and 0 says that there
/// is no such table (or no handle left).
pub open spec fn accel_loaded(
    before: WindowState,
    after: WindowState,
    templates: Seq<AccelTemplate>,
    id: u64,
    handle: u64,
) -> bool {
    match accel_from(before.accels@, id, 0) {
        Some(i) => after == before && handle == before.accels@[i].handle.0,
        None => if !has_accel_template(templates, id) || before.next_accel_handle.0 == u64::MAX {
            after == before && handle == 0
        } else {
            &&& handle == before.next_accel_handle.0
            &&& after.accels@ == before.accels@.push(AccelRecord { handle: Haccel(handle), id: id as u16 })
            &&& after == (WindowState {
                accels: after.accels,
                next_accel_handle: Haccel((handle + 1) as u64),
                ..before
            })
        },
    }
}

/// Load an accelerator table of the main module by its resource id.
pub fn load_accelerators(windows: &mut WindowState, templates: &[AccelTemplate], id: u64) -> (handle: u64)
    ensures
        accel_loaded(*old(windows), *final(windows), templates@, id, handle),
        old(windows).wf() ==> final(windows).wf(),
{
    let mut i: usize = 0;
    while i < windows.accels.len()
        invariant
            i <= windows.accels@.len(),
            *windows == *old(windows),
            accel_from(windows.accels@, id, i as int) == accel_from(windows.accels@, id, 0),
        decreases windows.accels@.len() - i,
    {
        if windows.accels[i].id as u64 == id {
            return windows.accels[i].handle.as_u64();
        }
        i = i + 1;
    }
    let mut k: usize = 0;
    while k < templates.len()
        invariant
            k <= templates@.len(),
            *windows == *old(windows),
            accel_from(windows.accels@, id, 0) is None,
            forall|j: int| 0 <= j < k ==> (#[trigger] templates@[j]).id != id,
        decreases templates@.len() - k,
    {
        if templates[k].id as u64 == id {
            let handle: u64 = windows.next_accel_handle.as_u64();
            if handle == u64::MAX {
                return 0;
            }
            assert(has_accel_template(templates@, id));
            windows.accels.push(AccelRecord { handle: Haccel(handle), id: id as u16 });
            windows.next_accel_handle = Haccel(handle + 1);
            return handle;
        }
        k = k + 1;
    }
    0
}

/// The first loaded table from `from` on with a handle.
pub open spec fn accel_handle_from(accels: Seq<AccelRecord>, handle: u64, from: int) -> Option<int>
    decreases accels.len() - from,
{
    if from < 0 || from >= accels.len() {
        None
    } else if accels[from].handle == Haccel(handle) {
        Some(from)
    } else {
        accel_handle_from(accels, handle, from + 1)
    }
}

/// Free a loaded accelerator table. Answers whether there was one.
pub fn destroy_accelerator_table(windows: &mut WindowState, handle: u64) -> (destroyed: bool)
    ensures
        match accel_handle_from(old(windows).accels@, handle, 0) {
            Some(i) => {
                &&& destroyed
                &&& final(windows).accels@ == old(windows).accels@.remove(i)
                &&& *final(windows) == (WindowState { accels: final(windows).accels, ..*old(windows) })
            },
            None => !destroyed && *final(windows) == *old(windows),
        },
        old(windows).wf() ==> final(windows).wf(),
{
    let mut i: usize = 0;
    while i < windows.accels.len()
        invariant
            i <= windows.accels@.len(),
            *windows == *old(windows),
            accel_handle_from(windows.accels@, handle, i as int) == accel_handle_from(windows.accels@, handle, 0),
        decreases windows.accels@.len() - i,
    {
        if windows.accels[i].handle.as_u64() == handle {
            windows.accels.remove(i);
            return true;
        }
        i = i + 1;
    }
    false
}

/// A table that is loaded anew gets a handle that no loaded table has: a destroyed
/// table's handle does not come back while handles are left.
pub proof fn new_accel_handles_are_fresh(
    before: WindowState,
    after: WindowState,
    templates: Seq<AccelTemplate>,
    id: u64,
    handle: u64,
)
    requires
        accel_loaded(before, after, templates, id, handle),
        accel_from(before.accels@, id, 0) is None,
        handle != 0,
        forall|i: int| 0 <= i < before.accels@.len() ==> (#[trigger] before.accels@[i]).handle.0 < before.next_accel_handle.0,
    ensures
        forall|i: int| 0 <= i < before.accels@.len() ==> (#[trigger] before.accels@[i]).handle.0 != handle,
        forall|i: int| 0 <= i < after.accels@.len() ==> (#[trigger] after.accels@[i]).handle.0 < after.next_accel_handle.0,
        accel_from(after.accels@, id, 0) is Some,
{
    lemma_accel_pushed(before.accels@, after.accels@, id, 0);
}

proof fn lemma_accel_pushed(before: Seq<AccelRecord>, after: Seq<AccelRecord>, id: u64, from: int)
    requires
        0 <= from <= before.len(),
        after.len() == before.len() + 1,
        forall|i: int| 0 <= i < before.len() ==> #[trigger] after[i] == before[i],
        after.last().id == id,
    ensures
        accel_from(after, id, from) is Some,
    decreases before.len() - from,
{
    if from < before.len() {
        lemma_accel_pushed(before, after, id, from + 1);
    }
}

/// How well a resource language suits a user-interface language: 3 the same, 2 its
/// language without a region, 1 the fallback language, 0 none of these.
pub open spec fn language_rank(lang: u16, ui_language: u16) -> int {
    if lang == ui_language {
        3
    } else if lang == ui_language % 0x400 {
        2
    } else if lang == FALLBACK_LANGUAGE {
        1
    } else {
        0
    }
}

/// How well a resource language suits a user-interface language.
pub(crate) fn rank(lang: u16, ui_language: u16) -> (r: u8)
    ensures
        r == language_rank(lang, ui_language),
{
    if lang == ui_language {
        3
    } else if lang == ui_language % 0x400 {
        2
    } else if lang == FALLBACK_LANGUAGE {
        1
    } else {
        0
    }
}

/// The window procedure of a window, 0 where it is the host's default or the window
/// is unknown.
pub fn window_proc(windows: &WindowState, hwnd: u64) -> (procedure: u64)
    ensures
        procedure == match window::window_index(windows.windows@, hwnd) {
            Some(i) => windows.windows@[i].window_proc,
            None => 0,
        },
{
    match window::find_window(&windows.windows, hwnd) {
        Some(i) => windows.windows[i].window_proc,
        None => 0,
    }
}

/// Set the window procedure of a window and answer the one before. A control
/// remembers the procedure that its first subclass replaced.
pub fn set_window_proc(windows: &mut WindowState, hwnd: u64, procedure: u64) -> (before: u64)
    requires
        old(windows).wf(),
    ensures
        final(windows).wf(),
        match window::window_index(old(windows).windows@, hwnd) {
            Some(i) => {
                let record = old(windows).windows@[i];
                &&& before == record.window_proc
                &&& final(windows).windows@ == old(windows).windows@.update(
                    i,
                    WindowRecord {
                        window_proc: procedure,
                        subclass_original_wndproc: if record.subclass_original_wndproc == 0 {
                            record.window_proc
                        } else {
                            record.subclass_original_wndproc
                        },
                        ..record
                    },
                )
                &&& *final(windows) == (WindowState { windows: final(windows).windows, ..*old(windows) })
            },
            None => before == 0 && *final(windows) == *old(windows),
        },
{
    match window::find_window(&windows.windows, hwnd) {
        Some(i) => {
            let before: u64 = windows.windows[i].window_proc;
            if windows.windows[i].subclass_original_wndproc == 0 {
                windows.windows[i].subclass_original_wndproc = before;
            }
            windows.windows[i].window_proc = procedure;
            before
        },
        None => 0,
    }
}

/// Whether a class is the one that an identifier names: by its name without regard
/// to case, or by its atom.
pub open spec fn is_class(record: WindowClassRecord, identifier: WindowClassIdentifier) -> bool {
    match identifier {
        WindowClassIdentifier::Name(name) => text::same_name(record.class_name@, name@),
        WindowClassIdentifier::Atom(atom) => record.atom == atom,
    }
}

/// The first registered class from `from` on that an identifier names.
pub open spec fn class_from(classes: Seq<WindowClassRecord>, identifier: WindowClassIdentifier, from: int) -> Option<int>
    decreases classes.len() - from,
{
    if from < 0 || from >= classes.len() {
        None
    } else if is_class(classes[from], identifier) {
        Some(from)
    } else {
        class_from(classes, identifier, from + 1)
    }
}

fn find_class(classes: &[WindowClassRecord], identifier: &WindowClassIdentifier) -> (index: Option<usize>)
    ensures
        match index {
            Some(i) => class_from(classes@, *identifier, 0) == Some(i as int) && i < classes@.len(),
            None => class_from(classes@, *identifier, 0) is None,
        },
{
    let mut i: usize = 0;
    while i < classes.len()
        invariant
            i <= classes@.len(),
            class_from(classes@, *identifier, i as int) == class_from(classes@, *identifier, 0),
        decreases classes@.len() - i,
    {
        let found = match identifier {
            WindowClassIdentifier::Name(name) => text::names_match(
                &text::to_chars(classes[i].class_name.as_str()),
                &text::to_chars(name.as_str()),
            ),
            WindowClassIdentifier::Atom(atom) => classes[i].atom == *atom as u32,
        };
        if found {
            return Some(i);
        }
        i = i + 1;
    }
    None
}

/// What registering a class does, and the atom it answers: the class gets the next
/// atom. `None` where a class has the name already or atoms have run out.
pub open spec fn class_registered(
    before: WindowState,
    after: WindowState,
    record: WindowClassRecord,
    atom: Option<u32>,
) -> bool {
    let next = before.next_window_class_atom;
    if next > MAX_ATOM || class_from(before.classes@, WindowClassIdentifier::Name(record.class_name), 0) is Some {
        after == before && atom is None
    } else {
        &&& atom == Some(next)
        &&& after.classes@ == before.classes@.push(WindowClassRecord { atom: next, ..record })
        &&& after == (WindowState { classes: after.classes, next_window_class_atom: (next + 1) as u32, ..before })
    }
}

/// Register a window class; the atom in `record` is ignored.
pub fn register_window_class(windows: &mut WindowState, record: WindowClassRecord) -> (atom: Option<u32>)
    ensures
        class_registered(*old(windows), *final(windows), record, atom),
        old(windows).wf() ==> final(windows).wf(),
{
    let atom: u32 = windows.next_window_class_atom;
    let name = WindowClassIdentifier::Name(text::to_string(&text::to_chars(record.class_name.as_str())));
    proof {
        lemma_same_class(windows.classes@, name, WindowClassIdentifier::Name(record.class_name), 0);
    }
    if atom > MAX_ATOM || find_class(&windows.classes, &name).is_some() {
        return None;
    }
    windows.classes.push(WindowClassRecord { atom, ..record });
    windows.next_window_class_atom = atom + 1;
    Some(atom)
}

proof fn lemma_same_class(
    classes: Seq<WindowClassRecord>,
    identifier: WindowClassIdentifier,
    again: WindowClassIdentifier,
    from: int,
)
    requires
        forall|record: WindowClassRecord| #[trigger] is_class(record, identifier) == is_class(record, again),
    ensures
        class_from(classes, identifier, from) == class_from(classes, again, from),
    decreases classes.len() - from,
{
    if 0 <= from < classes.len() {
        assert(is_class(classes[from], identifier) == is_class(classes[from], again));
        lemma_same_class(classes, identifier, again, from + 1);
    }
}

proof fn lemma_class_pushed(
    before: Seq<WindowClassRecord>,
    after: Seq<WindowClassRecord>,
    identifier: WindowClassIdentifier,
    from: int,
)
    requires
        0 <= from <= before.len(),
        after.len() == before.len() + 1,
        after.drop_last() == before,
    ensures
        class_from(after, identifier, from) == match class_from(before, identifier, from) {
            Some(i) => Some(i),
            None => if is_class(after.last(), identifier) {
                Some(before.len() as int)
            } else {
                None
            },
        },
    decreases before.len() - from,
{
    if from < before.len() {
        assert(after[from] == before[from]);
        lemma_class_pushed(before, after, identifier, from + 1);
    } else {
        assert(class_from(after, identifier, from + 1) is None);
    }
}

/// A class is found by the name that it was registered under, and its name cannot be
/// registered again.
pub proof fn classes_are_registered_once(
    before: WindowState,
    between: WindowState,
    after: WindowState,
    record: WindowClassRecord,
    other: WindowClassRecord,
    atom: u32,
    again: Option<u32>,
)
    requires
        class_registered(before, between, record, Some(atom)),
        text::same_name(other.class_name@, record.class_name@),
        class_registered(between, after, other, again),
    ensures
        class_from(between.classes@, WindowClassIdentifier::Name(record.class_name), 0) == Some(
            before.classes@.len() as int,
        ),
        between.classes@[before.classes@.len() as int].atom == atom,
        again is None,
        after == between,
{
    let name = WindowClassIdentifier::Name(record.class_name);
    assert(between.classes@.drop_last() =~= before.classes@);
    lemma_class_pushed(before.classes@, between.classes@, name, 0);
    lemma_same_class(between.classes@, name, WindowClassIdentifier::Name(other.class_name), 0);
}

/// What a window is created from.
#[derive(Debug, Clone)]
pub struct CreateWindowRequest {
    pub class_identifier: WindowClassIdentifier,
    pub title: String,
    pub style: u32,
    pub parent_handle: u64,
    pub menu_handle: u64,
    pub x: i32,
    pub y: i32,
    pub width: i32,
    pub height: i32,
}

impl CreateWindowRequest {
    /// The built-in class that is asked for.
    pub open spec fn kind(self) -> Option<ControlClassKind> {
        match self.class_identifier {
            WindowClassIdentifier::Name(name) => ControlClassKind::named(name@),
            WindowClassIdentifier::Atom(_) => None,
        }
    }

    /// The registered class that is asked for; a built-in name is no such class.
    pub open spec fn class(self, classes: Seq<WindowClassRecord>) -> Option<int> {
        if self.kind() is Some {
            None
        } else {
            class_from(classes, self.class_identifier, 0)
        }
    }

    /// The menu that the class gives the window: only a top-level window without a
    /// menu of its own takes it.
    pub open spec fn class_menu(self, classes: Seq<WindowClassRecord>) -> Option<u64> {
        match self.class(classes) {
            Some(i) => if self.style & WS_CHILD == 0 && self.menu_handle == 0 && classes[i].menu_name != 0 {
                Some(classes[i].menu_name)
            } else {
                None
            },
            None => None,
        }
    }
}

/// Whether `record` is the window that a request asks for.
pub open spec fn is_created(
    record: WindowRecord,
    request: CreateWindowRequest,
    classes: Seq<WindowClassRecord>,
    menu: u64,
    handle: u64,
) -> bool {
    &&& record.handle == Hwnd(handle)
    &&& record.parent_handle == Hwnd(request.parent_handle)
    &&& record.x == request.x
    &&& record.y == request.y
    &&& record.width == request.width
    &&& record.height == request.height
    &&& record.visible == (request.style & WS_VISIBLE != 0)
    &&& record.title == request.title
    &&& record.menu_handle == menu
    &&& !record.mouse_tracking
    &&& record.window_proc == match request.class(classes) {
        Some(i) => classes[i].window_proc,
        None => 0,
    }
    &&& record.subclass_original_wndproc == 0
    &&& record.style == request.style
    &&& match request.kind() {
        Some(kind) => record.control@ == kind.fresh(request.title@),
        None => record.control is Plain,
    }
    &&& record.control_text@ == match request.kind() {
        Some(ControlClassKind::Edit) => Seq::<char>::empty(),
        Some(_) => request.title@,
        None => Seq::<char>::empty(),
    }
    &&& record.font_handle == Hfont(0)
    &&& record.invalidated == record.visible
    &&& !record.erase_background
}

/// Whether a window was created under a handle: a menu of its class is loaded first,
/// and a menu on a top-level window has to be shown by the host.
pub open spec fn window_created(
    before: WindowState,
    after: WindowState,
    templates: Seq<MenuTemplate>,
    ui_language: u16,
    request: CreateWindowRequest,
    handle: u64,
) -> bool {
    let menu = after.windows@.last().menu_handle;
    let loaded = WindowState {
        windows: before.windows,
        next_window_handle: before.next_window_handle,
        window_mirror_rev: before.window_mirror_rev,
        menu_dirty: before.menu_dirty,
        ..after
    };
    &&& match request.class_menu(before.classes@) {
        Some(id) => menus::menu_loaded(before, loaded, templates, id, ui_language, menu),
        None => loaded == before && menu == request.menu_handle,
    }
    &&& after.windows@.len() == before.windows@.len() + 1
    &&& after.windows@.drop_last() == before.windows@
    &&& is_created(after.windows@.last(), request, before.classes@, menu, handle)
    &&& after.next_window_handle == Hwnd((handle + 1) as u64)
    &&& after.window_mirror_rev == vstd::wrapping::u64_specs::wrapping_add(before.window_mirror_rev, 1)
    &&& after.menu_dirty == (before.menu_dirty || request.style & WS_CHILD == 0 && menu != 0)
}

/// Create a window. A class with a built-in name makes a control; a registered class
/// gives the window its procedure, and its menu where a top-level window has none.
/// Answers the new handle, `None` where handles have run out.
pub fn create_window_record(
    windows: &mut WindowState,
    templates: &[MenuTemplate],
    ui_language: u16,
    request: CreateWindowRequest,
) -> (handle: Option<u64>)
    requires
        old(windows).wf(),
    ensures
        final(windows).wf(),
        match handle {
            Some(h) => {
                &&& h == old(windows).next_window_handle.0
                &&& h < u64::MAX
                &&& window_created(*old(windows), *final(windows), templates@, ui_language, request, h)
            },
            None => old(windows).next_window_handle.0 == u64::MAX && *final(windows) == *old(windows),
        },
{
    let handle: u64 = windows.next_window_handle.as_u64();
    if handle == u64::MAX {
        return None;
    }
    let kind = ControlClassKind::from_identifier(&request.class_identifier);
    let title = text::to_chars(request.title.as_str());
    let control_text = match kind {
        Some(ControlClassKind::Edit) | None => String::new(),
        Some(_) => text::to_string(&title),
    };
    let top_level = request.style & WS_CHILD == 0;
    let mut menu: u64 = request.menu_handle;
    let mut procedure: u64 = 0;
    let control = match kind {
        Some(kind) => kind.new_state(title),
        None => {
            if let Some(class) = find_class(&windows.classes, &request.class_identifier) {
                procedure = windows.classes[class].window_proc;
                let menu_name: u64 = windows.classes[class].menu_name;
                if top_level && menu == 0 && menu_name != 0 {
                    menu = menus::load_menu(windows, templates, menu_name, ui_language);
                }
            }
            ControlState::Plain
        },
    };
    let ghost loaded = *windows;
    let visible = request.style & WS_VISIBLE != 0;
    let record = WindowRecord {
        handle: Hwnd(handle),
        parent_handle: Hwnd(request.parent_handle),
        x: request.x,
        y: request.y,
        width: request.width,
        height: request.height,
        visible,
        title: request.title,
        menu_handle: menu,
        mouse_tracking: false,
        window_proc: procedure,
        subclass_original_wndproc: 0,
        style: request.style,
        control,
        control_text,
        font_handle: Hfont::null(),
        invalidated: visible,
        erase_background: false,
    };
    windows.windows.push(record);
    windows.next_window_handle = Hwnd(handle + 1);
    windows.window_mirror_rev = windows.window_mirror_rev.wrapping_add(1);
    if top_level && menu != 0 {
        windows.menu_dirty = true;
    }
    proof {
        assert(loaded.windows == old(windows).windows);
        assert(loaded == (WindowState {
            windows: old(windows).windows,
            next_window_handle: old(windows).next_window_handle,
            window_mirror_rev: old(windows).window_mirror_rev,
            menu_dirty: old(windows).menu_dirty,
            ..*windows
        }));
        assert(windows.windows@.drop_last() =~= old(windows).windows@);
        assert forall|i: int| 0 <= i < windows.windows@.len() implies (#[trigger] windows.windows@[i]).control@.wf() by {
            if i < old(windows).windows@.len() {
                assert(windows.windows@[i] == old(windows).windows@[i]);
            }
        }
    }
    Some(handle)
}

/// The colour of a system colour index, as 0RGB. Indexes without a colour of their
/// own have that of a button face.
pub open spec fn system_color(index: int) -> u32 {
    if index == 0 {
        0x00C8_C8C8
    } else if index == 2 || index == 13 {
        0x0000_78D7
    } else if index == 5 || index == 20 {
        0x00FF_FFFF
    } else if index == 21 {
        0x0069_6969
    } else {
        0x00F0_F0F0
    }
}

/// The colour of a system colour index, as 0RGB.
pub fn sys_color(index: u64) -> (color: u32)
    ensures
        color == system_color(index as int),
{
    if index == 0 {
        0x00C8_C8C8
    } else if index == 2 || index == 13 {
        0x0000_78D7
    } else if index == 5 || index == 20 {
        0x00FF_FFFF
    } else if index == 21 {
        0x0069_6969
    } else {
        0x00F0_F0F0
    }
}

/// Whether string block `i` is the one to take: of those with the block number, the
/// one whose language suits best, and the first among equals.
pub open spec fn is_best_block(blocks: Seq<StringBlock>, block: int, ui_language: u16, i: int) -> bool {
    &&& 0 <= i < blocks.len()
    &&& blocks[i].block == block
    &&& forall|j: int|
        0 <= j < blocks.len() && (#[trigger] blocks[j]).block == block ==> {
            let other = language_rank(blocks[j].lang, ui_language);
            let best = language_rank(blocks[i].lang, ui_language);
            other < best || other == best && i <= j
        }
}

/// The string with an id: sixteen strings make a block, and the block is taken in
/// the language that suits best. `None` where the module has no such string.
pub fn load_string(blocks: &[StringBlock], id: u16, ui_language: u16) -> (text: Option<&String>)
    ensures
        match text {
            Some(t) => exists|i: int|
                {
                    &&& #[trigger] is_best_block(blocks@, id as int / 16 + 1, ui_language, i)
                    &&& id as int % 16 < blocks@[i].strings@.len()
                    &&& *t == blocks@[i].strings@[id as int % 16]
                },
            None => forall|i: int| #[trigger]
                is_best_block(blocks@, id as int / 16 + 1, ui_language, i) ==> id as int % 16
                    >= blocks@[i].strings@.len(),
        },
{
    let block: u16 = id / 16 + 1;
    let slot: usize = (id % 16) as usize;
    let mut best: Option<usize> = None;
    let mut i: usize = 0;
    while i < blocks.len()
        invariant
            i <= blocks@.len(),
            match best {
                Some(b) => {
                    &&& b < i
                    &&& blocks@[b as int].block == block
                    &&& forall|j: int|
                        0 <= j < i && (#[trigger] blocks@[j]).block == block ==> {
                            let other = language_rank(blocks@[j].lang, ui_language);
                            let own = language_rank(blocks@[b as int].lang, ui_language);
                            other < own || other == own && b <= j
                        }
                },
                None => forall|j: int| 0 <= j < i ==> (#[trigger] blocks@[j]).block != block,
            },
        decreases blocks@.len() - i,
    {
        if blocks[i].block == block {
            match best {
                Some(b) => {
                    if rank(blocks[i].lang, ui_language) > rank(blocks[b].lang, ui_language) {
                        best = Some(i);
                    }
                },
                None => {
                    best = Some(i);
                },
            }
        }
        i = i + 1;
    }
    match best {
        Some(b) => {
            assert(is_best_block(blocks@, block as int, ui_language, b as int));
            assert forall|k: int| #[trigger] is_best_block(blocks@, block as int, ui_language, k) implies k == b by {
                assert(blocks@[k].block == block);
                assert(blocks@[b as int].block == block);
            }
            if slot < blocks[b].strings.len() {
                Some(&blocks[b].strings[slot])
            } else {
                None
            }
        },
        None => {
            assert forall|k: int| #[trigger] is_best_block(blocks@, block as int, ui_language, k) implies false by {
                assert(blocks@[k].block == block);
            }
            None
        },
    }
}

} // verus!
