//! Built-in controls: buttons, list boxes, status bars and edit controls.
use vstd::prelude::*;

use crate::clipboard::ClipboardState;
use crate::cpu;
use crate::cpu::{GuestCpu, MemoryFault};
use crate::edit::{EditFrame, Reply};
use crate::edit_control;
use crate::edit_control::{Answer, Blink, EditControl, Repaint};
use crate::edit_proc;
use crate::edit_proc::{Capture, Modifiers};
use crate::font::CELL_HEIGHT;
use crate::layout;
use crate::messages;
use crate::messages::{
    BM_CLICK, BM_GETSTATE, BM_SETSTATE, LB_ADDSTRING, LB_GETCURSEL, LB_SETCURSEL, SB_GETPARTS, SB_GETTEXTLENGTHW,
    SB_GETTEXTW, SB_SETPARTS, SB_SETTEXTW, WM_KEYDOWN, WM_KEYUP, WM_LBUTTONDOWN, WM_LBUTTONUP, WM_MOUSEWHEEL,
};
use crate::process::GuestHeap;
use crate::text;

verus! {

/// Notification code: a button was clicked.
pub const BN_CLICKED: u16 = 0;

/// Notification code: the selection of a list box changed.
pub const LBN_SELCHANGE: u16 = 1;

/// Result of a list-box message that failed.
pub const LB_ERR: u64 = 0xFFFF_FFFF_FFFF_FFFF;

/// Button state bit: pressed.
pub const BST_PUSHED: u64 = 0x0004;

/// Button state bit: holds the keyboard focus.
pub const BST_FOCUS: u64 = 0x0008;

/// Drawing flag that may come with a status-bar part number.
pub const SBT_NOBORDERS: u32 = 0x0100;

/// Virtual key of the space bar.
pub const VK_SPACE: u64 = 0x20;

/// The texts of a list.
pub open spec fn texts(items: Seq<Vec<char>>) -> Seq<Seq<char>> {
    items.map_values(|item: Vec<char>| item@)
}

/// The state of a list box.
#[derive(Debug, Clone)]
pub struct ListBoxState {
    items: Vec<Vec<char>>,
    selected: Option<usize>,
    first: usize,
}

/// The state of a list box.
#[verifier::ext_equal]
pub struct ListBoxModel {
    pub items: Seq<Seq<char>>,
    pub selected: Option<int>,
    /// First item shown.
    pub first: int,
}

impl ListBoxModel {
    /// An empty list.
    pub open spec fn fresh() -> ListBoxModel {
        ListBoxModel { items: Seq::empty(), selected: None, first: 0 }
    }

    /// The selection is one of the items, and the scroll offset is within them.
    pub open spec fn wf(self) -> bool {
        &&& self.selected matches Some(index) ==> 0 <= index < self.items.len()
        &&& 0 <= self.first <= self.items.len()
    }

    /// Scrolled by the mouse wheel: three items per notch of 120, up where positive.
    pub open spec fn wheeled(self, delta: int, visible: int) -> ListBoxModel {
        let wanted = if delta >= 0 {
            self.first - delta / 120 * 3
        } else {
            self.first + (-delta) / 120 * 3
        };
        ListBoxModel { first: layout::clamped_offset(wanted, self.items.len() as int, visible), ..self }
    }

    /// Select an item or none; the parent hears of a change.
    pub open spec fn selecting(self, selected: Option<int>) -> (ListBoxModel, Reply) {
        if selected == self.selected {
            (self, Reply::Value(0))
        } else {
            (ListBoxModel { selected, ..self }, Reply::Notify(LBN_SELCHANGE))
        }
    }
}

impl View for ListBoxState {
    type V = ListBoxModel;

    closed spec fn view(&self) -> ListBoxModel {
        ListBoxModel {
            items: texts(self.items@),
            selected: match self.selected {
                Some(index) => Some(index as int),
                None => None,
            },
            first: self.first as int,
        }
    }
}

impl ListBoxState {
    /// An empty list.
    pub fn new() -> (list: Self)
        ensures
            list@ == ListBoxModel::fresh(),
            list@.wf(),
    {
        let list = ListBoxState { items: Vec::new(), selected: None, first: 0 };
        assert(list@.items =~= Seq::<Seq<char>>::empty());
        list
    }

    /// The number of items.
    pub fn count(&self) -> (count: usize)
        ensures
            count == self@.items.len(),
    {
        self.items.len()
    }

    /// The text of an item.
    pub fn item(&self, index: usize) -> (item: &Vec<char>)
        requires
            index < self@.items.len(),
        ensures
            item@ == self@.items[index as int],
    {
        &self.items[index]
    }

    /// The selected item.
    pub fn selected(&self) -> (selected: Option<usize>)
        ensures
            match selected {
                Some(index) => self@.selected == Some(index as int),
                None => self@.selected is None,
            },
    {
        self.selected
    }

    /// The first item shown.
    pub fn first_visible(&self) -> (first: usize)
        ensures
            first == self@.first,
    {
        self.first
    }

    /// Scroll by the mouse wheel.
    pub fn scroll_by_wheel(&mut self, delta: i16, visible: usize)
        requires
            old(self)@.wf(),
            visible >= 1,
        ensures
            final(self)@ == old(self)@.wheeled(delta as int, visible as int),
            final(self)@.wf(),
    {
        let wanted: usize = if delta >= 0 {
            let up: usize = (delta as u16 as usize) / 120 * 3;
            self.first.saturating_sub(up)
        } else {
            let down: usize = ((-(delta as i32)) as usize) / 120 * 3;
            self.first.saturating_add(down)
        };
        self.first = layout::clamp_scroll_offset(wanted, self.items.len(), visible);
        assert(self@ =~= old(self)@.wheeled(delta as int, visible as int));
    }

    /// Append an item and answer its index.
    pub fn add(&mut self, item: Vec<char>) -> (index: usize)
        requires
            old(self)@.wf(),
        ensures
            index == old(self)@.items.len(),
            final(self)@ == (ListBoxModel { items: old(self)@.items.push(item@), ..old(self)@ }),
            final(self)@.wf(),
    {
        let index: usize = self.items.len();
        self.items.push(item);
        assert(self@.items =~= old(self)@.items.push(item@));
        index
    }

    /// Select an item or none.
    pub fn select(&mut self, selected: Option<usize>) -> (reply: Reply)
        requires
            old(self)@.wf(),
            selected matches Some(index) ==> index < old(self)@.items.len(),
        ensures
            (final(self)@, reply) == old(self)@.selecting(
                match selected {
                    Some(index) => Some(index as int),
                    None => None,
                },
            ),
            final(self)@.wf(),
    {
        let same = match (selected, self.selected) {
            (Some(a), Some(b)) => a == b,
            (None, None) => true,
            _ => false,
        };
        if same {
            return Reply::Value(0);
        }
        self.selected = selected;
        Reply::Notify(LBN_SELCHANGE)
    }
}

/// The state of a status bar.
#[derive(Debug, Clone)]
pub struct StatusBarState {
    part_rights: Vec<i32>,
    part_texts: Vec<Vec<char>>,
}

/// The state of a status bar: right edge of each part (-1 is the window's) and the
/// texts.
#[verifier::ext_equal]
pub struct StatusBarModel {
    pub rights: Seq<i32>,
    pub texts: Seq<Seq<char>>,
}

impl StatusBarModel {
    /// The text of a part, empty where none was set.
    pub open spec fn part(self, index: int) -> Seq<char> {
        if index < self.texts.len() {
            self.texts[index]
        } else {
            Seq::empty()
        }
    }

    /// Set the text of a part; the parts before it that have none get an empty one.
    pub open spec fn with_part(self, index: int, chars: Seq<char>) -> StatusBarModel {
        StatusBarModel {
            texts: if index < self.texts.len() {
                self.texts.update(index, chars)
            } else {
                (self.texts + Seq::new((index - self.texts.len()) as nat, |i: int| Seq::<char>::empty())).push(chars)
            },
            ..self
        }
    }
}

impl View for StatusBarState {
    type V = StatusBarModel;

    closed spec fn view(&self) -> StatusBarModel {
        StatusBarModel { rights: self.part_rights@, texts: texts(self.part_texts@) }
    }
}

impl StatusBarState {
    /// A bar without parts.
    pub fn new() -> (bar: Self)
        ensures
            bar@ == (StatusBarModel { rights: Seq::empty(), texts: Seq::empty() }),
    {
        let bar = StatusBarState { part_rights: Vec::new(), part_texts: Vec::new() };
        assert(bar@.texts =~= Seq::<Seq<char>>::empty());
        bar
    }

    /// The right edges of the parts.
    pub fn rights(&self) -> (rights: &Vec<i32>)
        ensures
            rights@ == self@.rights,
    {
        &self.part_rights
    }

    /// How many parts have a text.
    pub fn text_count(&self) -> (count: usize)
        ensures
            count == self@.texts.len(),
    {
        self.part_texts.len()
    }

    /// Set the right edges of the parts.
    pub fn set_rights(&mut self, rights: Vec<i32>)
        ensures
            final(self)@ == (StatusBarModel { rights: rights@, ..old(self)@ }),
    {
        self.part_rights = rights;
    }

    /// The text of a part.
    pub fn part_text(&self, index: usize) -> (chars: Vec<char>)
        ensures
            chars@ == self@.part(index as int),
    {
        if index < self.part_texts.len() {
            let whole: &Vec<char> = &self.part_texts[index];
            let chars = crate::layout::copy_range(whole, 0, whole.len());
            assert(chars@ =~= whole@);
            chars
        } else {
            let chars: Vec<char> = Vec::new();
            assert(chars@ =~= Seq::<char>::empty());
            chars
        }
    }

    /// Set the text of a part.
    pub fn set_part_text(&mut self, index: usize, chars: Vec<char>)
        ensures
            final(self)@ == old(self)@.with_part(index as int, chars@),
    {
        if index < self.part_texts.len() {
            self.part_texts[index] = chars;
            assert(self@ =~= old(self)@.with_part(index as int, chars@));
            return;
        }
        let ghost before = self@.texts;
        while self.part_texts.len() < index
            invariant
                before.len() <= self.part_texts@.len() <= index,
                self.part_rights == old(self).part_rights,
                texts(self.part_texts@) == before + Seq::new(
                    (self.part_texts@.len() - before.len()) as nat,
                    |i: int| Seq::<char>::empty(),
                ),
            decreases index - self.part_texts@.len(),
        {
            let none: Vec<char> = Vec::new();
            assert(none@ =~= Seq::<char>::empty());
            let ghost prior = texts(self.part_texts@);
            self.part_texts.push(none);
            assert(texts(self.part_texts@) =~= prior.push(Seq::<char>::empty()));
            assert(texts(self.part_texts@) =~= before + Seq::new(
                (self.part_texts@.len() - before.len()) as nat,
                |i: int| Seq::<char>::empty(),
            ));
        }
        self.part_texts.push(chars);
        assert(self@.texts =~= old(self)@.with_part(index as int, chars@).texts);
    }
}

/// Per-kind state of a window's built-in control.
#[derive(Debug, Clone)]
pub enum ControlState {
    /// Not a built-in control.
    Plain,
    /// A push button, and whether it is pressed.
    Button(bool),
    /// A label.
    Label,
    /// A text field.
    Edit(EditControl),
    /// A list of items.
    ListBox(ListBoxState),
    /// A bar of parts.
    StatusBar(StatusBarState),
}

/// Per-kind state of a window's built-in control.
pub enum ControlModel {
    Plain,
    Button(bool),
    Label,
    Edit(edit_control::EditControlModel),
    ListBox(ListBoxModel),
    StatusBar(StatusBarModel),
}

impl ControlModel {
    /// The control's own invariant.
    pub open spec fn wf(self) -> bool {
        match self {
            ControlModel::Edit(field) => field.edit.wf(),
            ControlModel::ListBox(list) => list.wf(),
            _ => true,
        }
    }

    /// The control with all of it waiting to be painted.
    pub open spec fn fully_invalid(self) -> ControlModel {
        match self {
            ControlModel::Edit(field) => ControlModel::Edit(field.fully_invalid()),
            _ => self,
        }
    }
}

impl ControlState {
    /// Ask for the whole control to be painted.
    pub fn invalidate(&mut self)
        ensures
            final(self)@ == old(self)@.fully_invalid(),
            old(self)@.wf() ==> final(self)@.wf(),
            (*final(self)) is Plain <==> (*old(self)) is Plain,
    {
        if let ControlState::Edit(field) = self {
            field.invalidate();
        }
    }
}

impl View for ControlState {
    type V = ControlModel;

    open spec fn view(&self) -> ControlModel {
        match self {
            ControlState::Plain => ControlModel::Plain,
            ControlState::Button(pressed) => ControlModel::Button(*pressed),
            ControlState::Label => ControlModel::Label,
            ControlState::Edit(field) => ControlModel::Edit(field@),
            ControlState::ListBox(list) => ControlModel::ListBox(list@),
            ControlState::StatusBar(bar) => ControlModel::StatusBar(bar@),
        }
    }
}

/// What a window class is named by.
#[derive(Debug, Clone)]
pub enum WindowClassIdentifier {
    /// A class name.
    Name(String),
    /// A class atom.
    Atom(u16),
}

/// The classes of built-in controls.
#[derive(Debug, Clone, Copy, PartialEq, Eq, Structural)]
pub enum ControlClassKind {
    Button,
    Label,
    Edit,
    ListBox,
    StatusBar,
}

impl ControlClassKind {
    /// The built-in class of a name, without regard to case.
    pub open spec fn named(name: Seq<char>) -> Option<ControlClassKind> {
        if text::same_name(name, "button"@) {
            Some(ControlClassKind::Button)
        } else if text::same_name(name, "static"@) {
            Some(ControlClassKind::Label)
        } else if text::same_name(name, "edit"@) {
            Some(ControlClassKind::Edit)
        } else if text::same_name(name, "listbox"@) {
            Some(ControlClassKind::ListBox)
        } else if text::same_name(name, "msctls_statusbar32"@) {
            Some(ControlClassKind::StatusBar)
        } else {
            None
        }
    }

    /// The built-in class behind a class identifier; atoms name registered classes
    /// only.
    pub fn from_identifier(identifier: &WindowClassIdentifier) -> (kind: Option<ControlClassKind>)
        ensures
            kind == match *identifier {
                WindowClassIdentifier::Name(name) => ControlClassKind::named(name@),
                WindowClassIdentifier::Atom(_) => None,
            },
    {
        match identifier {
            WindowClassIdentifier::Name(name) => {
                let chars = text::to_chars(name.as_str());
                if text::names_match(&chars, &text::to_chars("button")) {
                    Some(ControlClassKind::Button)
                } else if text::names_match(&chars, &text::to_chars("static")) {
                    Some(ControlClassKind::Label)
                } else if text::names_match(&chars, &text::to_chars("edit")) {
                    Some(ControlClassKind::Edit)
                } else if text::names_match(&chars, &text::to_chars("listbox")) {
                    Some(ControlClassKind::ListBox)
                } else if text::names_match(&chars, &text::to_chars("msctls_statusbar32")) {
                    Some(ControlClassKind::StatusBar)
                } else {
                    None
                }
            },
            WindowClassIdentifier::Atom(_) => None,
        }
    }

    /// A new control of this class.
    pub open spec fn fresh(self, title: Seq<char>) -> ControlModel {
        match self {
            ControlClassKind::Button => ControlModel::Button(false),
            ControlClassKind::Label => ControlModel::Label,
            ControlClassKind::Edit => ControlModel::Edit(edit_control::EditControlModel::fresh(title)),
            ControlClassKind::ListBox => ControlModel::ListBox(ListBoxModel::fresh()),
            ControlClassKind::StatusBar => ControlModel::StatusBar(
                StatusBarModel { rights: Seq::empty(), texts: Seq::empty() },
            ),
        }
    }

    /// Create the state of a new control of this class; an edit control starts with
    /// the window's title as its text.
    pub fn new_state(self, title: Vec<char>) -> (state: ControlState)
        ensures
            state@ == self.fresh(title@),
            state@.wf(),
    {
        match self {
            ControlClassKind::Button => ControlState::Button(false),
            ControlClassKind::Label => ControlState::Label,
            ControlClassKind::Edit => ControlState::Edit(EditControl::new(title)),
            ControlClassKind::ListBox => ControlState::ListBox(ListBoxState::new()),
            ControlClassKind::StatusBar => ControlState::StatusBar(StatusBarState::new()),
        }
    }
}

/// What a message arrives at.
#[verifier::ext_equal]
pub struct ControlWorld {
    /// Keys held, mouse capture, clipboard and guest memory.
    pub edit: edit_proc::EditWorld,
    /// Whether the control has the keyboard focus.
    pub focus: bool,
    /// The heap that guest buffers come from.
    pub heap: GuestHeap,
}

/// Everything a message changes.
#[verifier::ext_equal]
pub struct ControlOutcome {
    pub control: ControlModel,
    pub answer: Answer,
    pub clip: Option<Seq<char>>,
    pub memory: Map<int, u8>,
}

impl ControlWorld {
    /// Only the control changes.
    pub open spec fn control_only(self, control: ControlModel, reply: Reply, repaint: Repaint) -> ControlOutcome {
        ControlOutcome {
            control,
            answer: Answer { reply, capture: Capture::Keep, blink: Blink::Keep, repaint },
            clip: self.edit.clip,
            memory: self.edit.memory,
        }
    }
}

/// Whether a mouse message's point lies in the client area.
pub open spec fn in_client(lparam: u64, frame: &EditFrame) -> bool {
    &&& 0 <= messages::signed_word(messages::low_word(lparam)) < frame.width
    &&& 0 <= messages::signed_word(messages::high_word(lparam)) < frame.height
}

/// What a message does to a button: a press of the mouse or the space bar presses it,
/// the release clicks it, unless the mouse has left it.
pub open spec fn after_button(
    pressed: bool,
    message: u32,
    wparam: u64,
    lparam: u64,
    focus: bool,
    frame: &EditFrame,
) -> (bool, Reply, Capture) {
    if message == BM_CLICK {
        (pressed, Reply::Notify(BN_CLICKED), Capture::Keep)
    } else if message == BM_GETSTATE {
        (
            pressed,
            Reply::Value(
                ((if pressed {
                    BST_PUSHED
                } else {
                    0
                }) + (if focus {
                    BST_FOCUS
                } else {
                    0
                })) as u64,
            ),
            Capture::Keep,
        )
    } else if message == BM_SETSTATE {
        (wparam != 0, Reply::Value(edit_proc::flag(pressed)), Capture::Keep)
    } else if message == WM_LBUTTONDOWN {
        (true, Reply::Value(0), Capture::Take)
    } else if message == WM_LBUTTONUP {
        if pressed {
            (
                false,
                if in_client(lparam, frame) {
                    Reply::Notify(BN_CLICKED)
                } else {
                    Reply::Value(0)
                },
                Capture::Release,
            )
        } else {
            (false, Reply::Value(0), Capture::Keep)
        }
    } else if message == WM_KEYDOWN && wparam == VK_SPACE && focus {
        (true, Reply::Value(0), Capture::Keep)
    } else if message == WM_KEYUP && wparam == VK_SPACE && focus {
        (
            false,
            if pressed {
                Reply::Notify(BN_CLICKED)
            } else {
                Reply::Value(0)
            },
            Capture::Keep,
        )
    } else {
        (pressed, Reply::Unhandled, Capture::Keep)
    }
}

fn button_message(pressed: bool, message: u32, wparam: u64, lparam: u64, focus: bool, frame: &EditFrame) -> (answer: (
    bool,
    Reply,
    Capture,
))
    ensures
        answer == after_button(pressed, message, wparam, lparam, focus, frame),
{
    if message == BM_CLICK {
        (pressed, Reply::Notify(BN_CLICKED), Capture::Keep)
    } else if message == BM_GETSTATE {
        let pushed: u64 = if pressed {
            BST_PUSHED
        } else {
            0
        };
        let focused: u64 = if focus {
            BST_FOCUS
        } else {
            0
        };
        (pressed, Reply::Value(pushed + focused), Capture::Keep)
    } else if message == BM_SETSTATE {
        let before: u64 = if pressed {
            1
        } else {
            0
        };
        (wparam != 0, Reply::Value(before), Capture::Keep)
    } else if message == WM_LBUTTONDOWN {
        (true, Reply::Value(0), Capture::Take)
    } else if message == WM_LBUTTONUP {
        if !pressed {
            return (false, Reply::Value(0), Capture::Keep);
        }
        let x: i32 = messages::sign(messages::loword(lparam)) as i32;
        let y: i32 = messages::sign(messages::hiword(lparam)) as i32;
        if 0 <= x && x < frame.width && 0 <= y && y < frame.height {
            (false, Reply::Notify(BN_CLICKED), Capture::Release)
        } else {
            (false, Reply::Value(0), Capture::Release)
        }
    } else if message == WM_KEYDOWN && wparam == VK_SPACE && focus {
        (true, Reply::Value(0), Capture::Keep)
    } else if message == WM_KEYUP && wparam == VK_SPACE && focus {
        if pressed {
            (false, Reply::Notify(BN_CLICKED), Capture::Keep)
        } else {
            (false, Reply::Value(0), Capture::Keep)
        }
    } else {
        (pressed, Reply::Unhandled, Capture::Keep)
    }
}

/// A change of appearance is to be painted.
pub open spec fn repaint_if(changed: bool) -> Repaint {
    if changed {
        Repaint::Request
    } else {
        Repaint::Keep
    }
}

/// What a message does to a list box; `None` where the text of a new item is not
/// mapped.
pub open spec fn after_list(
    list: ListBoxModel,
    message: u32,
    wparam: u64,
    lparam: u64,
    memory: Map<int, u8>,
    frame: &EditFrame,
) -> Option<(ListBoxModel, Reply)> {
    let asked = messages::low_dword(wparam);
    let y = messages::signed_word(messages::high_word(lparam));
    if message == LB_ADDSTRING {
        match text::pointed_name(memory, lparam, false) {
            Some(chars) => Some(
                (
                    ListBoxModel { items: list.items.push(chars), ..list },
                    Reply::Value(edit_proc::counted(list.items.len() as int)),
                ),
            ),
            None => None,
        }
    } else if message == LB_SETCURSEL {
        if asked == 0xFFFF_FFFF {
            Some(list.selecting(None))
        } else if asked < list.items.len() {
            Some(list.selecting(Some(asked)))
        } else {
            Some((list, Reply::Value(LB_ERR)))
        }
    } else if message == LB_GETCURSEL {
        Some(
            (
                list,
                Reply::Value(
                    match list.selected {
                        Some(index) => index as u64,
                        None => LB_ERR,
                    },
                ),
            ),
        )
    } else if message == WM_LBUTTONDOWN {
        let index = list.first + y / CELL_HEIGHT as int;
        if y >= 0 && index < list.items.len() {
            Some(list.selecting(Some(index)))
        } else {
            Some((list, Reply::Value(0)))
        }
    } else if message == WM_MOUSEWHEEL {
        let visible = layout::visible_rows(frame.height as int, frame.font.line_height as int) as int;
        Some((list.wheeled(messages::signed_word(messages::high_word(wparam)), visible), Reply::Value(0)))
    } else {
        Some((list, Reply::Unhandled))
    }
}

fn list_message(
    list: &mut ListBoxState,
    message: u32,
    wparam: u64,
    lparam: u64,
    engine: &GuestCpu,
    frame: &EditFrame,
) -> (result: Result<(Reply, Repaint), MemoryFault>)
    requires
        old(list)@.wf(),
    ensures
        final(list)@.wf(),
        match result {
            Ok((reply, repaint)) => {
                &&& after_list(old(list)@, message, wparam, lparam, engine.memory(), frame) == Some(
                    (final(list)@, reply),
                )
                &&& repaint == repaint_if(final(list)@ != old(list)@)
            },
            Err(fault) => {
                &&& fault.address == lparam
                &&& after_list(old(list)@, message, wparam, lparam, engine.memory(), frame) is None
                &&& final(list)@ == old(list)@
            },
        },
{
    if message == LB_ADDSTRING {
        match text::read_name(engine, lparam, false) {
            Ok(chars) => {
                let index: usize = list.add(chars);
                assert(list@.items.len() != old(list)@.items.len());
                Ok((Reply::Value(index as u64), Repaint::Request))
            },
            Err(fault) => Err(fault),
        }
    } else if message == LB_SETCURSEL {
        let asked: u32 = messages::lodword(wparam);
        if asked == 0xFFFF_FFFF {
            Ok(select_item(list, None))
        } else if (asked as u64) < list.count() as u64 {
            Ok(select_item(list, Some(asked as usize)))
        } else {
            Ok((Reply::Value(LB_ERR), Repaint::Keep))
        }
    } else if message == LB_GETCURSEL {
        match list.selected() {
            Some(index) => Ok((Reply::Value(index as u64), Repaint::Keep)),
            None => Ok((Reply::Value(LB_ERR), Repaint::Keep)),
        }
    } else if message == WM_LBUTTONDOWN {
        let y: i16 = messages::sign(messages::hiword(lparam));
        if y >= 0 {
            let row: usize = (y as u16 as u32 / CELL_HEIGHT as u32) as usize;
            let first: usize = list.first_visible();
            if row < list.count() - first {
                return Ok(select_item(list, Some(first + row)));
            }
        }
        Ok((Reply::Value(0), Repaint::Keep))
    } else if message == WM_MOUSEWHEEL {
        let first: usize = list.first_visible();
        let visible: usize = layout::visible_line_count(frame.height, frame.font.line_height);
        list.scroll_by_wheel(messages::sign(messages::hiword(wparam)), visible);
        if list.first_visible() == first {
            assert(list@ =~= old(list)@);
            Ok((Reply::Value(0), Repaint::Keep))
        } else {
            Ok((Reply::Value(0), Repaint::Request))
        }
    } else {
        Ok((Reply::Unhandled, Repaint::Keep))
    }
}

fn select_item(list: &mut ListBoxState, selected: Option<usize>) -> (answer: (Reply, Repaint))
    requires
        old(list)@.wf(),
        selected matches Some(index) ==> index < old(list)@.items.len(),
    ensures
        (final(list)@, answer.0) == old(list)@.selecting(
            match selected {
                Some(index) => Some(index as int),
                None => None,
            },
        ),
        final(list)@.wf(),
        answer.1 == repaint_if(final(list)@ != old(list)@),
{
    let reply = list.select(selected);
    match reply {
        Reply::Notify(_) => (reply, Repaint::Request),
        _ => (reply, Repaint::Keep),
    }
}

/// A 32-bit number as a signed one.
pub open spec fn signed_dword(value: int) -> int {
    if value >= 0x8000_0000 {
        value - 0x1_0000_0000
    } else {
        value
    }
}

/// A signed number as the 32-bit one with the same bits.
pub open spec fn unsigned_dword(value: int) -> int {
    if value < 0 {
        value + 0x1_0000_0000
    } else {
        value
    }
}

/// The `count` signed 32-bit numbers behind a pointer.
pub open spec fn pointed_ints(memory: Map<int, u8>, pointer: u64, count: u64) -> Option<Seq<i32>> {
    if cpu::mapped(memory, pointer as int, (4 * count) as nat) {
        Some(
            Seq::new(
                count as nat,
                |i: int| signed_dword(cpu::le_value(cpu::load(memory, pointer + 4 * i, 4)) as int) as i32,
            ),
        )
    } else {
        None
    }
}

/// The bytes of the first `n` numbers.
pub open spec fn int_bytes(values: Seq<i32>, n: nat) -> Seq<u8>
    decreases n,
{
    if n == 0 {
        Seq::empty()
    } else {
        int_bytes(values, (n - 1) as nat) + cpu::le_bytes(unsigned_dword(values[n - 1] as int) as nat, 4)
    }
}

/// The bytes of 16-bit units.
pub open spec fn unit_bytes(units: Seq<u16>) -> Seq<u8> {
    Seq::new(
        2 * units.len(),
        |i: int|
            if i % 2 == 0 {
                (units[i / 2] % 256) as u8
            } else {
                (units[i / 2] / 256) as u8
            },
    )
}

/// What a message does to a status bar, and what it leaves in guest memory; `None`
/// where memory that it needs is not mapped.
pub open spec fn after_bar(bar: StatusBarModel, message: u32, wparam: u64, lparam: u64, memory: Map<int, u8>) -> Option<
    (StatusBarModel, Reply, Map<int, u8>),
> {
    let part = wparam as int % 256;
    if message == SB_SETPARTS {
        match pointed_ints(memory, lparam, wparam) {
            Some(rights) => Some((StatusBarModel { rights, ..bar }, Reply::Value(1), memory)),
            None => None,
        }
    } else if message == SB_GETPARTS {
        let count = if wparam < bar.rights.len() {
            wparam as nat
        } else {
            bar.rights.len()
        };
        if lparam == 0 {
            Some((bar, Reply::Value(bar.rights.len() as u64), memory))
        } else if cpu::mapped(memory, lparam as int, int_bytes(bar.rights, count).len()) {
            Some(
                (
                    bar,
                    Reply::Value(bar.rights.len() as u64),
                    cpu::store(memory, lparam as int, int_bytes(bar.rights, count)),
                ),
            )
        } else {
            None
        }
    } else if message == SB_SETTEXTW {
        if lparam == 0 {
            Some((bar.with_part(part, Seq::empty()), Reply::Value(1), memory))
        } else {
            match text::wide_string(memory, lparam as int) {
                Some(units) => Some((bar.with_part(part, text::utf16_decoded(units)), Reply::Value(1), memory)),
                None => None,
            }
        }
    } else if message == SB_GETTEXTLENGTHW {
        Some((bar, Reply::Value(text::utf16_encoded(bar.part(part)).len() as u64), memory))
    } else if message == SB_GETTEXTW {
        let units = text::utf16_encoded(bar.part(part));
        let bytes = unit_bytes(units.push(0));
        if cpu::mapped(memory, lparam as int, bytes.len()) {
            Some((bar, Reply::Value(units.len() as u64), cpu::store(memory, lparam as int, bytes)))
        } else {
            None
        }
    } else {
        Some((bar, Reply::Unhandled, memory))
    }
}

fn read_ints(engine: &GuestCpu, pointer: u64, count: u64) -> (result: Result<Vec<i32>, MemoryFault>)
    ensures
        match result {
            Ok(values) => pointed_ints(engine.memory(), pointer, count) == Some(values@),
            Err(fault) => pointed_ints(engine.memory(), pointer, count) is None && fault.address == pointer,
        },
{
    let ghost all = Seq::new(
        count as nat,
        |i: int| signed_dword(cpu::le_value(cpu::load(engine.memory(), pointer + 4 * i, 4)) as int) as i32,
    );
    let mut values: Vec<i32> = Vec::new();
    let mut i: u64 = 0;
    while i < count
        invariant
            i <= count,
            i > 0 ==> pointer + 4 * i <= u64::MAX + 1,
            all == Seq::new(
                count as nat,
                |i: int| signed_dword(cpu::le_value(cpu::load(engine.memory(), pointer + 4 * i, 4)) as int) as i32,
            ),
            values@ == all.take(i as int),
            cpu::mapped(engine.memory(), pointer as int, (4 * i) as nat),
        decreases count - i,
    {
        if i > 0 && (pointer > u64::MAX - 4 || i > (u64::MAX - 3 - pointer) / 4) {
            assert(!cpu::mapped(engine.memory(), pointer as int, (4 * count) as nat)) by {
                if cpu::mapped(engine.memory(), pointer as int, (4 * count) as nat) {
                    assert(engine.memory().dom().contains(pointer + 4 * i + 3));
                }
            }
            return Err(MemoryFault { address: pointer });
        }
        let at: u64 = if i == 0 {
            pointer
        } else {
            pointer + 4 * i
        };
        match engine.read_u32(at) {
            Ok(raw) => {
                let value: i32 = if raw >= 0x8000_0000 {
                    (raw as i64 - 0x1_0000_0000) as i32
                } else {
                    raw as i32
                };
                assert(value == all[i as int]);
                values.push(value);
                assert(values@ =~= all.take(i + 1));
                assert(cpu::mapped(engine.memory(), at as int, 4));
                assert(engine.memory().dom().contains(at + 3));
                assert forall|a: int| pointer <= a < pointer + 4 * (i + 1) implies #[trigger] engine.memory().dom().contains(
                    a,
                ) by {}
            },
            Err(_) => {
                assert(!cpu::mapped(engine.memory(), pointer as int, (4 * count) as nat)) by {
                    if cpu::mapped(engine.memory(), pointer as int, (4 * count) as nat) {
                        assert(cpu::mapped(engine.memory(), at as int, 4));
                    }
                }
                return Err(MemoryFault { address: pointer });
            },
        }
        i = i + 1;
    }
    assert(values@ =~= all);
    Ok(values)
}

/// Encode the first `count` numbers.
pub fn to_int_bytes(values: &[i32], count: usize) -> (bytes: Vec<u8>)
    requires
        count <= values@.len(),
    ensures
        bytes@ == int_bytes(values@, count as nat),
{
    let mut bytes: Vec<u8> = Vec::new();
    let mut i: usize = 0;
    while i < count
        invariant
            i <= count <= values@.len(),
            bytes@ == int_bytes(values@, i as nat),
        decreases count - i,
    {
        let value: i32 = values[i];
        let raw: u32 = if value < 0 {
            (value as i64 + 0x1_0000_0000) as u32
        } else {
            value as u32
        };
        let ghost before = bytes@;
        bytes.push((raw % 256) as u8);
        bytes.push((raw / 256 % 256) as u8);
        bytes.push((raw / 65536 % 256) as u8);
        bytes.push((raw / 16777216) as u8);
        proof {
            reveal_with_fuel(cpu::le_bytes, 5);
            let word = cpu::le_bytes(raw as nat, 4);
            assert(raw as nat / 256 / 256 == raw as nat / 65536);
            assert(raw as nat / 256 / 256 / 256 == raw as nat / 16777216);
            assert(word =~= seq![
                (raw as nat % 256) as u8,
                (raw as nat / 256 % 256) as u8,
                (raw as nat / 65536 % 256) as u8,
                (raw as nat / 16777216 % 256) as u8,
            ]);
            assert(bytes@ =~= before + word);
        }
        i = i + 1;
    }
    bytes
}

fn to_unit_bytes(units: &[u16]) -> (bytes: Vec<u8>)
    ensures
        bytes@ == unit_bytes(units@),
{
    let mut bytes: Vec<u8> = Vec::new();
    let mut i: usize = 0;
    while i < units.len()
        invariant
            i <= units@.len(),
            bytes@ == unit_bytes(units@.take(i as int)),
        decreases units@.len() - i,
    {
        let ghost before = bytes@;
        bytes.push((units[i] % 256) as u8);
        bytes.push((units[i] / 256) as u8);
        i = i + 1;
        assert(bytes@ =~= unit_bytes(units@.take(i as int)));
    }
    assert(units@.take(i as int) =~= units@);
    bytes
}

fn bar_message(bar: &mut StatusBarState, message: u32, wparam: u64, lparam: u64, engine: &mut GuestCpu) -> (result: Result<
    Reply,
    MemoryFault,
>)
    ensures
        final(engine).same_registers(old(engine)),
        match result {
            Ok(reply) => after_bar(old(bar)@, message, wparam, lparam, old(engine).memory()) == Some(
                (final(bar)@, reply, final(engine).memory()),
            ),
            Err(fault) => {
                &&& fault.address == lparam
                &&& after_bar(old(bar)@, message, wparam, lparam, old(engine).memory()) is None
                &&& final(bar)@ == old(bar)@
                &&& final(engine).memory() == old(engine).memory()
            },
        },
{
    let part: usize = (wparam % 256) as usize;
    if message == SB_SETPARTS {
        match read_ints(engine, lparam, wparam) {
            Ok(rights) => {
                bar.set_rights(rights);
                Ok(Reply::Value(1))
            },
            Err(fault) => Err(fault),
        }
    } else if message == SB_GETPARTS {
        let stored: usize = bar.rights().len();
        if lparam == 0 {
            return Ok(Reply::Value(stored as u64));
        }
        let count: usize = if wparam < stored as u64 {
            wparam as usize
        } else {
            stored
        };
        let bytes = to_int_bytes(bar.rights(), count);
        match engine.mem_write(lparam, &bytes) {
            Ok(_) => Ok(Reply::Value(stored as u64)),
            Err(fault) => Err(fault),
        }
    } else if message == SB_SETTEXTW {
        if lparam == 0 {
            let none: Vec<char> = Vec::new();
            assert(none@ =~= Seq::<char>::empty());
            bar.set_part_text(part, none);
            return Ok(Reply::Value(1));
        }
        match text::read_wide(engine, lparam) {
            Ok(units) => {
                bar.set_part_text(part, text::decode_utf16(&units));
                Ok(Reply::Value(1))
            },
            Err(fault) => Err(fault),
        }
    } else if message == SB_GETTEXTLENGTHW {
        let units = text::encode_utf16(&bar.part_text(part));
        Ok(Reply::Value(units.len() as u64))
    } else if message == SB_GETTEXTW {
        let mut units = text::encode_utf16(&bar.part_text(part));
        let count: usize = units.len();
        units.push(0);
        let bytes = to_unit_bytes(&units);
        match engine.mem_write(lparam, &bytes) {
            Ok(_) => Ok(Reply::Value(count as u64)),
            Err(fault) => Err(fault),
        }
    } else {
        Ok(Reply::Unhandled)
    }
}

/// What a message does to a control; `None` where guest memory that it needs is not
/// mapped.
pub open spec fn control_outcome(
    control: ControlModel,
    message: u32,
    wparam: u64,
    lparam: u64,
    world: ControlWorld,
    frame: &EditFrame,
) -> Option<ControlOutcome> {
    match control {
        ControlModel::Plain | ControlModel::Label => Some(
            world.control_only(control, Reply::Unhandled, Repaint::Keep),
        ),
        ControlModel::Button(pressed) => {
            let (after, reply, capture) = after_button(pressed, message, wparam, lparam, world.focus, frame);
            Some(
                ControlOutcome {
                    answer: Answer { reply, capture, blink: Blink::Keep, repaint: repaint_if(after != pressed) },
                    ..world.control_only(ControlModel::Button(after), reply, Repaint::Keep)
                },
            )
        },
        ControlModel::ListBox(list) => match after_list(list, message, wparam, lparam, world.edit.memory, frame) {
            Some((after, reply)) => Some(
                world.control_only(ControlModel::ListBox(after), reply, repaint_if(after != list)),
            ),
            None => None,
        },
        ControlModel::StatusBar(bar) => match after_bar(bar, message, wparam, lparam, world.edit.memory) {
            Some((after, reply, memory)) => Some(
                ControlOutcome {
                    memory,
                    ..world.control_only(
                        ControlModel::StatusBar(after),
                        reply,
                        repaint_if(message == SB_SETPARTS || message == SB_SETTEXTW),
                    )
                },
            ),
            None => None,
        },
        ControlModel::Edit(field) => match edit_control::edit_control_outcome(
            field,
            message,
            wparam,
            lparam,
            world.edit,
            world.heap,
            frame,
        ) {
            Some(outcome) => Some(
                ControlOutcome {
                    control: ControlModel::Edit(outcome.control),
                    answer: outcome.answer,
                    clip: outcome.clip,
                    memory: outcome.memory,
                },
            ),
            None => None,
        },
    }
}

/// The fault of a message: but for edit controls, the second parameter is the only
/// pointer.
pub open spec fn control_fault(
    control: ControlModel,
    message: u32,
    wparam: u64,
    lparam: u64,
    memory: Map<int, u8>,
    heap: GuestHeap,
) -> MemoryFault {
    match control {
        ControlModel::Edit(_) => edit_control::edit_control_fault(message, wparam, lparam, memory, heap),
        _ => MemoryFault { address: lparam },
    }
}

fn plain_answer(reply: Reply, capture: Capture, changed: bool) -> (answer: Answer)
    ensures
        answer == (Answer { reply, capture, blink: Blink::Keep, repaint: repaint_if(changed) }),
{
    let repaint = if changed {
        Repaint::Request
    } else {
        Repaint::Keep
    };
    Answer { reply, capture, blink: Blink::Keep, repaint }
}

/// Handle a message to a control. Where guest memory that the message needs is not
/// mapped, the fault is reported and nothing changes.
pub fn control_message(
    control: &mut ControlState,
    message: u32,
    wparam: u64,
    lparam: u64,
    keys: Modifiers,
    captured: bool,
    focus: bool,
    clipboard: &mut ClipboardState,
    engine: &mut GuestCpu,
    heap: GuestHeap,
    frame: &EditFrame,
) -> (result: Result<Answer, MemoryFault>)
    requires
        old(control)@.wf(),
    ensures
        final(control)@.wf(),
        final(engine).same_registers(old(engine)),
        ({
            let world = ControlWorld {
                edit: edit_proc::EditWorld { keys, captured, clip: old(clipboard)@, memory: old(engine).memory() },
                focus,
                heap,
            };
            match (result, control_outcome(old(control)@, message, wparam, lparam, world, frame)) {
                (Ok(answer), Some(outcome)) => {
                    &&& outcome.control == final(control)@
                    &&& outcome.answer == answer
                    &&& outcome.clip == final(clipboard)@
                    &&& outcome.memory == final(engine).memory()
                },
                (Err(fault), None) => {
                    &&& fault == control_fault(old(control)@, message, wparam, lparam, old(engine).memory(), heap)
                    &&& final(control)@ == old(control)@
                    &&& final(clipboard)@ == old(clipboard)@
                    &&& final(engine).memory() == old(engine).memory()
                },
                _ => false,
            }
        }),
{
    match control {
        ControlState::Plain | ControlState::Label => Ok(
            plain_answer(Reply::Unhandled, Capture::Keep, false),
        ),
        ControlState::Button(pressed) => {
            let before = *pressed;
            let (after, reply, capture) = button_message(before, message, wparam, lparam, focus, frame);
            *pressed = after;
            Ok(plain_answer(reply, capture, after != before))
        },
        ControlState::ListBox(list) => match list_message(list, message, wparam, lparam, engine, frame) {
            Ok((reply, repaint)) => Ok(Answer { reply, capture: Capture::Keep, blink: Blink::Keep, repaint }),
            Err(fault) => Err(fault),
        },
        ControlState::StatusBar(bar) => match bar_message(bar, message, wparam, lparam, engine) {
            Ok(reply) => Ok(
                plain_answer(reply, Capture::Keep, message == SB_SETPARTS || message == SB_SETTEXTW),
            ),
            Err(fault) => Err(fault),
        },
        ControlState::Edit(field) => edit_control::edit_control_message(
            field,
            message,
            wparam,
            lparam,
            keys,
            captured,
            clipboard,
            engine,
            heap,
            frame,
        ),
    }
}

} // verus!
