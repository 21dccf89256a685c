//! API handlers that read guest strings: registered messages and message boxes.
use vstd::prelude::*;

use crate::cpu::{GuestCpu, MemoryFault};
use crate::dll_state::DllId;
use crate::messages;
use crate::present::PresentState;
use crate::state;
use crate::state::{HandlerContext, WinApiHandlerResult, WinApiState};
use crate::text;
use crate::user32;
use crate::window::{PendingMessageBox, WindowState};

verus! {

/// Message-box button: OK.
pub const IDOK: u64 = 1;

/// Message-box button: Cancel.
pub const IDCANCEL: u64 = 2;

/// Message-box button: Yes.
pub const IDYES: u64 = 6;

/// Message-box button: No.
pub const IDNO: u64 = 7;

/// Whether `between` is `before` with the window state replaced: `from` is what an
/// access of the window state finds, `to` what it leaves.
pub open spec fn windows_replaced<F>(
    before: WinApiState<F>,
    from: WindowState,
    to: WindowState,
    between: WinApiState<F>,
) -> bool {
    &&& before.dll_states.reached(DllId::Window, from)
    &&& between.same_besides_dlls(before)
    &&& between.dll_states@ == before.dll_states.with_state(DllId::Window, to)
}

/// What registering a name does in the emulator, and that its id is returned.
pub open spec fn message_registered<F>(
    before: WinApiState<F>,
    after: WinApiState<F>,
    engine: GuestCpu,
    engine_after: GuestCpu,
    name: Seq<char>,
    result: Result<WinApiHandlerResult, MemoryFault>,
) -> bool {
    exists|from: WindowState, to: WindowState, between: WinApiState<F>, id: u64|
        {
            &&& #[trigger] windows_replaced(before, from, to, between)
            &&& #[trigger] user32::registered(from.registered_messages@, name, to.registered_messages@, id)
            &&& to == (WindowState { registered_messages: to.registered_messages, ..from })
            &&& between.settled(after)
            &&& state::call_returned(engine, engine_after, id, result)
        }
}

/// `RegisterWindowMessageA` and `RegisterWindowMessageW`: the two share their names.
pub fn handle_register_window_message<'a, F>(context: &mut HandlerContext<'a, F>, wide: bool) -> (result: Result<
    WinApiHandlerResult,
    MemoryFault,
>)
    requires
        old(context).state.dll_states.accepts::<WindowState>(DllId::Window),
        old(context).state.dll_states.accepts::<PresentState>(DllId::Present),
        old(context).state.dll_states.state::<WindowState>(DllId::Window) matches Some(windows) ==> windows.wf(),
    ensures
        final(context).environment == old(context).environment,
        final(context).heap == old(context).heap,
        *final(final(context).engine) == *final(old(context).engine),
        *final(final(context).state) == *final(old(context).state),
        match text::pointed_name(old(context).engine.memory(), old(context).engine.rcx, wide) {
            None => {
                &&& result == Err::<WinApiHandlerResult, _>(MemoryFault { address: old(context).engine.rcx })
                &&& *final(context).engine == *old(context).engine
                &&& *final(context).state == *old(context).state
            },
            Some(name) => message_registered(
                *old(context).state,
                *final(context).state,
                *old(context).engine,
                *final(context).engine,
                name,
                result,
            ),
        },
{
    let name = match text::read_name(context.engine, context.engine.rcx, wide) {
        Ok(name) => name,
        Err(fault) => {
            return Err(fault);
        },
    };
    proof {
        context.state.dll_states.lemma_len();
    }
    let windows = context.state.window_state();
    let ghost from = *windows;
    let id: u64 = user32::register_window_message(windows, name);
    let ghost to = *windows;
    let ghost between = *context.state;
    assert(windows_replaced(*old(context).state, from, to, between));
    context.finish(id)
}

/// What the host is asked to show.
#[derive(Debug, Clone)]
pub struct MessageBoxRequest {
    pub caption: Vec<char>,
    pub text: Vec<char>,
    /// `MB_*` bits.
    pub message_box_type: u32,
}

/// What a message box does next.
#[derive(Debug, Clone)]
pub enum MessageBoxStep {
    /// The host has to show the box and record the user's choice.
    Ask(MessageBoxRequest),
    /// The box is closed.
    Answer(u64),
}

/// The next step of a message box: a recorded choice is the answer and ends the
/// box; without a host to show it the answer is OK; else the host is asked.
pub open spec fn box_answer(pending: Option<PendingMessageBox>, bridge: bool) -> Option<u64> {
    match pending {
        Some(waiting) => match waiting.pick {
            Some(id) => Some(id as u64),
            None => None,
        },
        None => if bridge {
            None
        } else {
            Some(IDOK)
        },
    }
}

/// Take the next step of a message box.
pub fn message_box_step(windows: &mut WindowState, bridge: bool, request: MessageBoxRequest) -> (step: MessageBoxStep)
    ensures
        match (step, box_answer(old(windows).pending_message_box, bridge)) {
            (MessageBoxStep::Answer(id), Some(answer)) => {
                &&& id == answer
                &&& *final(windows) == (WindowState { pending_message_box: None, ..*old(windows) })
            },
            (MessageBoxStep::Ask(asked), None) => {
                &&& asked == request
                &&& *final(windows) == (WindowState {
                    pending_message_box: Some(PendingMessageBox { pick: None }),
                    ..*old(windows)
                })
            },
            _ => false,
        },
        old(windows).wf() ==> final(windows).wf(),
{
    match windows.pending_message_box {
        Some(waiting) => match waiting.pick {
            Some(id) => {
                windows.pending_message_box = None;
                MessageBoxStep::Answer(id as u64)
            },
            None => MessageBoxStep::Ask(request),
        },
        None => {
            if bridge {
                windows.pending_message_box = Some(PendingMessageBox { pick: None });
                MessageBoxStep::Ask(request)
            } else {
                MessageBoxStep::Answer(IDOK)
            }
        },
    }
}

/// Record the user's choice for a message box that waits. Answers whether one does.
pub fn record_message_box_choice(windows: &mut WindowState, id: u32) -> (waiting: bool)
    ensures
        waiting == (old(windows).pending_message_box is Some),
        *final(windows) == if waiting {
            WindowState { pending_message_box: Some(PendingMessageBox { pick: Some(id) }), ..*old(windows) }
        } else {
            *old(windows)
        },
        old(windows).wf() ==> final(windows).wf(),
{
    if windows.pending_message_box.is_none() {
        return false;
    }
    windows.pending_message_box = Some(PendingMessageBox { pick: Some(id) });
    true
}

/// The choice that the host records is what the guest gets, and the box is over.
pub proof fn recorded_choice_is_answered(id: u32, bridge: bool)
    ensures
        box_answer(Some(PendingMessageBox { pick: Some(id) }), bridge) == Some(id as u64),
        box_answer(Some(PendingMessageBox { pick: None }), bridge) is None,
        box_answer(None, false) == Some(IDOK),
{
}

/// Why a handler did not return to the guest.
#[derive(Debug, Clone)]
pub enum HandlerSignal {
    /// Guest memory that the call needs is not mapped.
    Fault(MemoryFault),
    /// The host has to show a message box; the call is then made again.
    MessageBoxBridgeRequested { request: MessageBoxRequest },
}

/// Which function opens the box.
#[derive(Debug, Clone, Copy, PartialEq, Eq, Structural)]
pub enum BoxKind {
    /// `MessageBoxA`: text in RDX, caption in R8, type in R9.
    Ansi,
    /// `MessageBoxW`: the same in UTF-16.
    Wide,
    /// `ShellAboutW`: caption in RDX, text in R8, always an OK box, answers 1.
    About,
}

/// What a closed box returns.
pub open spec fn box_value(kind: BoxKind, answer: u64) -> u64 {
    if kind == BoxKind::About {
        1
    } else {
        answer
    }
}

/// What a box shows.
pub open spec fn box_texts(engine: GuestCpu, kind: BoxKind) -> (Option<Seq<char>>, Option<Seq<char>>, int) {
    let second = text::pointed_name(engine.memory(), engine.rdx, kind != BoxKind::Ansi);
    let third = text::pointed_name(engine.memory(), engine.r8, kind != BoxKind::Ansi);
    match kind {
        BoxKind::About => (second, third, 0),
        _ => (third, second, messages::low_dword(engine.r9)),
    }
}

/// The fault of a box whose texts cannot be read.
pub open spec fn box_fault(engine: GuestCpu, kind: BoxKind) -> MemoryFault {
    MemoryFault {
        address: if text::pointed_name(engine.memory(), engine.rdx, kind != BoxKind::Ansi) is None {
            engine.rdx
        } else {
            engine.r8
        },
    }
}

/// A return to the guest as the handler's result.
pub open spec fn as_signal(returned: Result<WinApiHandlerResult, MemoryFault>) -> Result<
    WinApiHandlerResult,
    HandlerSignal,
> {
    match returned {
        Ok(done) => Ok(done),
        Err(fault) => Err(HandlerSignal::Fault(fault)),
    }
}

/// Whether the host shows message boxes.
pub open spec fn has_bridge<F>(state: WinApiState<F>) -> bool {
    match state.dll_states.state::<PresentState>(DllId::Present) {
        Some(present) => present.message_box_bridge,
        None => false,
    }
}

/// What one entry of a message-box call does: the answer is returned and the box is
/// over, or the box waits and the host is asked to show these texts.
pub open spec fn box_stepped<F>(
    before: WinApiState<F>,
    after: WinApiState<F>,
    engine: GuestCpu,
    engine_after: GuestCpu,
    kind: BoxKind,
    caption: Seq<char>,
    shown: Seq<char>,
    kind_bits: int,
    result: Result<WinApiHandlerResult, HandlerSignal>,
) -> bool {
    exists|from: WindowState, to: WindowState, between: WinApiState<F>|
        {
            &&& #[trigger] windows_replaced(before, from, to, between)
            &&& match box_answer(from.pending_message_box, has_bridge(before)) {
                Some(answer) => {
                    &&& to == (WindowState { pending_message_box: None, ..from })
                    &&& between.settled(after)
                    &&& box_closed(engine, engine_after, box_value(kind, answer), result)
                },
                None => {
                    &&& to == (WindowState {
                        pending_message_box: Some(PendingMessageBox { pick: None }),
                        ..from
                    })
                    &&& after == between
                    &&& engine_after == engine
                    &&& result matches Err(HandlerSignal::MessageBoxBridgeRequested { request })
                        && request.caption@ == caption && request.text@ == shown && request.message_box_type
                        == kind_bits
                },
            }
        }
}

/// Whether a closed box returned its value to the guest.
pub open spec fn box_closed(
    engine: GuestCpu,
    engine_after: GuestCpu,
    value: u64,
    result: Result<WinApiHandlerResult, HandlerSignal>,
) -> bool {
    exists|returned: Result<WinApiHandlerResult, MemoryFault>| #[trigger]
        state::call_returned(engine, engine_after, value, returned) && result == as_signal(returned)
}

/// `MessageBoxA`, `MessageBoxW` and `ShellAboutW`.
pub fn handle_message_box<'a, F>(context: &mut HandlerContext<'a, F>, kind: BoxKind) -> (result: Result<
    WinApiHandlerResult,
    HandlerSignal,
>)
    requires
        old(context).state.dll_states.accepts::<WindowState>(DllId::Window),
        old(context).state.dll_states.accepts::<PresentState>(DllId::Present),
    ensures
        final(context).environment == old(context).environment,
        final(context).heap == old(context).heap,
        *final(final(context).engine) == *final(old(context).engine),
        *final(final(context).state) == *final(old(context).state),
        match box_texts(*old(context).engine, kind) {
            (Some(caption), Some(shown), kind_bits) => box_stepped(
                *old(context).state,
                *final(context).state,
                *old(context).engine,
                *final(context).engine,
                kind,
                caption,
                shown,
                kind_bits,
                result,
            ),
            _ => {
                &&& result == Err::<WinApiHandlerResult, _>(HandlerSignal::Fault(box_fault(*old(context).engine, kind)))
                &&& *final(context).engine == *old(context).engine
                &&& *final(context).state == *old(context).state
            },
        },
{
    let wide = match kind {
        BoxKind::Ansi => false,
        _ => true,
    };
    let second = match text::read_name(context.engine, context.engine.rdx, wide) {
        Ok(chars) => chars,
        Err(fault) => {
            return Err(HandlerSignal::Fault(fault));
        },
    };
    let third = match text::read_name(context.engine, context.engine.r8, wide) {
        Ok(chars) => chars,
        Err(fault) => {
            return Err(HandlerSignal::Fault(fault));
        },
    };
    let request = match kind {
        BoxKind::About => MessageBoxRequest { caption: second, text: third, message_box_type: 0 },
        _ => MessageBoxRequest {
            caption: third,
            text: second,
            message_box_type: messages::lodword(context.engine.r9),
        },
    };
    let bridge = match context.state.try_present() {
        Some(present) => present.message_box_bridge,
        None => false,
    };
    proof {
        context.state.dll_states.lemma_len();
    }
    let windows = context.state.window_state();
    let ghost from = *windows;
    let step = message_box_step(windows, bridge, request);
    let ghost to = *windows;
    let ghost between = *context.state;
    assert(windows_replaced(*old(context).state, from, to, between));
    match step {
        MessageBoxStep::Ask(request) => Err(HandlerSignal::MessageBoxBridgeRequested { request }),
        MessageBoxStep::Answer(answer) => {
            let value: u64 = match kind {
                BoxKind::About => 1,
                _ => answer,
            };
            let returned = context.finish(value);
            assert(state::call_returned(*old(context).engine, *context.engine, value, returned));
            match returned {
                Ok(done) => Ok(done),
                Err(fault) => Err(HandlerSignal::Fault(fault)),
            }
        },
    }
}

} // verus!
