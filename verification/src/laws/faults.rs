//! A refused access is reported at an address that could not be read or written.
use vstd::prelude::*;

use crate::controls;
use crate::controls::ControlModel;
use crate::cpu;
use crate::cpu::GuestCpu;
use crate::edit::EditFrame;
use crate::edit_control;
use crate::edit_proc;
use crate::handlers;
use crate::handlers::BoxKind;
use crate::heap;
use crate::process::GuestHeap;
use crate::registry;
use crate::text;

verus! {

/// A message to an edit control fails only where guest memory is missing, and the
/// fault names the pointer that leads there: the heap for a copy of the text, and else
/// one of the two parameters.
pub proof fn edit_messages_fail_at_a_pointer(
    control: edit_control::EditControlModel,
    message: u32,
    wparam: u64,
    lparam: u64,
    world: edit_proc::EditWorld,
    heap: GuestHeap,
    frame: &EditFrame,
)
    requires
        edit_control::edit_control_outcome(control, message, wparam, lparam, world, heap, frame) is None,
    ensures
        ({
            let at = edit_control::edit_control_fault(message, wparam, lparam, world.memory, heap).address;
            &&& message != 0x00BD ==> at == lparam || message == 0x00B0 && at == wparam
            &&& message == 0x00B0 ==> at != 0 && !cpu::mapped(world.memory, at as int, 4)
            &&& message == 0x000C || message == 0x00C2 || message == 0x00BC ==> text::pointed_name(
                world.memory,
                at,
                false,
            ) is None
            &&& message == 0x00CB ==> !cpu::mapped(world.memory, at as int, (2 * wparam) as nat)
            &&& message == 0x00D6 ==> wparam < control.edit.text.len()
            &&& message == 0x00BD ==> !cpu::mapped(world.memory, heap.base as int, 8) && at == heap.base
                || cpu::mapped(world.memory, heap.base as int, 8) && at == heap::next_block(world.memory, heap) as u64
        }),
        message == 0x000C || message == 0x00C2 || message == 0x00BC || message == 0x00CB || message == 0x00B0 || message
            == 0x00C4 || message == 0x00D6 || message == 0x00BD,
{
}

/// A message to another control fails only at its second parameter.
pub proof fn control_messages_fail_at_their_pointer(
    control: ControlModel,
    message: u32,
    wparam: u64,
    lparam: u64,
    world: controls::ControlWorld,
    frame: &EditFrame,
)
    requires
        !(control is Edit),
        controls::control_outcome(control, message, wparam, lparam, world, frame) is None,
    ensures
        controls::control_fault(control, message, wparam, lparam, world.edit.memory, world.heap).address == lparam,
        control is ListBox && message == 0x0180 || control is StatusBar && (message == 0x0404 || message == 0x0406
            || message == 0x040B || message == 0x040D),
{
}

/// A registry call fails at the path that cannot be read, at the stack, or where the
/// result would go; nothing is written then.
pub proof fn registry_calls_fail_at_a_pointer(engine: GuestCpu, keys: Seq<crate::process::RegistryKey>, wide: bool)
    ensures
        registry::open_outcome(engine, keys, wide, false) is None <==> text::pointed_name(
            engine.memory(),
            engine.rdx,
            wide,
        ) is None || !cpu::mapped(engine.memory(), engine.r8 as int, 8),
        text::pointed_name(engine.memory(), engine.rdx, wide) is None ==> registry::open_fault(engine, wide, false).address
            == engine.rdx && registry::create_fault(engine, wide).address == engine.rdx && registry::open_fault(
            engine,
            wide,
            true,
        ).address == engine.rdx,
        text::pointed_name(engine.memory(), engine.rdx, wide) is Some && !cpu::mapped(
            engine.memory(),
            engine.r8 as int,
            8,
        ) ==> registry::open_fault(engine, wide, false).address == engine.r8,
        registry::create_arguments(engine, wide) is Some ==> cpu::mapped(engine.memory(), engine.rsp + 0x40, 8)
            && cpu::mapped(engine.memory(), engine.rsp + 0x48, 8),
{
}

/// Creating a key takes the path from RDX and the two result pointers from the stack,
/// the eighth and the ninth argument.
pub proof fn create_arguments_stand_on_the_stack(engine: GuestCpu, wide: bool)
    ensures
        registry::create_arguments(engine, wide) matches Some((path, result, disposition)) ==> {
            &&& text::pointed_name(engine.memory(), engine.rdx, wide) == Some(path)
            &&& result as nat == cpu::le_value(cpu::load(engine.memory(), engine.rsp + 0x40, 8)) as u64
            &&& disposition as nat == cpu::le_value(cpu::load(engine.memory(), engine.rsp + 0x48, 8)) as u64
            &&& cpu::mapped(engine.memory(), result as int, 8)
            &&& disposition == 0 || cpu::mapped(engine.memory(), disposition as int, 4)
        },
{
}

/// A message box whose texts cannot be read fails at the pointer that leads nowhere.
pub proof fn message_boxes_fail_at_a_pointer(engine: GuestCpu, kind: BoxKind)
    requires
        handlers::box_texts(engine, kind).0 is None || handlers::box_texts(engine, kind).1 is None,
    ensures
        ({
            let at = handlers::box_fault(engine, kind).address;
            &&& at == engine.rdx || at == engine.r8
            &&& text::pointed_name(engine.memory(), at, kind != BoxKind::Ansi) is None
        }),
{
}

/// An allocation that fails names the control block or the new block, whichever is not
/// there.
pub proof fn allocations_fail_where_memory_is_missing(memory: Map<int, u8>, heap: GuestHeap, len: nat)
    requires
        heap::allocation(memory, heap, len) is None,
    ensures
        ({
            let at = heap::allocation_fault(memory, heap).address as int;
            at == heap.base && !cpu::mapped(memory, at, 8) || !cpu::mapped(memory, at, len)
        }),
{
}

} // verus!
