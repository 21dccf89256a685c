//! The registry: keys by parent and path, and the handlers that open and create
//! them.
use vstd::prelude::*;

use crate::cpu;
use crate::cpu::{GuestCpu, MemoryFault};
use crate::handles::RegistryKeyHandle;
use crate::process::{ProcessState, RegistryKey};
use crate::state;
use crate::state::{HandlerContext, WinApiHandlerResult};
use crate::text;

verus! {

/// Status: done.
pub const ERROR_SUCCESS: u64 = 0;

/// Status: there is no such key.
pub const ERROR_FILE_NOT_FOUND: u64 = 2;

/// Status: no handle is left.
pub const ERROR_OUTOFMEMORY: u64 = 14;

/// Disposition: the key was created.
pub const REG_CREATED_NEW_KEY: u32 = 1;

/// Disposition: the key existed.
pub const REG_OPENED_EXISTING_KEY: u32 = 2;

/// Values of the registry hive.
#[derive(Debug, Clone)]
pub struct RegistryState {
    /// Handles of the keys that values were written under.
    pub value_keys: Vec<u64>,
}

impl RegistryState {
    /// No value yet.
    pub open spec fn is_initial(&self) -> bool {
        self.value_keys@ == Seq::<u64>::empty()
    }
}

impl Default for RegistryState {
    fn default() -> (hive: Self)
        ensures
            hive.is_initial(),
    {
        RegistryState { value_keys: Vec::new() }
    }
}

/// The first key from `from` on with a parent and a path, without regard to case.
pub open spec fn key_from(keys: Seq<RegistryKey>, parent: u64, path: Seq<char>, from: int) -> Option<int>
    decreases keys.len() - from,
{
    if from < 0 || from >= keys.len() {
        None
    } else if keys[from].parent == parent && text::same_name(keys[from].subkey@, path) {
        Some(from)
    } else {
        key_from(keys, parent, path, from + 1)
    }
}

/// Find a key.
pub fn find_key(keys: &[RegistryKey], parent: u64, path: &[char]) -> (index: Option<usize>)
    ensures
        match index {
            Some(i) => key_from(keys@, parent, path@, 0) == Some(i as int) && i < keys@.len(),
            None => key_from(keys@, parent, path@, 0) is None,
        },
{
    let mut i: usize = 0;
    while i < keys.len()
        invariant
            i <= keys@.len(),
            key_from(keys@, parent, path@, i as int) == key_from(keys@, parent, path@, 0),
        decreases keys@.len() - i,
    {
        if keys[i].parent == parent && text::names_match(&text::to_chars(keys[i].subkey.as_str()), path) {
            return Some(i);
        }
        i = i + 1;
    }
    None
}

/// A key that was opened or created.
#[derive(Debug, Clone, Copy, PartialEq, Eq, Structural)]
pub struct CreatedKey {
    pub handle: u64,
    /// Whether it was created or opened.
    pub disposition: u32,
}

/// The key that a request to create one answers: a key that exists is opened,
/// another gets the next handle; `None` says that no handle is left.
pub open spec fn created_key(before: ProcessState, parent: u64, path: Seq<char>) -> Option<CreatedKey> {
    match key_from(before.registry_keys@, parent, path, 0) {
        Some(i) => Some(
            CreatedKey { handle: before.registry_keys@[i].handle, disposition: REG_OPENED_EXISTING_KEY },
        ),
        None => if before.next_registry_key_handle.0 == u64::MAX {
            None
        } else {
            Some(CreatedKey { handle: before.next_registry_key_handle.0, disposition: REG_CREATED_NEW_KEY })
        },
    }
}

/// What a request to create a key does to the keys: a new one is appended.
pub open spec fn key_created(before: ProcessState, after: ProcessState, parent: u64, path: Seq<char>) -> bool {
    match created_key(before, parent, path) {
        Some(key) => if key.disposition == REG_CREATED_NEW_KEY {
            &&& after.registry_keys@.len() == before.registry_keys@.len() + 1
            &&& after.registry_keys@.drop_last() == before.registry_keys@
            &&& after.registry_keys@.last().handle == key.handle
            &&& after.registry_keys@.last().parent == parent
            &&& after.registry_keys@.last().subkey@ == path
            &&& after == (ProcessState {
                registry_keys: after.registry_keys,
                next_registry_key_handle: RegistryKeyHandle((key.handle + 1) as u64),
                ..before
            })
        } else {
            after == before
        },
        None => after == before,
    }
}

/// Open a key, creating it where it does not exist. Answers the handle and whether
/// it was created.
pub fn create_key(process: &mut ProcessState, parent: u64, path: &[char]) -> (result: Option<CreatedKey>)
    ensures
        result == created_key(*old(process), parent, path@),
        key_created(*old(process), *final(process), parent, path@),
{
    match find_key(&process.registry_keys, parent, path) {
        Some(i) => Some(
            CreatedKey { handle: process.registry_keys[i].handle, disposition: REG_OPENED_EXISTING_KEY },
        ),
        None => {
            let handle: u64 = process.next_registry_key_handle.as_u64();
            if handle == u64::MAX {
                return None;
            }
            process.registry_keys.push(RegistryKey { handle, parent, subkey: text::to_string(path) });
            process.next_registry_key_handle = RegistryKeyHandle(handle + 1);
            assert(process.registry_keys@.drop_last() =~= old(process).registry_keys@);
            Some(CreatedKey { handle, disposition: REG_CREATED_NEW_KEY })
        },
    }
}

/// A key that was created opens with the handle it was created under.
pub proof fn created_keys_open(before: ProcessState, after: ProcessState, parent: u64, path: Seq<char>)
    requires
        key_created(before, after, parent, path),
        created_key(before, parent, path) is Some,
    ensures
        key_from(after.registry_keys@, parent, path, 0) matches Some(i)
            && after.registry_keys@[i].handle == (created_key(before, parent, path)->0).handle,
        created_key(after, parent, path) == Some(
            CreatedKey {
                handle: (created_key(before, parent, path)->0).handle,
                disposition: REG_OPENED_EXISTING_KEY,
            },
        ),
{
    lemma_key_from(before.registry_keys@, parent, path, 0);
    if key_from(before.registry_keys@, parent, path, 0) is None {
        lemma_key_pushed(before.registry_keys@, after.registry_keys@, parent, path, 0);
    }
}

proof fn lemma_key_from(keys: Seq<RegistryKey>, parent: u64, path: Seq<char>, from: int)
    requires
        0 <= from <= keys.len(),
    ensures
        key_from(keys, parent, path, from) matches Some(i) ==> from <= i < keys.len(),
    decreases keys.len() - from,
{
    if from < keys.len() {
        lemma_key_from(keys, parent, path, from + 1);
    }
}

proof fn lemma_key_pushed(before: Seq<RegistryKey>, after: Seq<RegistryKey>, parent: u64, path: Seq<char>, from: int)
    requires
        0 <= from <= before.len(),
        after.len() == before.len() + 1,
        after.drop_last() == before,
        after.last().parent == parent,
        after.last().subkey@ == path,
        key_from(before, parent, path, from) is None,
    ensures
        key_from(after, parent, path, from) == Some(before.len() as int),
    decreases before.len() - from,
{
    if from < before.len() {
        assert(after.drop_last()[from] == before[from]);
        lemma_key_pushed(before, after, parent, path, from + 1);
    }
}

/// The 64-bit stack argument `offset` bytes above the stack pointer.
pub open spec fn stack_argument(engine: GuestCpu, offset: int) -> Option<u64> {
    if cpu::mapped(engine.memory(), engine.rsp + offset, 8) {
        Some(cpu::le_value(cpu::load(engine.memory(), engine.rsp + offset, 8)) as u64)
    } else {
        None
    }
}

/// The fault of a stack argument that cannot be read.
pub open spec fn stack_fault(engine: GuestCpu, offset: int) -> MemoryFault {
    MemoryFault {
        address: if engine.rsp + offset > u64::MAX {
            engine.rsp
        } else {
            (engine.rsp + offset) as u64
        },
    }
}

fn read_stack_argument(engine: &GuestCpu, offset: u64) -> (result: Result<u64, MemoryFault>)
    requires
        offset <= 0x1000,
    ensures
        match result {
            Ok(value) => stack_argument(*engine, offset as int) == Some(value),
            Err(fault) => {
                &&& stack_argument(*engine, offset as int) is None
                &&& fault == stack_fault(*engine, offset as int)
            },
        },
{
    if engine.rsp > u64::MAX - offset {
        assert(!engine.memory().dom().contains(engine.rsp + offset));
        return Err(MemoryFault { address: engine.rsp });
    }
    engine.read_u64(engine.rsp + offset)
}

/// What opening a key leaves in guest memory and answers: the handle where the
/// caller asked for it, 0 where there is no such key. `None` where an argument or
/// the result is not mapped. `RegOpenKey` passes the result pointer in R8,
/// `RegOpenKeyEx` on the stack.
pub open spec fn open_outcome(engine: GuestCpu, keys: Seq<RegistryKey>, wide: bool, extended: bool) -> Option<
    (Map<int, u8>, u64),
> {
    let pointer = if extended {
        stack_argument(engine, 0x30)
    } else {
        Some(engine.r8)
    };
    match (text::pointed_name(engine.memory(), engine.rdx, wide), pointer) {
        (Some(path), Some(result)) => if cpu::mapped(engine.memory(), result as int, 8) {
            let found = key_from(keys, engine.rcx, path, 0);
            let handle = match found {
                Some(i) => keys[i].handle,
                None => 0,
            };
            Some(
                (
                    cpu::store(engine.memory(), result as int, cpu::le_bytes(handle as nat, 8)),
                    if found is Some {
                        ERROR_SUCCESS
                    } else {
                        ERROR_FILE_NOT_FOUND
                    },
                ),
            )
        } else {
            None
        },
        _ => None,
    }
}

/// The fault of opening a key: at the path, at the stack argument, or at the result.
pub open spec fn open_fault(engine: GuestCpu, wide: bool, extended: bool) -> MemoryFault {
    if text::pointed_name(engine.memory(), engine.rdx, wide) is None {
        MemoryFault { address: engine.rdx }
    } else if !extended {
        MemoryFault { address: engine.r8 }
    } else {
        match stack_argument(engine, 0x30) {
            Some(result) => MemoryFault { address: result },
            None => stack_fault(engine, 0x30),
        }
    }
}

/// Open a key as the guest's registers and stack ask, without creating it.
pub fn open_key(engine: &mut GuestCpu, keys: &[RegistryKey], wide: bool, extended: bool) -> (result: Result<u64, MemoryFault>)
    ensures
        final(engine).same_registers(old(engine)),
        match (result, open_outcome(*old(engine), keys@, wide, extended)) {
            (Ok(status), Some(outcome)) => final(engine).memory() == outcome.0 && status == outcome.1,
            (Err(fault), None) => {
                &&& fault == open_fault(*old(engine), wide, extended)
                &&& *final(engine) == *old(engine)
            },
            _ => false,
        },
{
    let path = match text::read_name(engine, engine.rdx, wide) {
        Ok(path) => path,
        Err(fault) => {
            return Err(fault);
        },
    };
    let pointer: u64 = if extended {
        match read_stack_argument(engine, 0x30) {
            Ok(pointer) => pointer,
            Err(fault) => {
                return Err(fault);
            },
        }
    } else {
        engine.r8
    };
    let found = find_key(keys, engine.rcx, &path);
    let (handle, status): (u64, u64) = match found {
        Some(i) => (keys[i].handle, ERROR_SUCCESS),
        None => (0, ERROR_FILE_NOT_FOUND),
    };
    match engine.write_u64(pointer, handle) {
        Ok(_) => Ok(status),
        Err(fault) => Err(fault),
    }
}

/// What creating a key needs of the guest: the path, and where handle and
/// disposition go (the latter may be null). `None` where an argument or a result is
/// not mapped.
pub open spec fn create_arguments(engine: GuestCpu, wide: bool) -> Option<(Seq<char>, u64, u64)> {
    match (text::pointed_name(engine.memory(), engine.rdx, wide), stack_argument(engine, 0x40), stack_argument(engine, 0x48)) {
        (Some(path), Some(result), Some(disposition)) => if cpu::mapped(engine.memory(), result as int, 8) && (disposition
            == 0 || cpu::mapped(engine.memory(), disposition as int, 4)) {
            Some((path, result, disposition))
        } else {
            None
        },
        _ => None,
    }
}

/// The fault of creating a key: at the path, at a stack argument, or at a result.
pub open spec fn create_fault(engine: GuestCpu, wide: bool) -> MemoryFault {
    if text::pointed_name(engine.memory(), engine.rdx, wide) is None {
        MemoryFault { address: engine.rdx }
    } else {
        match (stack_argument(engine, 0x40), stack_argument(engine, 0x48)) {
            (None, _) => stack_fault(engine, 0x40),
            (_, None) => stack_fault(engine, 0x48),
            (Some(result), Some(disposition)) => MemoryFault {
                address: if !cpu::mapped(engine.memory(), result as int, 8) {
                    result
                } else {
                    disposition
                },
            },
        }
    }
}

/// Guest memory after a key was created or opened.
pub open spec fn create_memory(memory: Map<int, u8>, result: u64, disposition: u64, handle: u64, how: u32) -> Map<int, u8> {
    let written = cpu::store(memory, result as int, cpu::le_bytes(handle as nat, 8));
    if disposition == 0 {
        written
    } else {
        cpu::store(written, disposition as int, cpu::le_bytes(how as nat, 4))
    }
}

/// What creating a key leaves in guest memory and answers.
pub open spec fn create_done(
    before: Map<int, u8>,
    after: Map<int, u8>,
    pointer: u64,
    disposition: u64,
    created: Option<CreatedKey>,
    result: Result<u64, MemoryFault>,
) -> bool {
    match created {
        Some(key) => {
            &&& result == Ok::<u64, MemoryFault>(ERROR_SUCCESS)
            &&& after == create_memory(before, pointer, disposition, key.handle, key.disposition)
        },
        None => result == Ok::<u64, MemoryFault>(ERROR_OUTOFMEMORY) && after == before,
    }
}

/// Open or create a key as the guest's registers and stack ask. `RegCreateKeyEx`
/// passes the result pointers on the stack.
pub fn create_key_ex(engine: &mut GuestCpu, process: &mut ProcessState, wide: bool) -> (result: Result<u64, MemoryFault>)
    ensures
        final(engine).same_registers(old(engine)),
        match create_arguments(*old(engine), wide) {
            None => {
                &&& result == Err::<u64, _>(create_fault(*old(engine), wide))
                &&& *final(engine) == *old(engine)
                &&& *final(process) == *old(process)
            },
            Some((path, pointer, disposition)) => {
                &&& key_created(*old(process), *final(process), old(engine).rcx, path)
                &&& create_done(
                    old(engine).memory(),
                    final(engine).memory(),
                    pointer,
                    disposition,
                    created_key(*old(process), old(engine).rcx, path),
                    result,
                )
            },
        },
{
    let path = match text::read_name(engine, engine.rdx, wide) {
        Ok(path) => path,
        Err(fault) => {
            return Err(fault);
        },
    };
    let pointer: u64 = match read_stack_argument(engine, 0x40) {
        Ok(pointer) => pointer,
        Err(fault) => {
            return Err(fault);
        },
    };
    let disposition: u64 = match read_stack_argument(engine, 0x48) {
        Ok(disposition) => disposition,
        Err(fault) => {
            return Err(fault);
        },
    };
    if !engine.is_mapped(pointer, 8) {
        return Err(MemoryFault { address: pointer });
    }
    if disposition != 0 && !engine.is_mapped(disposition, 4) {
        return Err(MemoryFault { address: disposition });
    }
    let created = create_key(process, engine.rcx, &path);
    match created {
        Some(key) => {
            let _ = engine.write_u64(pointer, key.handle);
            if disposition != 0 {
                assert(cpu::mapped(engine.memory(), disposition as int, 4));
                let _ = engine.write_u32(disposition, key.disposition);
            }
            Ok(ERROR_SUCCESS)
        },
        None => Ok(ERROR_OUTOFMEMORY),
    }
}

/// `RegOpenKeyA`, `RegOpenKeyW`, `RegOpenKeyExA` and `RegOpenKeyExW`.
pub fn handle_reg_open_key<'a, F>(context: &mut HandlerContext<'a, F>, wide: bool, extended: bool) -> (result: Result<
    WinApiHandlerResult,
    MemoryFault,
>)
    requires
        old(context).state.can_settle(),
    ensures
        final(context).environment == old(context).environment,
        final(context).heap == old(context).heap,
        *final(final(context).engine) == *final(old(context).engine),
        *final(final(context).state) == *final(old(context).state),
        match open_outcome(*old(context).engine, old(context).state.process.registry_keys@, wide, extended) {
            None => {
                &&& result == Err::<WinApiHandlerResult, _>(open_fault(*old(context).engine, wide, extended))
                &&& *final(context).engine == *old(context).engine
                &&& *final(context).state == *old(context).state
            },
            Some((memory, status)) => {
                &&& state::answered(*old(context).engine, memory, *final(context).engine, status, result)
                &&& old(context).state.settled(*final(context).state)
            },
        },
{
    match open_key(context.engine, &context.state.process.registry_keys, wide, extended) {
        Ok(status) => {
            let ghost between = *context.engine;
            let result = context.finish(status);
            assert(between.same_registers(old(context).engine));
            result
        },
        Err(fault) => Err(fault),
    }
}

/// `RegCreateKeyExA` and `RegCreateKeyExW`.
pub fn handle_reg_create_key_ex<'a, F>(context: &mut HandlerContext<'a, F>, wide: bool) -> (result: Result<
    WinApiHandlerResult,
    MemoryFault,
>)
    requires
        old(context).state.can_settle(),
    ensures
        final(context).environment == old(context).environment,
        final(context).heap == old(context).heap,
        *final(final(context).engine) == *final(old(context).engine),
        *final(final(context).state) == *final(old(context).state),
        match create_arguments(*old(context).engine, wide) {
            None => {
                &&& result == Err::<WinApiHandlerResult, _>(create_fault(*old(context).engine, wide))
                &&& *final(context).engine == *old(context).engine
                &&& *final(context).state == *old(context).state
            },
            Some((path, pointer, disposition)) => {
                let process = final(context).state.process;
                &&& key_created(old(context).state.process, process, old(context).engine.rcx, path)
                &&& (state::WinApiState { process, ..*old(context).state }).settled(*final(context).state)
                &&& match created_key(old(context).state.process, old(context).engine.rcx, path) {
                    Some(key) => state::answered(
                        *old(context).engine,
                        create_memory(
                            old(context).engine.memory(),
                            pointer,
                            disposition,
                            key.handle,
                            key.disposition,
                        ),
                        *final(context).engine,
                        ERROR_SUCCESS,
                        result,
                    ),
                    None => state::answered(
                        *old(context).engine,
                        old(context).engine.memory(),
                        *final(context).engine,
                        ERROR_OUTOFMEMORY,
                        result,
                    ),
                }
            },
        },
{
    match create_key_ex(context.engine, &mut context.state.process, wide) {
        Ok(status) => {
            let ghost between = *context.engine;
            let ghost process = context.state.process;
            assert(*context.state == (state::WinApiState { process, ..*old(context).state }));
            let result = context.finish(status);
            assert(between.same_registers(old(context).engine));
            result
        },
        Err(fault) => {
            assert(*context.state == *old(context).state);
            Err(fault)
        },
    }
}

} // verus!
