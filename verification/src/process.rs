//! Process, heap, file-I/O, module and environment state types.
use std::sync::Arc;

use vstd::prelude::*;

use crate::handles::{FileHandle, FindFileHandle, ModuleHandle, RegistryKeyHandle, ResourceHandle};
use crate::resources::{AccelTemplate, DialogTemplate, MenuTemplate, StringBlock};

verus! {

/// The hash-builder of the process-state maps (`ahash::RandomState`), opaque:
/// nothing is claimed of the hashes it builds.
#[verifier::external_type_specification]
#[verifier::external_body]
pub struct ExAHashState(ahash::RandomState);

/// Runtime environment values visible to WinAPI handlers.
#[derive(Debug, Clone, Copy)]
pub struct WinApiEnvironment {
    /// Main module image base.
    pub image_base: u64,
    /// Pointer to ANSI command line string in emulated memory.
    pub command_line_a_ptr: u64,
    /// Pointer to UTF-16 command line string in emulated memory.
    pub command_line_w_ptr: u64,
    /// Pointer to UTF-16 environment strings block in emulated memory.
    pub environment_strings_w_ptr: u64,
    /// Pointer to ANSI module file name string in emulated memory.
    pub module_file_name_a_ptr: u64,
    /// Pointer to UTF-16 module file name string in emulated memory.
    pub module_file_name_w_ptr: u64,
    /// Fake process heap handle.
    pub process_heap_handle: u64,
}

/// The address range of the guest process heap.
#[derive(Debug, Clone, Copy)]
pub struct GuestHeap {
    /// First heap address.
    pub base: u64,
    /// First address past the heap.
    pub end: u64,
}

/// Heap and FLS (Fiber-Local Storage) state.
#[derive(Debug, Clone)]
pub struct HeapState {
    /// Process heap range, shared with the context of every call.
    pub heap: Arc<GuestHeap>,
    /// Next fake `FLS` index.
    pub next_fls_index: u32,
    /// Fake `FLS` slots.
    pub fls_slots: Vec<FlsSlot>,
    /// Guest VA of the FLS value table (u64 slots), 0 if not installed.
    pub guest_fls_table_va: u64,
}

/// One directory enumeration in progress.
#[derive(Debug, Clone)]
pub struct FindHandle {
    /// Fake find-file handle.
    pub handle: FindFileHandle,
    /// Names still to be reported.
    pub remaining: Vec<String>,
}

/// One resource handed to the guest.
#[derive(Debug, Clone)]
pub struct ResourceRecord {
    /// Fake resource handle.
    pub handle: ResourceHandle,
    /// Guest VA of the resource bytes.
    pub address: u64,
    /// Size in bytes.
    pub size: u32,
}

/// Host roots of the guest drives.
#[derive(Debug, Clone)]
pub struct VolumeConfig {
    /// Host root behind the guest `D:` drive, if bridged.
    pub drive_d: Option<String>,
}

/// File I/O, virtual file system and console stdin state.
#[derive(Debug, Clone)]
pub struct FileIoState {
    pub executable_file_size: u64,
    /// Raw main-module file bytes, shared: readers only slice them.
    pub executable_file_bytes: Arc<Vec<u8>>,
    pub executable_file_cursor: u64,
    pub next_find_handle: FindFileHandle,
    pub find_handles: Vec<FindHandle>,
    pub host_file_mounts: Vec<HostFileMount>,
    pub virtual_files: Vec<VirtualGuestFile>,
    pub open_files: ahash::HashMap<u64, OpenGuestFile>,
    pub next_file_handle: FileHandle,
    pub next_resource_handle: ResourceHandle,
    pub resources: Vec<ResourceRecord>,
    pub current_directory_wide: Vec<u16>,
    pub bottle_root: Option<String>,
    pub volumes: VolumeConfig,
    pub guest_file_data_next: u64,
    pub guest_io: Option<GuestIoRuntimeConfig>,
    pub stdin_bytes: Vec<u8>,
    pub stdin_cursor: usize,
    pub stdin_mode: GuestStdinMode,
    pub ucrt_files: ahash::HashMap<u64, u64>,
    pub ucrt_next_file_va: u64,
}

/// Another owner of what `shared` points to.
///
/// Trusted: `Arc::clone`. It makes a second pointer to the same value and leaves that
/// value alone. That the two are one object and no copy has no form in a contract.
#[verifier::external_body]
pub(crate) fn share<T>(shared: &Arc<T>) -> (again: Arc<T>)
    ensures
        again == *shared,
{
    Arc::clone(shared)
}

/// Resolver for dynamic DLL imports: a callback from library name, export name
/// and import slot to the address of the export. Clones share one callback, with all
/// that it keeps to itself.
pub struct ImportResolver<F> {
    inner: Arc<F>,
}

impl<F> Clone for ImportResolver<F> {
    fn clone(&self) -> (again: Self)
        ensures
            again.callback() == self.callback(),
    {
        ImportResolver { inner: share(&self.inner) }
    }
}

impl<F> ImportResolver<F> {
    /// The callback behind the resolver.
    pub closed spec fn callback(&self) -> F {
        *self.inner
    }

    /// Wrap a callback.
    pub fn new(f: F) -> (resolver: Self)
        ensures
            resolver.callback() == f,
    {
        ImportResolver { inner: Arc::new(f) }
    }

    /// Resolve `lib!name` for the import at `slot`: exactly what the callback
    /// answers for these arguments, be it an address or an error. Nothing is cached.
    /// How often the callback runs, and what it changes in itself, is not stated.
    pub fn resolve<E>(&mut self, lib: &str, name: &str, slot: u64) -> (address: Result<u64, E>) where
        F: Fn(&str, &str, u64) -> Result<u64, E>,

        requires
            old(self).callback().requires((lib, name, slot)),
        ensures
            old(self).callback().ensures((lib, name, slot), address),
            final(self).callback() == old(self).callback(),
    {
        (*self.inner)(lib, name, slot)
    }
}

/// A guest DLL in memory.
#[derive(Debug, Clone)]
pub struct LoadedModule {
    /// Fake module handle.
    pub handle: ModuleHandle,
    /// Image base in guest memory.
    pub image_base: u64,
}

/// DLL loading and export resolution cache.
#[derive(Clone)]
pub struct ModuleState<F> {
    pub loaded_modules: ahash::HashMap<String, LoadedModule>,
    pub import_resolver: Option<ImportResolver<F>>,
    pub get_proc_address_cache: ahash::HashMap<String, GetProcAddressCacheEntry>,
    pub next_module_handle: ModuleHandle,
}

/// Process-level state (error, registry, identity, resources).
#[derive(Debug)]
pub struct ProcessState {
    pub last_error: u32,
    pub next_registry_key_handle: RegistryKeyHandle,
    pub registry_keys: Vec<RegistryKey>,
    pub main_module_file_name: String,
    pub main_module_path: String,
    pub main_module_host_dir: Option<String>,
    pub error_mode: u32,
    pub suspended_threads: ahash::HashMap<u32, u32>,
    /// Win32 process environment, as `(name, value)` in insertion order.
    ///
    /// Kept beside the guest-memory block that `GetEnvironmentStringsW` returns
    /// rather than inside it: the block is a snapshot copy, so a later
    /// `SetEnvironmentVariable` is visible to `GetEnvironmentVariable` without
    /// rewriting memory the guest may still hold a pointer into.
    pub environment: Vec<(String, String)>,
    /// Parsed `RT_DIALOG` templates of the main module.
    pub main_module_dialogs: Vec<DialogTemplate>,
    /// Parsed `RT_MENU` templates of the main module.
    pub main_module_menus: Vec<MenuTemplate>,
    /// Parsed `RT_STRING` blocks of the main module.
    pub main_module_strings: Vec<StringBlock>,
    /// Parsed `RT_ACCELERATOR` tables of the main module.
    pub main_module_accelerators: Vec<AccelTemplate>,
}

/// Source policy for console `ReadFile(STD_INPUT_HANDLE)`.
#[derive(Debug, Clone, Copy, PartialEq, Eq, Structural)]
pub enum GuestStdinMode {
    /// Serve only the injected bytes; an exhausted buffer is end of file.
    InjectOnly,
    /// When the buffer is empty, block-fill one host line.
    LiveHost,
}

impl Default for GuestStdinMode {
    fn default() -> (mode: Self)
        ensures
            mode == GuestStdinMode::InjectOnly,
    {
        GuestStdinMode::InjectOnly
    }
}

/// Runtime-published guest I/O layout.
#[derive(Debug, Clone)]
pub struct GuestIoRuntimeConfig {
    /// Guest VA of the open-file handle table.
    pub table_va: u64,
    /// Guest VA of the file-content mirror arena base.
    pub file_data_base: u64,
    /// Size in bytes of the file-content mirror arena.
    pub file_data_size: usize,
}

/// Host-side decision for `GetOpenFileName` / `GetSaveFileName`.
#[derive(Debug, Clone, PartialEq, Eq)]
pub enum FileDialogPolicy {
    /// Simulate the user cancelling the dialog (`return FALSE`).
    Cancel,
    /// Simulate the user accepting `path` (`return TRUE` and fill `lpstrFile`).
    Accept {
        /// Absolute or relative Windows-style path written into the dialog buffer.
        path: String,
    },
}

impl Default for FileDialogPolicy {
    fn default() -> (policy: Self)
        ensures
            policy is Cancel,
    {
        FileDialogPolicy::Cancel
    }
}

/// One host file exposed to the guest under one or more Windows paths.
#[derive(Debug, Clone)]
pub struct HostFileMount {
    /// Preferred guest path (Windows-style).
    pub guest_path: String,
    /// Absolute path on the host filesystem.
    pub host_path: String,
}

/// One open guest file handle returned by `CreateFile*`.
#[derive(Debug, Clone)]
pub struct OpenGuestFile {
    /// Fake handle value.
    pub handle: u64,
    /// Guest path used to open the file, shared between the per-call copies.
    pub path: Arc<str>,
    /// File contents (working buffer). Empty when `streaming` is true.
    pub bytes: Vec<u8>,
    /// Current read/write cursor.
    pub cursor: u64,
    /// When set, the file is host-backed and may be flushed/streamed here.
    pub host_path: Option<Arc<str>>,
    /// Large host file: I/O via `host_path` without a full buffer.
    pub streaming: bool,
    /// Guest VA of mirrored file bytes for in-guest ReadFile (if registered).
    pub guest_data_va: Option<u64>,
    /// Index into the guest I/O handle table (if registered).
    pub guest_slot_index: Option<u32>,
}

impl OpenGuestFile {
    /// Logical file size in bytes. `host_len` is the length that the host file
    /// system reports for `host_path` (`None` where it cannot be read); it
    /// matters for streamed files only.
    pub fn size(&self, host_len: Option<u64>) -> (size: u64)
        ensures
            size == if !self.streaming {
                self.bytes@.len() as int
            } else if self.host_path is Some && host_len is Some {
                host_len->0 as int
            } else {
                0
            },
    {
        if self.streaming {
            if self.host_path.is_some() {
                host_len.unwrap_or(0)
            } else {
                0
            }
        } else {
            self.bytes.len() as u64
        }
    }
}

/// A pure-guest virtual file (not backed by a host path).
#[derive(Debug, Clone)]
pub struct VirtualGuestFile {
    /// Guest Windows path.
    pub guest_path: String,
    /// Mutable contents.
    pub bytes: Vec<u8>,
}

/// One cached `GetProcAddress` resolution.
#[derive(Debug, Clone)]
pub struct GetProcAddressCacheEntry {
    /// Normalized (lowercase) export name.
    pub name: Arc<str>,
    /// Module handle that first requested this export.
    pub module_handle: u64,
    /// Resolved fake target VA (may be zero for probed-but-absent exports).
    pub address: u64,
    /// How many times this export was resolved.
    pub hit_count: u64,
}

/// Fake registry key.
#[derive(Debug, Clone)]
pub struct RegistryKey {
    /// Fake registry key handle.
    pub handle: u64,
    /// Parent key handle.
    pub parent: u64,
    /// Subkey path.
    pub subkey: String,
}

/// Fake heap allocation record.
#[derive(Debug, Clone)]
pub struct HeapAllocation {
    /// Allocation base address.
    pub address: u64,
    /// Allocation size in bytes.
    pub size: u64,
}

/// Fake `FLS` slot.
#[derive(Debug, Clone)]
pub struct FlsSlot {
    /// Slot index.
    pub index: u32,
    /// Slot value.
    pub value: u64,
}

/// Name and value of each variable that a guest process starts with.
pub open spec fn default_variables() -> Seq<(Seq<char>, Seq<char>)> {
    seq![
        ("PATH"@, "C:\\Windows\\System32"@),
        ("TEMP"@, "C:\\Users\\WIE\\AppData\\Local\\Temp"@),
        ("TMP"@, "C:\\Users\\WIE\\AppData\\Local\\Temp"@),
        ("SystemRoot"@, "C:\\Windows"@),
        ("windir"@, "C:\\Windows"@),
        ("COMPUTERNAME"@, "WIE"@),
        ("USERNAME"@, "WIE"@),
        ("OS"@, "Windows_NT"@),
        ("PROCESSOR_ARCHITECTURE"@, "AMD64"@),
        ("NUMBER_OF_PROCESSORS"@, "4"@),
    ]
}

/// The environment every guest process starts with, in insertion order.
pub fn default_environment() -> (variables: Vec<(String, String)>)
    ensures
        variables@.map_values(|pair: (String, String)| (pair.0@, pair.1@)) == default_variables(),
{
    let mut variables: Vec<(String, String)> = Vec::new();
    variables.push(("PATH".to_owned(), "C:\\Windows\\System32".to_owned()));
    variables.push(("TEMP".to_owned(), "C:\\Users\\WIE\\AppData\\Local\\Temp".to_owned()));
    variables.push(("TMP".to_owned(), "C:\\Users\\WIE\\AppData\\Local\\Temp".to_owned()));
    variables.push(("SystemRoot".to_owned(), "C:\\Windows".to_owned()));
    variables.push(("windir".to_owned(), "C:\\Windows".to_owned()));
    variables.push(("COMPUTERNAME".to_owned(), "WIE".to_owned()));
    variables.push(("USERNAME".to_owned(), "WIE".to_owned()));
    variables.push(("OS".to_owned(), "Windows_NT".to_owned()));
    variables.push(("PROCESSOR_ARCHITECTURE".to_owned(), "AMD64".to_owned()));
    variables.push(("NUMBER_OF_PROCESSORS".to_owned(), "4".to_owned()));
    assert(variables@.map_values(|pair: (String, String)| (pair.0@, pair.1@))
        =~= default_variables());
    variables
}

} // verus!
