//! Typed fake-handle values.
//!
//! Zero-cost wrappers over the guest-visible `u64` handle values. They exist so
//! that the host-side allocator counters and lookups cannot mix handle
//! namespaces: passing a `ModuleHandle` where a `FileHandle` belongs is a type
//! error. The guest never sees these types; conversions happen exactly where a
//! raw `u64` meets the typed store.
use vstd::prelude::*;
use vstd::std_specs::convert::FromSpecImpl;

verus! {

/// A fake find-file handle (`FindFirstFile` / `FindNextFile`).
#[derive(Debug, Clone, Copy, PartialEq, Eq, Hash, Structural)]
pub struct FindFileHandle(pub u64);

impl FindFileHandle {
    /// The `NULL` handle (`0`).
    pub fn null() -> (handle: Self)
        ensures
            handle == FindFileHandle(0),
    {
        FindFileHandle(0)
    }

    /// Escape point: the raw handle value (return values, ...).
    pub fn as_u64(self) -> (value: u64)
        ensures
            value == self.0,
    {
        self.0
    }
}

impl Default for FindFileHandle {
    fn default() -> (handle: Self)
        ensures
            handle == FindFileHandle(0),
    {
        FindFileHandle(0)
    }
}

impl From<u64> for FindFileHandle {
    fn from(value: u64) -> (handle: Self) {
        FindFileHandle(value)
    }
}

impl FromSpecImpl<u64> for FindFileHandle {
    open spec fn obeys_from_spec() -> bool {
        true
    }

    open spec fn from_spec(value: u64) -> Self {
        FindFileHandle(value)
    }
}

impl From<FindFileHandle> for u64 {
    fn from(value: FindFileHandle) -> (raw: Self) {
        value.0
    }
}

impl FromSpecImpl<FindFileHandle> for u64 {
    open spec fn obeys_from_spec() -> bool {
        true
    }

    open spec fn from_spec(value: FindFileHandle) -> Self {
        value.0
    }
}

/// A fake open-file handle (`CreateFile` / `OpenFile`).
#[derive(Debug, Clone, Copy, PartialEq, Eq, Hash, Structural)]
pub struct FileHandle(pub u64);

impl FileHandle {
    /// The `NULL` handle (`0`).
    pub fn null() -> (handle: Self)
        ensures
            handle == FileHandle(0),
    {
        FileHandle(0)
    }

    /// Escape point: the raw handle value (return values, ...).
    pub fn as_u64(self) -> (value: u64)
        ensures
            value == self.0,
    {
        self.0
    }
}

impl Default for FileHandle {
    fn default() -> (handle: Self)
        ensures
            handle == FileHandle(0),
    {
        FileHandle(0)
    }
}

impl From<u64> for FileHandle {
    fn from(value: u64) -> (handle: Self) {
        FileHandle(value)
    }
}

impl FromSpecImpl<u64> for FileHandle {
    open spec fn obeys_from_spec() -> bool {
        true
    }

    open spec fn from_spec(value: u64) -> Self {
        FileHandle(value)
    }
}

impl From<FileHandle> for u64 {
    fn from(value: FileHandle) -> (raw: Self) {
        value.0
    }
}

impl FromSpecImpl<FileHandle> for u64 {
    open spec fn obeys_from_spec() -> bool {
        true
    }

    open spec fn from_spec(value: FileHandle) -> Self {
        value.0
    }
}

/// A fake resource handle (`FindResource` / `LoadResource`).
#[derive(Debug, Clone, Copy, PartialEq, Eq, Hash, Structural)]
pub struct ResourceHandle(pub u64);

impl ResourceHandle {
    /// The `NULL` handle (`0`).
    pub fn null() -> (handle: Self)
        ensures
            handle == ResourceHandle(0),
    {
        ResourceHandle(0)
    }

    /// Escape point: the raw handle value (return values, ...).
    pub fn as_u64(self) -> (value: u64)
        ensures
            value == self.0,
    {
        self.0
    }
}

impl Default for ResourceHandle {
    fn default() -> (handle: Self)
        ensures
            handle == ResourceHandle(0),
    {
        ResourceHandle(0)
    }
}

impl From<u64> for ResourceHandle {
    fn from(value: u64) -> (handle: Self) {
        ResourceHandle(value)
    }
}

impl FromSpecImpl<u64> for ResourceHandle {
    open spec fn obeys_from_spec() -> bool {
        true
    }

    open spec fn from_spec(value: u64) -> Self {
        ResourceHandle(value)
    }
}

impl From<ResourceHandle> for u64 {
    fn from(value: ResourceHandle) -> (raw: Self) {
        value.0
    }
}

impl FromSpecImpl<ResourceHandle> for u64 {
    open spec fn obeys_from_spec() -> bool {
        true
    }

    open spec fn from_spec(value: ResourceHandle) -> Self {
        value.0
    }
}

/// A fake module handle (`LoadLibrary` / `GetModuleHandle`).
#[derive(Debug, Clone, Copy, PartialEq, Eq, Hash, Structural)]
pub struct ModuleHandle(pub u64);

impl ModuleHandle {
    /// The `NULL` handle (`0`).
    pub fn null() -> (handle: Self)
        ensures
            handle == ModuleHandle(0),
    {
        ModuleHandle(0)
    }

    /// Escape point: the raw handle value (return values, ...).
    pub fn as_u64(self) -> (value: u64)
        ensures
            value == self.0,
    {
        self.0
    }
}

impl Default for ModuleHandle {
    fn default() -> (handle: Self)
        ensures
            handle == ModuleHandle(0),
    {
        ModuleHandle(0)
    }
}

impl From<u64> for ModuleHandle {
    fn from(value: u64) -> (handle: Self) {
        ModuleHandle(value)
    }
}

impl FromSpecImpl<u64> for ModuleHandle {
    open spec fn obeys_from_spec() -> bool {
        true
    }

    open spec fn from_spec(value: u64) -> Self {
        ModuleHandle(value)
    }
}

impl From<ModuleHandle> for u64 {
    fn from(value: ModuleHandle) -> (raw: Self) {
        value.0
    }
}

impl FromSpecImpl<ModuleHandle> for u64 {
    open spec fn obeys_from_spec() -> bool {
        true
    }

    open spec fn from_spec(value: ModuleHandle) -> Self {
        value.0
    }
}

/// A fake registry-key handle (`RegOpenKey` / `RegCreateKey`).
#[derive(Debug, Clone, Copy, PartialEq, Eq, Hash, Structural)]
pub struct RegistryKeyHandle(pub u64);

impl RegistryKeyHandle {
    /// The `NULL` handle (`0`).
    pub fn null() -> (handle: Self)
        ensures
            handle == RegistryKeyHandle(0),
    {
        RegistryKeyHandle(0)
    }

    /// Escape point: the raw handle value (return values, ...).
    pub fn as_u64(self) -> (value: u64)
        ensures
            value == self.0,
    {
        self.0
    }
}

impl Default for RegistryKeyHandle {
    fn default() -> (handle: Self)
        ensures
            handle == RegistryKeyHandle(0),
    {
        RegistryKeyHandle(0)
    }
}

impl From<u64> for RegistryKeyHandle {
    fn from(value: u64) -> (handle: Self) {
        RegistryKeyHandle(value)
    }
}

impl FromSpecImpl<u64> for RegistryKeyHandle {
    open spec fn obeys_from_spec() -> bool {
        true
    }

    open spec fn from_spec(value: u64) -> Self {
        RegistryKeyHandle(value)
    }
}

impl From<RegistryKeyHandle> for u64 {
    fn from(value: RegistryKeyHandle) -> (raw: Self) {
        value.0
    }
}

impl FromSpecImpl<RegistryKeyHandle> for u64 {
    open spec fn obeys_from_spec() -> bool {
        true
    }

    open spec fn from_spec(value: RegistryKeyHandle) -> Self {
        value.0
    }
}

/// A fake window handle (`CreateWindowEx`).
#[derive(Debug, Clone, Copy, PartialEq, Eq, Hash, Structural)]
pub struct Hwnd(pub u64);

impl Hwnd {
    /// The `NULL` handle (`0`).
    pub fn null() -> (handle: Self)
        ensures
            handle == Hwnd(0),
    {
        Hwnd(0)
    }

    /// Escape point: the raw handle value (return values, ...).
    pub fn as_u64(self) -> (value: u64)
        ensures
            value == self.0,
    {
        self.0
    }
}

impl Default for Hwnd {
    fn default() -> (handle: Self)
        ensures
            handle == Hwnd(0),
    {
        Hwnd(0)
    }
}

impl From<u64> for Hwnd {
    fn from(value: u64) -> (handle: Self) {
        Hwnd(value)
    }
}

impl FromSpecImpl<u64> for Hwnd {
    open spec fn obeys_from_spec() -> bool {
        true
    }

    open spec fn from_spec(value: u64) -> Self {
        Hwnd(value)
    }
}

impl From<Hwnd> for u64 {
    fn from(value: Hwnd) -> (raw: Self) {
        value.0
    }
}

impl FromSpecImpl<Hwnd> for u64 {
    open spec fn obeys_from_spec() -> bool {
        true
    }

    open spec fn from_spec(value: Hwnd) -> Self {
        value.0
    }
}

/// A fake menu handle (`CreateMenu` / `LoadMenu`).
#[derive(Debug, Clone, Copy, PartialEq, Eq, Hash, Structural)]
pub struct Hmenu(pub u64);

impl Hmenu {
    /// The `NULL` handle (`0`).
    pub fn null() -> (handle: Self)
        ensures
            handle == Hmenu(0),
    {
        Hmenu(0)
    }

    /// Escape point: the raw handle value (return values, ...).
    pub fn as_u64(self) -> (value: u64)
        ensures
            value == self.0,
    {
        self.0
    }
}

impl Default for Hmenu {
    fn default() -> (handle: Self)
        ensures
            handle == Hmenu(0),
    {
        Hmenu(0)
    }
}

impl From<u64> for Hmenu {
    fn from(value: u64) -> (handle: Self) {
        Hmenu(value)
    }
}

impl FromSpecImpl<u64> for Hmenu {
    open spec fn obeys_from_spec() -> bool {
        true
    }

    open spec fn from_spec(value: u64) -> Self {
        Hmenu(value)
    }
}

impl From<Hmenu> for u64 {
    fn from(value: Hmenu) -> (raw: Self) {
        value.0
    }
}

impl FromSpecImpl<Hmenu> for u64 {
    open spec fn obeys_from_spec() -> bool {
        true
    }

    open spec fn from_spec(value: Hmenu) -> Self {
        value.0
    }
}

/// A fake windows-hook handle (`SetWindowsHookEx`).
#[derive(Debug, Clone, Copy, PartialEq, Eq, Hash, Structural)]
pub struct Hhook(pub u64);

impl Hhook {
    /// The `NULL` handle (`0`).
    pub fn null() -> (handle: Self)
        ensures
            handle == Hhook(0),
    {
        Hhook(0)
    }

    /// Escape point: the raw handle value (return values, ...).
    pub fn as_u64(self) -> (value: u64)
        ensures
            value == self.0,
    {
        self.0
    }
}

impl Default for Hhook {
    fn default() -> (handle: Self)
        ensures
            handle == Hhook(0),
    {
        Hhook(0)
    }
}

impl From<u64> for Hhook {
    fn from(value: u64) -> (handle: Self) {
        Hhook(value)
    }
}

impl FromSpecImpl<u64> for Hhook {
    open spec fn obeys_from_spec() -> bool {
        true
    }

    open spec fn from_spec(value: u64) -> Self {
        Hhook(value)
    }
}

impl From<Hhook> for u64 {
    fn from(value: Hhook) -> (raw: Self) {
        value.0
    }
}

impl FromSpecImpl<Hhook> for u64 {
    open spec fn obeys_from_spec() -> bool {
        true
    }

    open spec fn from_spec(value: Hhook) -> Self {
        value.0
    }
}

/// A fake accelerator-table handle (`LoadAccelerators`).
#[derive(Debug, Clone, Copy, PartialEq, Eq, Hash, Structural)]
pub struct Haccel(pub u64);

impl Haccel {
    /// The `NULL` handle (`0`).
    pub fn null() -> (handle: Self)
        ensures
            handle == Haccel(0),
    {
        Haccel(0)
    }

    /// Escape point: the raw handle value (return values, ...).
    pub fn as_u64(self) -> (value: u64)
        ensures
            value == self.0,
    {
        self.0
    }
}

impl Default for Haccel {
    fn default() -> (handle: Self)
        ensures
            handle == Haccel(0),
    {
        Haccel(0)
    }
}

impl From<u64> for Haccel {
    fn from(value: u64) -> (handle: Self) {
        Haccel(value)
    }
}

impl FromSpecImpl<u64> for Haccel {
    open spec fn obeys_from_spec() -> bool {
        true
    }

    open spec fn from_spec(value: u64) -> Self {
        Haccel(value)
    }
}

impl From<Haccel> for u64 {
    fn from(value: Haccel) -> (raw: Self) {
        value.0
    }
}

impl FromSpecImpl<Haccel> for u64 {
    open spec fn obeys_from_spec() -> bool {
        true
    }

    open spec fn from_spec(value: Haccel) -> Self {
        value.0
    }
}

/// A font handle (`CreateFontIndirect`).
#[derive(Debug, Clone, Copy, PartialEq, Eq, Hash, Structural)]
pub struct Hfont(pub u64);

impl Hfont {
    /// The `NULL` handle (`0`).
    pub fn null() -> (handle: Self)
        ensures
            handle == Hfont(0),
    {
        Hfont(0)
    }

    /// Escape point: the raw handle value (return values, ...).
    pub fn as_u64(self) -> (value: u64)
        ensures
            value == self.0,
    {
        self.0
    }
}

impl Default for Hfont {
    fn default() -> (handle: Self)
        ensures
            handle == Hfont(0),
    {
        Hfont(0)
    }
}

impl From<u64> for Hfont {
    fn from(value: u64) -> (handle: Self) {
        Hfont(value)
    }
}

impl FromSpecImpl<u64> for Hfont {
    open spec fn obeys_from_spec() -> bool {
        true
    }

    open spec fn from_spec(value: u64) -> Self {
        Hfont(value)
    }
}

impl From<Hfont> for u64 {
    fn from(value: Hfont) -> (raw: Self) {
        value.0
    }
}

impl FromSpecImpl<Hfont> for u64 {
    open spec fn obeys_from_spec() -> bool {
        true
    }

    open spec fn from_spec(value: Hfont) -> Self {
        value.0
    }
}

} // verus!
