//! Threads, synchronisation and pending exceptions.
use vstd::prelude::*;

use crate::present::WakeHub;

verus! {

/// The thread that runs now.
#[derive(Debug, Clone, Copy, PartialEq, Eq, Structural)]
pub struct ActiveThread {
    /// Guest thread id.
    pub tid: u32,
    /// The thread's last-error value.
    pub last_error: u32,
}

/// Guest threads.
#[derive(Debug, Clone)]
pub struct ThreadState {
    pub active: ActiveThread,
}

/// Synchronisation objects.
#[derive(Debug, Clone)]
pub struct SyncState {
    /// The hub that wakes parked guest threads.
    pub wake_hub: WakeHub,
}

/// An exception that is being dispatched on one thread.
#[derive(Debug, Clone, Copy, PartialEq, Eq, Structural)]
pub struct SehPending {
    /// Exception code.
    pub code: u32,
    /// Faulting or throwing address.
    pub address: u64,
}

/// Kernel execution state (threading, synchronisation, SEH).
#[derive(Debug, Clone)]
pub struct KernelState {
    pub threads: ThreadState,
    pub sync: SyncState,
    /// Pending exceptions keyed by guest thread id, so that threads that throw
    /// at the same time keep their own payloads.
    pub seh_pending: ahash::HashMap<u32, SehPending>,
}

} // verus!
