//! A lock-free amplitude cell shared between the capture callback and readers.
use std::sync::atomic::{AtomicU32, Ordering};
use std::sync::Arc;
use vstd::prelude::*;

verus! {

/// Fixed-point full scale: a stored value of `FULL_SCALE` means amplitude 1.0.
pub const FULL_SCALE: u32 = 1000;

/// Single-writer / many-reader amplitude level in `0..=FULL_SCALE`.
///
/// Readers never block: every access is one atomic load or store.
#[derive(Clone)]
pub struct AmplitudeMeter {
    cell: Arc<AtomicU32>,
}

impl AmplitudeMeter {
    /// A meter reading zero.
    pub fn new() -> (r: AmplitudeMeter) {
        AmplitudeMeter { cell: Arc::new(AtomicU32::new(0)) }
    }

    /// Publishes a level; only in-range levels can be stored.
    pub fn publish(&self, level: u32)
        requires
            level <= FULL_SCALE,
    {
        self.cell.store(level, Ordering::Relaxed);
    }

    /// Resets the meter to zero (used when capture stops).
    pub fn reset(&self) {
        self.cell.store(0, Ordering::Relaxed);
    }

    /// Reads the current level. Whatever another thread stored, the value
    /// handed out lies in `0..=FULL_SCALE`.
    pub fn read(&self) -> (r: u32)
        ensures
            r <= FULL_SCALE,
    {
        let raw = self.cell.load(Ordering::Relaxed);
        if raw > FULL_SCALE {
            FULL_SCALE
        } else {
            raw
        }
    }
}

} // verus!
