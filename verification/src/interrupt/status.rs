//! A 32-bit atomic interrupt status register.

use core::sync::atomic::{AtomicU32, Ordering};
use vstd::prelude::*;

verus! {

/// A 32-bit word shared across threads, recording pending or asserted
/// interrupt causes as a bitfield.
///
/// The register is a cross-thread signaling primitive with no surrounding
/// synchronization, so every operation uses sequential consistency: each
/// read and write is globally ordered relative to every other.  Atomicity
/// and ordering come from core's `AtomicU32`, whose operations vstd
/// specifies without tracking the stored value, so no value-level claims
/// are made in these contracts; the bit-level behaviour of each operation
/// is exercised by the test suite.
pub struct InterruptStatusRegister32 {
    status: AtomicU32,
}

impl InterruptStatusRegister32 {
    /// Create a status register with all cause bits clear.
    pub fn new() -> Self {
        InterruptStatusRegister32 { status: AtomicU32::new(0) }
    }

    /// Atomically load the current value.
    pub fn read(&self) -> u32 {
        self.status.load(Ordering::SeqCst)
    }

    /// Atomically replace the whole word with `value`.
    pub fn write(&self, value: u32) {
        self.status.store(value, Ordering::SeqCst);
    }

    /// Atomically exchange the word with zero and return the pre-clear
    /// value, draining all cause bits in one indivisible step.
    pub fn read_and_clear(&self) -> u32 {
        self.status.swap(0, Ordering::SeqCst)
    }

    /// Atomically OR the bits of `value` into the word.
    pub fn set_bits(&self, value: u32) {
        self.status.fetch_or(value, Ordering::SeqCst);
    }

    /// Atomically clear the bits of `value`, ANDing the word with the
    /// complement of `value`.
    pub fn clear_bits(&self, value: u32) {
        self.status.fetch_and(!value, Ordering::SeqCst);
    }
}

} // verus!
