//! The lock that owns a shared bus handle.
use vstd::prelude::*;

verus! {

/// Exclusive access to one shared bus handle.
///
/// An implementation decides how exclusion is reached (a critical section, an operating system
/// mutex, a cell used from one context only).  It must run the operation it is handed exactly
/// once, with no other operation on the same handle in flight, and hand back what the operation
/// returned, untouched.
pub trait BusMutex {
    /// The bus handle that the lock owns.
    type Bus;

    /// Runs `f` on the bus handle and on `arg`, while holding the lock, and returns its result.
    ///
    /// `arg` is handed to `f` as it is; it carries what the operation borrows mutably from the
    /// caller (a receive buffer, an ADC channel), so that `f` itself need not capture it.
    fn lock<A, R, F: FnOnce(&mut Self::Bus, A) -> R>(&self, arg: A, f: F) -> (r: R)
        requires
            forall|bus: &mut Self::Bus| f.requires((bus, arg)),
        ensures
            exists|bus: &mut Self::Bus| f.ensures((bus, arg), r),
    ;
}

/// A lock that is only ever used from a single execution context (no preemption between users).
///
/// Only such a lock can hand out an SPI proxy: an SPI driver asserts its chip-select line before
/// it takes the lock, which is only safe when no other user can run in between.
pub trait SingleContextMutex: BusMutex {
}

} // verus!
