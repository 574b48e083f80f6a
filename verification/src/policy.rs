//! The two configuration knobs of the lock, fixed at construction.

use vstd::prelude::*;

verus! {

/// Which class of waiter is favoured when readers and writers contend.
#[derive(Clone, Copy, Debug, PartialEq, Eq, Structural)]
pub enum Preference {
    /// Readers-preferred:
    /// * a reader waits only while a writer is active;
    /// * a writer waits while a reader is active or waiting, or a writer is
    ///   active.
    Reader,
    /// Writers-preferred:
    /// * a reader waits while a writer is active or waiting;
    /// * a writer waits while a reader or a writer is active.
    Writer,
}

/// In which order blocked writers are admitted when a slot opens.
#[derive(Clone, Copy, Debug, PartialEq, Eq, Structural)]
pub enum Order {
    /// First in, first out: the writer that began waiting earliest goes next.
    Fifo,
    /// Last in, first out: the most recently arrived writer goes next.
    Lifo,
}

} // verus!
