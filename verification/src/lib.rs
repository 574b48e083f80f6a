//! A reader–writer lock core with configurable fairness.
//!
//! The lock admits many concurrent readers or exactly one writer. Two knobs,
//! fixed at construction, decide how contention is resolved: a [`Preference`]
//! says which class of waiter is favoured, and an [`Order`] says in which
//! order blocked writers are admitted.
//!
//! The crate verifies the coordination logic itself: the shared counters, the
//! admission conditions, the queue of per-writer wake handles, and the wake
//! decision taken when a guard is released. A driver that actually blocks
//! threads runs this state machine under a mutex: it calls the `begin_*`
//! functions when a thread arrives, re-checks the `may_admit_*` condition on
//! every wakeup, calls the `admit_*` functions when the condition holds, and
//! performs the [`sched::WakeAction`] that each release returns.

pub mod lock;
pub mod policy;
pub mod protocol;
pub mod sched;
