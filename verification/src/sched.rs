//! The lock core: counters, the writer wake queue, and the transitions of the
//! acquire/release protocol.
//!
//! [`LockCore`] is the state that the lock's internal mutex protects. Every
//! operation of the lock is a short transition on it: a thread that wants to
//! read or write first *begins* waiting, then is *admitted* once its admission
//! condition holds, and a release decrements the active counter and returns
//! the [`WakeAction`] that the caller must perform. The mathematical model of
//! the state is [`CoreModel`]; each transition's contract says exactly which
//! model the new state has.

use crate::policy::{Order, Preference};
use vstd::prelude::*;

verus! {

/// The mathematical model of the lock core's state.
pub ghost struct CoreModel {
    /// Which class of waiter is favoured; fixed at construction.
    pub pref: Preference,
    /// In which order blocked writers are admitted; fixed at construction.
    pub order: Order,
    /// How many readers currently hold the lock.
    pub active_readers: nat,
    /// How many writers currently hold the lock (zero or one).
    pub active_writers: nat,
    /// How many readers are blocked waiting to be admitted.
    pub waiting_readers: nat,
    /// How many writers are blocked waiting to be admitted.
    pub waiting_writers: nat,
    /// The wake handles of the blocked writers, oldest first; one fresh
    /// handle per blocked writer, never reused.
    pub queue: Seq<u64>,
    /// The next wake handle to hand out; larger than every handle in `queue`.
    pub next_handle: u64,
}

/// What the lock core is always allowed to assume and must always restore:
/// at most one active writer, never a writer and a reader at once, the wake
/// queue in step with the waiting-writer counter, and every queued handle
/// fresh and distinct.
pub open spec fn inv(m: CoreModel) -> bool {
    &&& m.active_writers <= 1
    &&& (m.active_writers > 0 ==> m.active_readers == 0)
    &&& m.queue.len() == m.waiting_writers
    &&& (forall|i: int| 0 <= i < m.queue.len() ==> #[trigger] m.queue[i] < m.next_handle)
    &&& (forall|i: int, j: int|
        0 <= i < j < m.queue.len() ==> m.queue[i] != m.queue[j])
}

/// The reader admission condition: a blocked reader may proceed only while
/// this holds. Under `Preference::Reader` a reader defers only to an active
/// writer; under `Preference::Writer` it also defers to waiting writers.
pub open spec fn reader_admission(m: CoreModel) -> bool {
    match m.pref {
        Preference::Reader => m.active_writers == 0,
        Preference::Writer => m.active_writers == 0 && m.waiting_writers == 0,
    }
}

/// The writer admission condition: a blocked writer may proceed only while
/// this holds. Under `Preference::Reader` a writer defers to active readers
/// and writers and also to waiting readers; under `Preference::Writer` only
/// to active ones.
pub open spec fn writer_admission(m: CoreModel) -> bool {
    match m.pref {
        Preference::Reader => m.active_writers == 0 && m.active_readers == 0
            && m.waiting_readers == 0,
        Preference::Writer => m.active_writers == 0 && m.active_readers == 0,
    }
}

/// The handle of the writer that goes next, when any writer is queued: the
/// oldest under `Order::Fifo`, the youngest under `Order::Lifo`. The same
/// choice is used to pick which writer to wake and which handle an admitted
/// writer removes.
pub open spec fn wake_pick(m: CoreModel) -> u64
    recommends
        m.queue.len() > 0,
{
    match m.order {
        Order::Fifo => m.queue.first(),
        Order::Lifo => m.queue.last(),
    }
}

/// What a release tells its caller to do: wake every blocked reader, wake the
/// one blocked writer holding the given handle, or wake nobody.
#[derive(Clone, Copy, Debug, PartialEq, Eq, Structural)]
pub enum WakeAction {
    /// Notify the shared reader channel; every blocked reader re-checks.
    WakeAllReaders,
    /// Notify exactly the blocked writer that owns this handle.
    WakeOneWriter(u64),
    /// Nobody is waiting for this release; notify nobody.
    WakeNone,
}

/// The model after a reader begins waiting.
pub open spec fn spec_begin_read(m: CoreModel) -> CoreModel {
    CoreModel { waiting_readers: m.waiting_readers + 1, ..m }
}

/// The model after a waiting reader is admitted.
pub open spec fn spec_admit_reader(m: CoreModel) -> CoreModel {
    CoreModel {
        waiting_readers: (m.waiting_readers - 1) as nat,
        active_readers: m.active_readers + 1,
        ..m
    }
}

/// The model after a writer begins waiting: its fresh wake handle (the old
/// `next_handle`) is appended to the queue.
pub open spec fn spec_begin_write(m: CoreModel) -> CoreModel {
    CoreModel {
        waiting_writers: m.waiting_writers + 1,
        queue: m.queue.push(m.next_handle),
        next_handle: (m.next_handle + 1) as u64,
        ..m
    }
}

/// The model after the next writer (per [`wake_pick`]) is admitted: its
/// handle leaves the queue and it becomes the single active writer.
pub open spec fn spec_admit_writer(m: CoreModel) -> CoreModel {
    CoreModel {
        waiting_writers: (m.waiting_writers - 1) as nat,
        active_writers: m.active_writers + 1,
        queue: match m.order {
            Order::Fifo => m.queue.drop_first(),
            Order::Lifo => m.queue.drop_last(),
        },
        ..m
    }
}

/// The model after a read release, and the wake action it owes: one writer is
/// woken when any is waiting.
pub open spec fn spec_release_read(m: CoreModel) -> (CoreModel, WakeAction) {
    let m2 = CoreModel { active_readers: (m.active_readers - 1) as nat, ..m };
    let action = if m.waiting_writers > 0 {
        WakeAction::WakeOneWriter(wake_pick(m))
    } else {
        WakeAction::WakeNone
    };
    (m2, action)
}

/// The model after a write release, and the wake action it owes. Under
/// `Preference::Reader` all waiting readers are woken first, one writer only
/// when no reader waits; under `Preference::Writer` the other way round.
pub open spec fn spec_release_write(m: CoreModel) -> (CoreModel, WakeAction) {
    let m2 = CoreModel { active_writers: (m.active_writers - 1) as nat, ..m };
    let action = match m.pref {
        Preference::Reader => if m.waiting_readers > 0 {
            WakeAction::WakeAllReaders
        } else if m.waiting_writers > 0 {
            WakeAction::WakeOneWriter(wake_pick(m))
        } else {
            WakeAction::WakeNone
        },
        Preference::Writer => if m.waiting_writers > 0 {
            WakeAction::WakeOneWriter(wake_pick(m))
        } else if m.waiting_readers > 0 {
            WakeAction::WakeAllReaders
        } else {
            WakeAction::WakeNone
        },
    };
    (m2, action)
}

/// The lock core: everything the lock's internal mutex protects. All state is
/// reached through the transition methods, whose contracts are stated over
/// the [`CoreModel`] view.
pub struct LockCore {
    pref: Preference,
    order: Order,
    active_readers: usize,
    active_writers: usize,
    waiting_readers: usize,
    waiting_writers: usize,
    queue: Vec<u64>,
    next_handle: u64,
}

impl View for LockCore {
    type V = CoreModel;

    closed spec fn view(&self) -> CoreModel {
        CoreModel {
            pref: self.pref,
            order: self.order,
            active_readers: self.active_readers as nat,
            active_writers: self.active_writers as nat,
            waiting_readers: self.waiting_readers as nat,
            waiting_writers: self.waiting_writers as nat,
            queue: self.queue@,
            next_handle: self.next_handle,
        }
    }
}

impl LockCore {
    /// A fresh core: both counters of each class zero, the wake queue empty.
    pub fn new(pref: Preference, order: Order) -> (core: LockCore)
        ensures
            core@ == (CoreModel {
                pref,
                order,
                active_readers: 0,
                active_writers: 0,
                waiting_readers: 0,
                waiting_writers: 0,
                queue: Seq::<u64>::empty(),
                next_handle: 0,
            }),
            inv(core@),
    {
        let core = LockCore {
            pref,
            order,
            active_readers: 0,
            active_writers: 0,
            waiting_readers: 0,
            waiting_writers: 0,
            queue: Vec::new(),
            next_handle: 0,
        };
        proof {
            assert(core@.queue =~= Seq::<u64>::empty());
        }
        core
    }

    /// Which class of waiter this lock favours.
    pub fn preference(&self) -> (p: Preference)
        ensures
            p == self@.pref,
    {
        self.pref
    }

    /// In which order this lock admits blocked writers.
    pub fn order(&self) -> (o: Order)
        ensures
            o == self@.order,
    {
        self.order
    }

    /// How many readers currently hold the lock.
    pub fn active_readers(&self) -> (n: usize)
        ensures
            n == self@.active_readers,
    {
        self.active_readers
    }

    /// How many writers currently hold the lock.
    pub fn active_writers(&self) -> (n: usize)
        ensures
            n == self@.active_writers,
    {
        self.active_writers
    }

    /// How many readers are blocked waiting.
    pub fn waiting_readers(&self) -> (n: usize)
        ensures
            n == self@.waiting_readers,
    {
        self.waiting_readers
    }

    /// How many writers are blocked waiting.
    pub fn waiting_writers(&self) -> (n: usize)
        ensures
            n == self@.waiting_writers,
    {
        self.waiting_writers
    }

    /// The next wake handle that [`LockCore::begin_write`] would hand out.
    pub fn next_handle(&self) -> (h: u64)
        ensures
            h == self@.next_handle,
    {
        self.next_handle
    }

    /// A reader arrives and starts waiting to be admitted.
    pub fn begin_read(&mut self)
        requires
            inv(old(self)@),
            old(self)@.waiting_readers < usize::MAX,
        ensures
            final(self)@ == spec_begin_read(old(self)@),
            inv(final(self)@),
    {
        self.waiting_readers = self.waiting_readers + 1;
    }

    /// The reader admission condition, as the waiting loop re-checks it.
    pub fn may_admit_reader(&self) -> (ok: bool)
        ensures
            ok == reader_admission(self@),
    {
        match self.pref {
            Preference::Reader => self.active_writers == 0,
            Preference::Writer => self.active_writers == 0 && self.waiting_writers == 0,
        }
    }

    /// A waiting reader whose admission condition holds becomes active.
    pub fn admit_reader(&mut self)
        requires
            inv(old(self)@),
            old(self)@.waiting_readers > 0,
            old(self)@.active_readers < usize::MAX,
            reader_admission(old(self)@),
        ensures
            final(self)@ == spec_admit_reader(old(self)@),
            inv(final(self)@),
    {
        self.waiting_readers = self.waiting_readers - 1;
        self.active_readers = self.active_readers + 1;
    }

    /// A writer arrives and starts waiting: it is handed a fresh wake handle
    /// of its own, appended to the queue. The handle is the writer's to keep;
    /// only the releasing side consults the queue, and only the admitted
    /// writer removes its own entry.
    pub fn begin_write(&mut self) -> (h: u64)
        requires
            inv(old(self)@),
            old(self)@.waiting_writers < usize::MAX,
            old(self)@.next_handle < u64::MAX,
        ensures
            final(self)@ == spec_begin_write(old(self)@),
            h == old(self)@.next_handle,
            !old(self)@.queue.contains(h),
            inv(final(self)@),
    {
        let h = self.next_handle;
        self.next_handle = self.next_handle + 1;
        self.waiting_writers = self.waiting_writers + 1;
        self.queue.push(h);
        proof {
            let m = spec_begin_write(old(self)@);
            assert(self@ == m);
            assert forall|i: int, j: int|
                0 <= i < j < m.queue.len() implies m.queue[i] != m.queue[j] by {
                if j < m.queue.len() - 1 {
                    assert(m.queue[i] == old(self)@.queue[i]);
                    assert(m.queue[j] == old(self)@.queue[j]);
                } else {
                    assert(m.queue[i] == old(self)@.queue[i]);
                    assert(m.queue[j] == old(self)@.next_handle);
                }
            }
        }
        h
    }

    /// The writer admission condition, as the waiting loop re-checks it.
    pub fn may_admit_writer(&self) -> (ok: bool)
        ensures
            ok == writer_admission(self@),
    {
        match self.pref {
            Preference::Reader => self.active_writers == 0 && self.active_readers == 0
                && self.waiting_readers == 0,
            Preference::Writer => self.active_writers == 0 && self.active_readers == 0,
        }
    }

    /// The handle of the writer that goes next, while any writer is queued:
    /// this is the handle a release wakes and the one the admitted writer
    /// then removes.
    pub fn next_writer(&self) -> (h: u64)
        requires
            self@.queue.len() > 0,
        ensures
            h == wake_pick(self@),
    {
        match self.order {
            Order::Fifo => self.queue[0],
            Order::Lifo => self.queue[self.queue.len() - 1],
        }
    }

    /// The next waiting writer (per [`wake_pick`]), whose admission condition
    /// holds, becomes the single active writer; its handle leaves the queue.
    /// Returns the admitted writer's handle.
    pub fn admit_writer(&mut self) -> (h: u64)
        requires
            inv(old(self)@),
            old(self)@.waiting_writers > 0,
            writer_admission(old(self)@),
        ensures
            final(self)@ == spec_admit_writer(old(self)@),
            h == wake_pick(old(self)@),
            inv(final(self)@),
    {
        let h = match self.order {
            Order::Fifo => self.queue.remove(0),
            Order::Lifo => {
                let h = self.queue.pop().unwrap();
                proof {
                    assert(self@.queue =~= old(self)@.queue.drop_last());
                }
                h
            },
        };
        self.waiting_writers = self.waiting_writers - 1;
        self.active_writers = self.active_writers + 1;
        proof {
            assert(self@ == spec_admit_writer(old(self)@));
            let m = spec_admit_writer(old(self)@);
            match old(self)@.order {
                Order::Fifo => {
                    assert(forall|i: int| 0 <= i < m.queue.len()
                        ==> #[trigger] m.queue[i] == old(self)@.queue[i + 1]);
                },
                Order::Lifo => {
                    assert(forall|i: int| 0 <= i < m.queue.len()
                        ==> #[trigger] m.queue[i] == old(self)@.queue[i]);
                },
            }
        }
        h
    }

    /// A reader gives the lock back. If any writer waits, exactly one — the
    /// head of the queue under `Order::Fifo`, the tail under `Order::Lifo` —
    /// is told to wake.
    pub fn release_read(&mut self) -> (action: WakeAction)
        requires
            inv(old(self)@),
            old(self)@.active_readers > 0,
        ensures
            final(self)@ == spec_release_read(old(self)@).0,
            action == spec_release_read(old(self)@).1,
            inv(final(self)@),
    {
        self.active_readers = self.active_readers - 1;
        if self.waiting_writers > 0 {
            WakeAction::WakeOneWriter(self.next_writer())
        } else {
            WakeAction::WakeNone
        }
    }

    /// A writer gives the lock back. Under `Preference::Reader` every waiting
    /// reader is told to wake, and one writer only when no reader waits;
    /// under `Preference::Writer` one writer first, all readers otherwise.
    pub fn release_write(&mut self) -> (action: WakeAction)
        requires
            inv(old(self)@),
            old(self)@.active_writers > 0,
        ensures
            final(self)@ == spec_release_write(old(self)@).0,
            action == spec_release_write(old(self)@).1,
            inv(final(self)@),
    {
        self.active_writers = self.active_writers - 1;
        match self.pref {
            Preference::Reader => {
                if self.waiting_readers > 0 {
                    WakeAction::WakeAllReaders
                } else if self.waiting_writers > 0 {
                    WakeAction::WakeOneWriter(self.next_writer())
                } else {
                    WakeAction::WakeNone
                }
            },
            Preference::Writer => {
                if self.waiting_writers > 0 {
                    WakeAction::WakeOneWriter(self.next_writer())
                } else if self.waiting_readers > 0 {
                    WakeAction::WakeAllReaders
                } else {
                    WakeAction::WakeNone
                }
            },
        }
    }
}

} // verus!
