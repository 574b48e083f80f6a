//! The lock itself: the protected value together with the [`LockCore`].
//!
//! [`RwLock`] owns the payload and the core state that the internal mutex of
//! a blocking driver would protect. Acquisition is split into its protocol
//! steps — begin waiting, re-check the admission condition, be admitted — so
//! that a driver can block between them; [`RwLock::read`] and
//! [`RwLock::write`] are the one-call forms for the case in which the caller
//! would not block. The payload is reachable only while a hold is active,
//! which is what makes the guard discipline of a driver sound: a guard exists
//! exactly while the corresponding counter is raised.

use crate::policy::{Order, Preference};
use crate::protocol::{run, Event};
use crate::sched::{
    inv, reader_admission, spec_admit_reader, spec_admit_writer, spec_begin_read,
    spec_begin_write, spec_release_read, spec_release_write, wake_pick, writer_admission,
    CoreModel, LockCore, WakeAction,
};
use vstd::prelude::*;

verus! {

/// The mathematical model of the whole lock: the protected value and the
/// model of the core.
pub ghost struct LockModel<T> {
    /// The protected payload.
    pub value: T,
    /// The state of the coordination core.
    pub core: CoreModel,
}

/// A reader–writer lock with a configurable preference and wake order. Many
/// readers or one writer may hold it; the payload is reachable only through a
/// hold.
pub struct RwLock<T> {
    value: T,
    core: LockCore,
}

impl<T> View for RwLock<T> {
    type V = LockModel<T>;

    closed spec fn view(&self) -> LockModel<T> {
        LockModel { value: self.value, core: self.core@ }
    }
}

impl<T> RwLock<T> {
    /// A fresh lock around `value`: nobody holds it, nobody waits for it.
    pub fn new(value: T, pref: Preference, order: Order) -> (lock: RwLock<T>)
        ensures
            lock@.value == value,
            lock@.core == (CoreModel {
                pref,
                order,
                active_readers: 0,
                active_writers: 0,
                waiting_readers: 0,
                waiting_writers: 0,
                queue: Seq::<u64>::empty(),
                next_handle: 0,
            }),
            inv(lock@.core),
    {
        RwLock { value, core: LockCore::new(pref, order) }
    }

    /// Which class of waiter this lock favours.
    pub fn preference(&self) -> (p: Preference)
        ensures
            p == self@.core.pref,
    {
        self.core.preference()
    }

    /// In which order this lock admits blocked writers.
    pub fn order(&self) -> (o: Order)
        ensures
            o == self@.core.order,
    {
        self.core.order()
    }

    /// How many readers currently hold the lock.
    pub fn active_readers(&self) -> (n: usize)
        ensures
            n == self@.core.active_readers,
    {
        self.core.active_readers()
    }

    /// How many writers currently hold the lock.
    pub fn active_writers(&self) -> (n: usize)
        ensures
            n == self@.core.active_writers,
    {
        self.core.active_writers()
    }

    /// How many readers are blocked waiting.
    pub fn waiting_readers(&self) -> (n: usize)
        ensures
            n == self@.core.waiting_readers,
    {
        self.core.waiting_readers()
    }

    /// How many writers are blocked waiting.
    pub fn waiting_writers(&self) -> (n: usize)
        ensures
            n == self@.core.waiting_writers,
    {
        self.core.waiting_writers()
    }

    /// A reader arrives and starts waiting. The payload is untouched.
    pub fn begin_read(&mut self)
        requires
            inv(old(self)@.core),
            old(self)@.core.waiting_readers < usize::MAX,
        ensures
            final(self)@.core == spec_begin_read(old(self)@.core),
            final(self)@.value == old(self)@.value,
            inv(final(self)@.core),
    {
        self.core.begin_read();
    }

    /// The reader admission condition, as a waiting reader re-checks it on
    /// every wakeup.
    pub fn may_admit_reader(&self) -> (ok: bool)
        ensures
            ok == reader_admission(self@.core),
    {
        self.core.may_admit_reader()
    }

    /// A waiting reader whose admission condition holds becomes active.
    pub fn admit_reader(&mut self)
        requires
            inv(old(self)@.core),
            old(self)@.core.waiting_readers > 0,
            old(self)@.core.active_readers < usize::MAX,
            reader_admission(old(self)@.core),
        ensures
            final(self)@.core == spec_admit_reader(old(self)@.core),
            final(self)@.value == old(self)@.value,
            inv(final(self)@.core),
    {
        self.core.admit_reader();
    }

    /// A writer arrives and starts waiting; its fresh wake handle is
    /// returned, the writer's own to wait on.
    pub fn begin_write(&mut self) -> (h: u64)
        requires
            inv(old(self)@.core),
            old(self)@.core.waiting_writers < usize::MAX,
            old(self)@.core.next_handle < u64::MAX,
        ensures
            final(self)@.core == spec_begin_write(old(self)@.core),
            final(self)@.value == old(self)@.value,
            h == old(self)@.core.next_handle,
            inv(final(self)@.core),
    {
        self.core.begin_write()
    }

    /// The writer admission condition, as a waiting writer re-checks it on
    /// every wakeup.
    pub fn may_admit_writer(&self) -> (ok: bool)
        ensures
            ok == writer_admission(self@.core),
    {
        self.core.may_admit_writer()
    }

    /// The handle of the writer that goes next, while any writer waits.
    pub fn next_writer(&self) -> (h: u64)
        requires
            self@.core.queue.len() > 0,
        ensures
            h == wake_pick(self@.core),
    {
        self.core.next_writer()
    }

    /// The next waiting writer becomes the single active writer; its own
    /// handle leaves the queue, and is returned.
    pub fn admit_writer(&mut self) -> (h: u64)
        requires
            inv(old(self)@.core),
            old(self)@.core.waiting_writers > 0,
            writer_admission(old(self)@.core),
        ensures
            final(self)@.core == spec_admit_writer(old(self)@.core),
            final(self)@.value == old(self)@.value,
            h == wake_pick(old(self)@.core),
            inv(final(self)@.core),
    {
        self.core.admit_writer()
    }

    /// Acquire a read hold without blocking: legal exactly when the reader
    /// admission condition already holds, so the waiting loop would admit the
    /// caller at once.
    pub fn read(&mut self)
        requires
            inv(old(self)@.core),
            reader_admission(old(self)@.core),
            old(self)@.core.waiting_readers < usize::MAX,
            old(self)@.core.active_readers < usize::MAX,
        ensures
            final(self)@.core == spec_admit_reader(spec_begin_read(old(self)@.core)),
            final(self)@.core.active_readers == old(self)@.core.active_readers + 1,
            final(self)@.value == old(self)@.value,
            inv(final(self)@.core),
    {
        self.core.begin_read();
        self.core.admit_reader();
    }

    /// Acquire the write hold without blocking: legal exactly when the writer
    /// admission condition already holds and no other writer waits, so the
    /// caller's fresh handle is the next pick under either order.
    pub fn write(&mut self)
        requires
            inv(old(self)@.core),
            writer_admission(old(self)@.core),
            old(self)@.core.waiting_writers == 0,
            old(self)@.core.next_handle < u64::MAX,
        ensures
            final(self)@.core == spec_admit_writer(spec_begin_write(old(self)@.core)),
            final(self)@.core.active_writers == 1,
            final(self)@.core.waiting_writers == 0,
            final(self)@.core.queue == old(self)@.core.queue,
            final(self)@.value == old(self)@.value,
            inv(final(self)@.core),
    {
        self.core.begin_write();
        self.core.admit_writer();
        proof {
            assert(final(self)@.core.queue =~= old(self)@.core.queue);
        }
    }

    /// Read the payload through a hold: the caller must hold the lock in
    /// either mode.
    pub fn read_value(&self) -> (v: &T)
        requires
            self@.core.active_readers > 0 || self@.core.active_writers > 0,
        ensures
            *v == self@.value,
    {
        &self.value
    }

    /// Overwrite the payload through the write hold.
    pub fn write_value(&mut self, v: T)
        requires
            old(self)@.core.active_writers > 0,
        ensures
            final(self)@.value == v,
            final(self)@.core == old(self)@.core,
    {
        self.value = v;
    }

    /// A reader gives the lock back; the returned action says whom to wake.
    pub fn release_read(&mut self) -> (action: WakeAction)
        requires
            inv(old(self)@.core),
            old(self)@.core.active_readers > 0,
        ensures
            final(self)@.core == spec_release_read(old(self)@.core).0,
            action == spec_release_read(old(self)@.core).1,
            final(self)@.value == old(self)@.value,
            inv(final(self)@.core),
    {
        self.core.release_read()
    }

    /// The writer gives the lock back; the returned action says whom to wake.
    pub fn release_write(&mut self) -> (action: WakeAction)
        requires
            inv(old(self)@.core),
            old(self)@.core.active_writers > 0,
        ensures
            final(self)@.core == spec_release_write(old(self)@.core).0,
            action == spec_release_write(old(self)@.core).1,
            final(self)@.value == old(self)@.value,
            inv(final(self)@.core),
    {
        self.core.release_write()
    }
}

/// The whole lock after an interleaving of protocol events: the events move
/// holds around but never touch the payload.
pub open spec fn lock_run<T>(m: LockModel<T>, evs: Seq<Event>) -> LockModel<T> {
    LockModel { value: m.value, core: run(m.core, evs) }
}

/// Law (round-trip value integrity): once a writer has stored `v`, whatever
/// interleaving of acquisitions and releases follows, a read through any
/// later hold observes exactly `v` — no protocol event changes the payload,
/// and [`RwLock::read_value`] returns the payload itself.
pub proof fn lemma_round_trip<T>(m: LockModel<T>, v: T, evs: Seq<Event>)
    ensures
        lock_run(LockModel { value: v, ..m }, evs).value == v,
{
}

} // verus!
