//! The protocol as a transition system, and the laws proved of it.
//!
//! An execution of the lock is an interleaving of six kinds of instantaneous
//! events, each performed under the internal mutex. [`step`] is the effect of
//! one event on the [`CoreModel`]; [`run`] folds a whole interleaving.
//! The laws:
//! * every reachable state keeps the invariant, so at no instant do an active
//!   writer and an active reader coexist ([`lemma_mutual_exclusion`]);
//! * when only writers contend, every queued writer is admitted
//!   ([`lemma_writers_drain`]);
//! * writers are admitted oldest-first under `Order::Fifo`
//!   ([`lemma_admission_order_fifo`]) and youngest-first under `Order::Lifo`
//!   ([`lemma_admission_order_lifo`]);
//! * under `Preference::Reader`, a write release with readers waiting wakes
//!   them all, and every one of them becomes active before any writer can be
//!   admitted ([`lemma_reader_batch`]);
//! * the writer a release notifies is exactly the writer the next admission
//!   removes from the queue ([`lemma_notified_writer_is_next`]), and the
//!   admission order holds exactly the queued handles
//!   ([`lemma_no_writer_lost`]).

use crate::policy::{Order, Preference};
use crate::sched::{
    inv, reader_admission, spec_admit_reader, spec_admit_writer, spec_begin_read,
    spec_begin_write, spec_release_read, spec_release_write, wake_pick, writer_admission,
    CoreModel, WakeAction,
};
use vstd::prelude::*;

verus! {

/// One instantaneous event of the protocol, performed under the internal
/// mutex.
#[derive(Clone, Copy, Debug, PartialEq, Eq, Structural)]
pub enum Event {
    /// A reader arrives and starts waiting.
    BeginRead,
    /// A waiting reader whose admission condition holds becomes active.
    AdmitReader,
    /// A writer arrives and is handed a fresh wake handle.
    BeginWrite,
    /// The next waiting writer, its admission condition holding, becomes
    /// active.
    AdmitWriter,
    /// An active reader releases its hold.
    ReleaseRead,
    /// The active writer releases its hold.
    ReleaseWrite,
}

/// Whether an event can occur in a given state: admissions only when a thread
/// of that class waits and its admission condition holds, releases only when
/// a hold exists, a writer arrival only while fresh handles remain.
pub open spec fn enabled(m: CoreModel, ev: Event) -> bool {
    match ev {
        Event::BeginRead => true,
        Event::AdmitReader => m.waiting_readers > 0 && reader_admission(m),
        Event::BeginWrite => m.next_handle < u64::MAX,
        Event::AdmitWriter => m.waiting_writers > 0 && writer_admission(m),
        Event::ReleaseRead => m.active_readers > 0,
        Event::ReleaseWrite => m.active_writers > 0,
    }
}

/// The effect of one event on the model.
pub open spec fn step(m: CoreModel, ev: Event) -> CoreModel {
    match ev {
        Event::BeginRead => spec_begin_read(m),
        Event::AdmitReader => spec_admit_reader(m),
        Event::BeginWrite => spec_begin_write(m),
        Event::AdmitWriter => spec_admit_writer(m),
        Event::ReleaseRead => spec_release_read(m).0,
        Event::ReleaseWrite => spec_release_write(m).0,
    }
}

/// The state after an interleaving of events. An event that is not enabled
/// cannot occur: a blocked thread simply does not run, so the state is left
/// as it is.
pub open spec fn run(m: CoreModel, evs: Seq<Event>) -> CoreModel
    decreases evs.len(),
{
    if evs.len() == 0 {
        m
    } else {
        let m1 = if enabled(m, evs.first()) {
            step(m, evs.first())
        } else {
            m
        };
        run(m1, evs.drop_first())
    }
}

/// Every enabled event preserves the invariant.
pub proof fn lemma_step_preserves_inv(m: CoreModel, ev: Event)
    requires
        inv(m),
        enabled(m, ev),
    ensures
        inv(step(m, ev)),
{
    let m2 = step(m, ev);
    match ev {
        Event::BeginWrite => {
            assert forall|i: int, j: int|
                0 <= i < j < m2.queue.len() implies m2.queue[i] != m2.queue[j] by {
                if j < m2.queue.len() - 1 {
                    assert(m2.queue[i] == m.queue[i]);
                    assert(m2.queue[j] == m.queue[j]);
                } else {
                    assert(m2.queue[i] == m.queue[i]);
                    assert(m2.queue[j] == m.next_handle);
                }
            }
        },
        Event::AdmitWriter => {
            match m.order {
                Order::Fifo => {
                    assert(forall|i: int| 0 <= i < m2.queue.len()
                        ==> #[trigger] m2.queue[i] == m.queue[i + 1]);
                },
                Order::Lifo => {
                    assert(forall|i: int| 0 <= i < m2.queue.len()
                        ==> #[trigger] m2.queue[i] == m.queue[i]);
                },
            }
        },
        _ => {},
    }
}

/// The invariant holds in every reachable state: whatever interleaving of
/// events runs from a state that satisfies it, the state it reaches satisfies
/// it too.
pub proof fn lemma_run_preserves_inv(m: CoreModel, evs: Seq<Event>)
    requires
        inv(m),
    ensures
        inv(run(m, evs)),
    decreases evs.len(),
{
    if evs.len() > 0 {
        if enabled(m, evs.first()) {
            lemma_step_preserves_inv(m, evs.first());
            lemma_run_preserves_inv(step(m, evs.first()), evs.drop_first());
        } else {
            lemma_run_preserves_inv(m, evs.drop_first());
        }
    }
}

/// Law (mutual exclusion): for every interleaving of protocol events from a
/// state that satisfies the invariant — the freshly constructed lock does —
/// the state reached has at most one active writer, and never an active
/// writer and an active reader at once.
pub proof fn lemma_mutual_exclusion(m: CoreModel, evs: Seq<Event>)
    requires
        inv(m),
    ensures
        run(m, evs).active_writers <= 1,
        run(m, evs).active_writers > 0 ==> run(m, evs).active_readers == 0,
        run(m, evs).active_readers > 0 ==> run(m, evs).active_writers == 0,
{
    lemma_run_preserves_inv(m, evs);
}

/// One round of writer turnover: the next writer is admitted and then
/// releases. The admitted handle is [`wake_pick`] of the state.
pub open spec fn drain_round(m: CoreModel) -> CoreModel {
    spec_release_write(spec_admit_writer(m)).0
}

/// The order in which the queued writers are admitted when writers alone turn
/// the lock over: the next pick, then the order of the rest.
pub open spec fn admission_order(m: CoreModel) -> Seq<u64>
    decreases m.queue.len(),
{
    if m.queue.len() == 0 {
        Seq::empty()
    } else {
        seq![wake_pick(m)] + admission_order(drain_round(m))
    }
}

/// Whether writers alone can legally turn the lock over until the queue is
/// empty: at each round the next writer's admission condition holds, and the
/// writer admitted is the one the release side would wake.
pub open spec fn drain_enabled(m: CoreModel) -> bool
    decreases m.queue.len(),
{
    m.queue.len() == 0 || {
        &&& m.waiting_writers > 0
        &&& writer_admission(m)
        &&& spec_admit_writer(m).active_writers > 0
        &&& drain_enabled(drain_round(m))
    }
}

/// Law (writer admission order, oldest first): under `Order::Fifo` the
/// writers are admitted exactly in the order in which they began waiting.
pub proof fn lemma_admission_order_fifo(m: CoreModel)
    requires
        m.order == Order::Fifo,
    ensures
        admission_order(m) == m.queue,
    decreases m.queue.len(),
{
    if m.queue.len() == 0 {
        assert(admission_order(m) =~= m.queue);
    } else {
        lemma_admission_order_fifo(drain_round(m));
        assert(admission_order(m) =~= m.queue);
    }
}

/// Law (writer admission order, youngest first): under `Order::Lifo` the
/// writers are admitted exactly in the reverse of the order in which they
/// began waiting.
pub proof fn lemma_admission_order_lifo(m: CoreModel)
    requires
        m.order == Order::Lifo,
    ensures
        admission_order(m) == m.queue.reverse(),
    decreases m.queue.len(),
{
    if m.queue.len() == 0 {
        assert(admission_order(m) =~= m.queue.reverse());
    } else {
        lemma_admission_order_lifo(drain_round(m));
        assert(admission_order(m) =~= m.queue.reverse());
    }
}

/// Law (the woken writer is the admitted writer): a release consults the
/// queue only to pick the handle to notify, and the next writer admission
/// removes exactly that handle — which is in the queue, and leaves it for
/// good. No writer ever waits on a slot that shifted beneath it: the handle
/// it was given at enqueue time is the one by which it is woken and removed.
pub proof fn lemma_notified_writer_is_next(m: CoreModel)
    requires
        inv(m),
        m.waiting_writers > 0,
    ensures
        spec_release_read(m).1 == WakeAction::WakeOneWriter(wake_pick(m)),
        (m.pref == Preference::Writer || m.waiting_readers == 0)
            ==> spec_release_write(m).1 == WakeAction::WakeOneWriter(wake_pick(m)),
        m.queue.contains(wake_pick(m)),
        !spec_admit_writer(m).queue.contains(wake_pick(m)),
{
    let q = m.queue;
    let rest = spec_admit_writer(m).queue;
    match m.order {
        Order::Fifo => {
            assert(q[0] == wake_pick(m));
            if rest.contains(wake_pick(m)) {
                let j = choose|j: int| 0 <= j < rest.len() && rest[j] == wake_pick(m);
                assert(q[j + 1] == q[0]);
            }
        },
        Order::Lifo => {
            assert(q[q.len() - 1] == wake_pick(m));
            if rest.contains(wake_pick(m)) {
                let j = choose|j: int| 0 <= j < rest.len() && rest[j] == wake_pick(m);
                assert(q[j] == q[q.len() - 1]);
            }
        },
    }
}

/// Law (no writer is lost): under either order, the admission order contains
/// exactly the handles of the queued writers.
pub proof fn lemma_no_writer_lost(m: CoreModel)
    ensures
        forall|h: u64| admission_order(m).contains(h) <==> m.queue.contains(h),
{
    match m.order {
        Order::Fifo => {
            lemma_admission_order_fifo(m);
        },
        Order::Lifo => {
            lemma_admission_order_lifo(m);
            let q = m.queue;
            assert forall|h: u64| q.reverse().contains(h) <==> q.contains(h) by {
                if q.contains(h) {
                    let i = choose|i: int| 0 <= i < q.len() && q[i] == h;
                    assert(q.reverse()[q.len() - 1 - i] == h);
                }
                if q.reverse().contains(h) {
                    let i = choose|i: int| 0 <= i < q.reverse().len() && q.reverse()[i] == h;
                    assert(q[q.len() - 1 - i] == h);
                }
            }
        },
    }
}

/// Law (no lost wakeups): when no reader is active or waiting and no writer
/// holds the lock, every queued writer is admitted — the drain is legal at
/// every round, under either preference, and admits one writer per queue
/// entry.
pub proof fn lemma_writers_drain(m: CoreModel)
    requires
        inv(m),
        m.active_readers == 0,
        m.waiting_readers == 0,
        m.active_writers == 0,
    ensures
        drain_enabled(m),
        admission_order(m).len() == m.waiting_writers,
        inv(run_drain(m)),
        run_drain(m).waiting_writers == 0,
    decreases m.queue.len(),
{
    if m.queue.len() > 0 {
        lemma_step_preserves_inv(m, Event::AdmitWriter);
        lemma_step_preserves_inv(spec_admit_writer(m), Event::ReleaseWrite);
        lemma_writers_drain(drain_round(m));
    }
}

/// The state once writers alone have turned the lock over until the queue is
/// empty.
pub open spec fn run_drain(m: CoreModel) -> CoreModel
    decreases m.queue.len(),
{
    if m.queue.len() == 0 {
        m
    } else {
        run_drain(drain_round(m))
    }
}

/// The state after `k` waiting readers have been admitted one by one.
pub open spec fn admit_readers(m: CoreModel, k: nat) -> CoreModel
    decreases k,
{
    if k == 0 {
        m
    } else {
        admit_readers(spec_admit_reader(m), (k - 1) as nat)
    }
}

/// Admitting readers only moves them from waiting to active; nothing else of
/// the state changes.
pub proof fn lemma_admit_readers_counts(m: CoreModel, k: nat)
    requires
        k <= m.waiting_readers,
    ensures
        admit_readers(m, k) == (CoreModel {
            waiting_readers: (m.waiting_readers - k) as nat,
            active_readers: m.active_readers + k,
            ..m
        }),
    decreases k,
{
    if k > 0 {
        lemma_admit_readers_counts(spec_admit_reader(m), (k - 1) as nat);
    }
}

/// Law (reader batching): under `Preference::Reader`, releasing the write
/// hold while `k > 0` readers wait wakes all of them; each of the `k` can be
/// admitted in turn, and at no point before, during or at the end of the
/// batch can any writer be admitted. All `k` are active once the batch is
/// done.
pub proof fn lemma_reader_batch(m: CoreModel)
    requires
        inv(m),
        m.pref == Preference::Reader,
        m.active_writers > 0,
        m.waiting_readers > 0,
    ensures
        spec_release_write(m).1 == WakeAction::WakeAllReaders,
        forall|j: nat|
            j < m.waiting_readers ==> reader_admission(
                #[trigger] admit_readers(spec_release_write(m).0, j),
            ),
        forall|j: nat|
            j <= m.waiting_readers ==> !writer_admission(
                #[trigger] admit_readers(spec_release_write(m).0, j),
            ),
        admit_readers(spec_release_write(m).0, m.waiting_readers).active_readers
            == m.waiting_readers,
        admit_readers(spec_release_write(m).0, m.waiting_readers).waiting_readers == 0,
{
    let m0 = spec_release_write(m).0;
    assert forall|j: nat| j <= m.waiting_readers implies {
        &&& (j < m.waiting_readers ==> reader_admission(
            #[trigger] admit_readers(m0, j),
        ))
        &&& !writer_admission(admit_readers(m0, j))
    } by {
        lemma_admit_readers_counts(m0, j);
    }
    lemma_admit_readers_counts(m0, m.waiting_readers);
}

} // verus!
