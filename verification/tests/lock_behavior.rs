use rwlock::lock::RwLock;
use rwlock::policy::{Order, Preference};
use rwlock::sched::WakeAction;

#[test]
fn new_lock_is_idle() {
    let lk = RwLock::new(5u64, Preference::Reader, Order::Fifo);
    assert_eq!(lk.active_readers(), 0);
    assert_eq!(lk.active_writers(), 0);
    assert_eq!(lk.waiting_readers(), 0);
    assert_eq!(lk.waiting_writers(), 0);
    assert_eq!(lk.preference(), Preference::Reader);
    assert_eq!(lk.order(), Order::Fifo);
}

#[test]
fn round_trip_value_integrity() {
    let mut lk = RwLock::new(42u64, Preference::Reader, Order::Fifo);
    lk.write();
    assert_eq!(lk.active_writers(), 1);
    lk.write_value(7);
    assert_eq!(*lk.read_value(), 7);
    assert_eq!(lk.release_write(), WakeAction::WakeNone);
    lk.read();
    assert_eq!(lk.active_readers(), 1);
    assert_eq!(*lk.read_value(), 7);
    assert_eq!(lk.release_read(), WakeAction::WakeNone);
    assert_eq!(lk.active_readers(), 0);
}

#[test]
fn fifo_admission_order() {
    let mut lk = RwLock::new(0u64, Preference::Reader, Order::Fifo);
    // one writer holds the lock while three more submit, strictly in order
    lk.write();
    let h1 = lk.begin_write();
    let h2 = lk.begin_write();
    let h3 = lk.begin_write();
    assert!(!lk.may_admit_writer());
    assert_eq!(lk.release_write(), WakeAction::WakeOneWriter(h1));
    let mut admitted = Vec::new();
    while lk.waiting_writers() > 0 {
        assert!(lk.may_admit_writer());
        admitted.push(lk.admit_writer());
        lk.release_write();
    }
    assert_eq!(admitted, vec![h1, h2, h3]);
}

#[test]
fn lifo_admission_order() {
    let mut lk = RwLock::new(0u64, Preference::Reader, Order::Lifo);
    lk.write();
    let h1 = lk.begin_write();
    let h2 = lk.begin_write();
    let h3 = lk.begin_write();
    assert_eq!(lk.release_write(), WakeAction::WakeOneWriter(h3));
    let mut admitted = Vec::new();
    while lk.waiting_writers() > 0 {
        assert!(lk.may_admit_writer());
        admitted.push(lk.admit_writer());
        lk.release_write();
    }
    assert_eq!(admitted, vec![h3, h2, h1]);
}

#[test]
fn handles_are_fresh_and_distinct() {
    let mut lk = RwLock::new(0u64, Preference::Writer, Order::Fifo);
    let h1 = lk.begin_write();
    let h2 = lk.begin_write();
    let h3 = lk.begin_write();
    assert_ne!(h1, h2);
    assert_ne!(h2, h3);
    assert_ne!(h1, h3);
}

#[test]
fn reader_batching_under_reader_preference() {
    let mut lk = RwLock::new(0u64, Preference::Reader, Order::Fifo);
    lk.write();
    // three readers and one writer queue up behind the active writer
    lk.begin_read();
    lk.begin_read();
    lk.begin_read();
    let hw = lk.begin_write();
    assert!(!lk.may_admit_reader());
    // the write release wakes the whole reader batch, not the writer
    assert_eq!(lk.release_write(), WakeAction::WakeAllReaders);
    for admitted in 1..=3usize {
        assert!(lk.may_admit_reader());
        assert!(!lk.may_admit_writer());
        lk.admit_reader();
        assert_eq!(lk.active_readers(), admitted);
    }
    // all three are active before any writer can be admitted
    assert_eq!(lk.active_readers(), 3);
    assert!(!lk.may_admit_writer());
    assert_eq!(lk.release_read(), WakeAction::WakeOneWriter(hw));
    assert_eq!(lk.release_read(), WakeAction::WakeOneWriter(hw));
    assert!(!lk.may_admit_writer());
    assert_eq!(lk.release_read(), WakeAction::WakeOneWriter(hw));
    assert!(lk.may_admit_writer());
    assert_eq!(lk.admit_writer(), hw);
}

#[test]
fn no_lost_wakeups_writers_only() {
    let mut lk = RwLock::new(0u64, Preference::Reader, Order::Fifo);
    let n = 5usize;
    let mut handles = Vec::new();
    for _ in 0..n {
        handles.push(lk.begin_write());
    }
    let mut completed = 0usize;
    while lk.waiting_writers() > 0 {
        assert!(lk.may_admit_writer());
        let h = lk.admit_writer();
        assert_eq!(h, handles[completed]);
        completed += 1;
        lk.release_write();
    }
    assert_eq!(completed, n);
    assert_eq!(lk.active_writers(), 0);
    assert_eq!(lk.waiting_writers(), 0);
}

#[test]
fn writer_preference_makes_readers_defer() {
    let mut lk = RwLock::new(0u64, Preference::Writer, Order::Fifo);
    let hw = lk.begin_write();
    // a merely waiting writer already blocks readers under Preference::Writer
    lk.begin_read();
    assert!(!lk.may_admit_reader());
    assert_eq!(lk.admit_writer(), hw);
    // on release the writer side is favoured, but none waits: readers wake
    assert_eq!(lk.release_write(), WakeAction::WakeAllReaders);
    assert!(lk.may_admit_reader());
    lk.admit_reader();
    assert_eq!(lk.active_readers(), 1);
}

#[test]
fn reader_preference_ignores_waiting_writers() {
    let mut lk = RwLock::new(0u64, Preference::Reader, Order::Fifo);
    lk.begin_write();
    lk.begin_read();
    // a waiting writer does not block readers under Preference::Reader
    assert!(lk.may_admit_reader());
    lk.admit_reader();
    // but active or waiting readers block the writer
    assert!(!lk.may_admit_writer());
}

#[test]
fn write_release_wake_choice_by_preference() {
    // readers and a writer both wait; who is woken depends on the preference
    let mut reader_pref = RwLock::new(0u64, Preference::Reader, Order::Fifo);
    reader_pref.write();
    reader_pref.begin_read();
    reader_pref.begin_write();
    assert_eq!(reader_pref.release_write(), WakeAction::WakeAllReaders);

    let mut writer_pref = RwLock::new(0u64, Preference::Writer, Order::Fifo);
    writer_pref.write();
    writer_pref.begin_read();
    let hw = writer_pref.begin_write();
    assert_eq!(writer_pref.release_write(), WakeAction::WakeOneWriter(hw));
}

#[test]
fn read_release_wakes_next_writer() {
    let mut lk = RwLock::new(0u64, Preference::Reader, Order::Lifo);
    lk.read();
    let h1 = lk.begin_write();
    let h2 = lk.begin_write();
    // LIFO picks the youngest waiting writer
    assert_eq!(lk.release_read(), WakeAction::WakeOneWriter(h2));
    assert_eq!(lk.admit_writer(), h2);
    assert_eq!(lk.release_write(), WakeAction::WakeOneWriter(h1));
}

#[test]
fn release_with_nobody_waiting_wakes_nobody() {
    let mut lk = RwLock::new(0u64, Preference::Writer, Order::Lifo);
    lk.read();
    assert_eq!(lk.release_read(), WakeAction::WakeNone);
    lk.write();
    assert_eq!(lk.release_write(), WakeAction::WakeNone);
}
