use rwlock::lock::RwLock;
use rwlock::policy::{Order, Preference};

// One hundred simulated threads contend on a reader-preferred, LIFO lock
// around the value 42: thread `i` writes `i` when `i % 3 != 0` and reads
// otherwise. The driver below plays the role of the machine's scheduler: it
// lets every thread arrive, then repeatedly admits whoever the admission
// conditions allow, checking at every step that no reader and writer are ever
// active together. When everyone is done, a final read must observe a value
// some writer thread wrote.
#[test]
fn hundred_threads_mixed_scenario() {
    let mut lk = RwLock::new(42u64, Preference::Reader, Order::Lifo);

    let mut writer_of_handle: Vec<(u64, u64)> = Vec::new();
    let mut expected_writers: Vec<u64> = Vec::new();
    for i in 0..100u64 {
        if i % 3 != 0 {
            let h = lk.begin_write();
            writer_of_handle.push((h, i));
            expected_writers.push(i);
        } else {
            lk.begin_read();
        }
    }

    let check_exclusion = |lk: &RwLock<u64>| {
        assert!(lk.active_writers() <= 1);
        assert!(!(lk.active_writers() > 0 && lk.active_readers() > 0));
    };

    let mut reads: Vec<u64> = Vec::new();
    let mut writes: Vec<u64> = Vec::new();
    loop {
        check_exclusion(&lk);
        if lk.waiting_readers() > 0 && lk.may_admit_reader() {
            lk.admit_reader();
            check_exclusion(&lk);
            reads.push(*lk.read_value());
            continue;
        }
        if lk.active_readers() > 0 {
            lk.release_read();
            continue;
        }
        if lk.waiting_writers() > 0 && lk.may_admit_writer() {
            let h = lk.admit_writer();
            check_exclusion(&lk);
            let &(_, i) = writer_of_handle.iter().find(|&&(hh, _)| hh == h).unwrap();
            lk.write_value(i);
            writes.push(i);
            lk.release_write();
            continue;
        }
        break;
    }

    // everyone ran: 34 readers, 66 writers
    assert_eq!(lk.active_readers(), 0);
    assert_eq!(lk.active_writers(), 0);
    assert_eq!(lk.waiting_readers(), 0);
    assert_eq!(lk.waiting_writers(), 0);
    assert_eq!(reads.len(), 34);
    assert_eq!(writes.len(), 66);

    // the lock is reader-preferred, so the whole reader batch went first and
    // observed the initial value; the writers then drained youngest-first
    assert!(reads.iter().all(|&v| v == 42));
    expected_writers.reverse();
    assert_eq!(writes, expected_writers);

    // a final read observes the value of the last admitted writer, which is
    // one of the values the writer threads wrote
    lk.read();
    let v = *lk.read_value();
    lk.release_read();
    assert_eq!(v, *writes.last().unwrap());
    assert!(v % 3 != 0 && v < 100);
}
