use rxv6::sync::{RWCell, RWLock, TryLockError, RWLOCK_MAX_READERS};

#[test]
fn rwlock_reader() {
    let mut rwlock = RWLock::new("DUMMY");
    const READER_COUNT: usize = 10;

    for i in 0..READER_COUNT {
        let readers = rwlock.try_read().expect("reader should be acquirable");
        assert_eq!(readers, i + 1);
        let writer_error = rwlock
            .try_write()
            .expect_err("acquiring a writer shouldn't be possible while readers exist");
        assert_eq!(writer_error, TryLockError::HasReaders(i + 1));
    }
    for _ in 0..READER_COUNT {
        rwlock.release_read();
    }

    let readers = rwlock
        .try_read()
        .expect("reader should be acquirable again");
    assert_eq!(
        readers, 1,
        "only 1 reader should be left (the one we just created)"
    );
    rwlock.release_read();

    rwlock
        .try_write()
        .expect("writer should be acquirable since releasing the last reader");
}

#[test]
fn rwlock_writer() {
    let mut rwlock = RWLock::new("DUMMY");

    rwlock.try_write().expect("writer should be acquirable");
    let writer_error = rwlock
        .try_write()
        .expect_err("acquiring two writers shouldn't be possible");
    assert_eq!(writer_error, TryLockError::HasWriter);
    let reader_error = rwlock
        .try_read()
        .expect_err("acquiring a reader while a writer exists shouldn't be possible");
    assert_eq!(reader_error, TryLockError::HasWriter);

    rwlock.release_write();
    rwlock
        .try_write()
        .expect("writer should be acquirable when last was freed");

    rwlock.release_write();
    let readers = rwlock
        .try_read()
        .expect("reader should be acquirable since writer was freed");
    assert_eq!(readers, 1, "only 1 reader should have been allocated");
}

#[test]
fn rwlock_tag() {
    let rwlock = RWLock::new("SCHED");
    assert_eq!(rwlock.tag(), "SCHED");
}

#[test]
fn rwlock_max_readers_value() {
    // one counter value is reserved for the writer sentinel
    assert_eq!(RWLOCK_MAX_READERS, usize::MAX - 1);
}

#[test]
fn rwcell_guard_tracking() {
    let mut rwcell = RWCell::new("DUMMY", "DUMMY");

    let reader_0 = rwcell.try_read().expect("1 reader should be acquirable");
    let reader_1 = rwcell.try_read().expect("2 readers should be acquirable");
    let (reader_2, count) = rwcell
        .try_read_with_readers()
        .expect("3 readers should be acquirable");

    assert_eq!(count, 3, "3 readers should exist at this point");

    let error = rwcell
        .try_write()
        .expect_err("a writer shouldn't be acquirable while readers exist");
    assert_eq!(error, TryLockError::HasReaders(3));

    rwcell.release_reader(reader_0);
    rwcell.release_reader(reader_1);
    rwcell.release_reader(reader_2);

    let writer = rwcell
        .try_write()
        .expect("1 writer should be acquirable since other locks've been freed");

    let error = rwcell.try_write().expect_err("2 writers shouldn't exist");
    assert_eq!(error, TryLockError::HasWriter);
    let error = rwcell
        .try_read()
        .expect_err("a reader shouldn't be acquirable while a writer does");
    assert_eq!(error, TryLockError::HasWriter);

    rwcell.release_writer(writer);

    let reader = rwcell
        .try_read()
        .expect("1 reader should be acquirable since writer's been freed");
    rwcell.release_reader(reader);
}

#[test]
fn rwcell_get_and_set() {
    let mut cell = RWCell::new("COUNTER", 7u64);
    assert_eq!(cell.tag(), "COUNTER");
    assert_eq!(cell.get(), 7);
    cell.set(9);
    assert_eq!(cell.get(), 9);
}

#[test]
fn rwcell_write_through_guard() {
    let mut cell = RWCell::new("SLOT", 1u64);
    let writer = cell.write();
    assert_eq!(writer.tag(), "SLOT");
    cell.write_data(&writer, 42);
    cell.release_writer(writer);
    assert_eq!(cell.get(), 42);
}

#[test]
fn rwcell_reader_guard_tag() {
    let mut cell = RWCell::new("TBL", 0u64);
    let reader = cell.read();
    assert_eq!(reader.tag(), "TBL");
    cell.release_reader(reader);
}
