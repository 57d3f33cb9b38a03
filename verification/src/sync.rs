use vstd::prelude::*;

verus! {

/// Largest number of live readers the counter can represent; one more
/// value, the all-ones sentinel, is reserved for a live writer.
pub const RWLOCK_MAX_READERS: usize = usize::MAX - 1;

const RWLOCK_FREE: usize = 0;
const RWLOCK_WRITER_ONLY: usize = usize::MAX;

/// Primitive for tracking read-write access. It never blocks and does not
/// itself protect a payload: it is an assertion layer that catches illegal
/// reentrant access to shared kernel state on a single hart.
///
/// The whole state is one counter: `0` is free, `1..=RWLOCK_MAX_READERS` is
/// that many live readers, and the reserved sentinel is one live writer.
/// That encoding makes reader/writer coexistence unrepresentable; see
/// [`lemma_rwlock_exclusion`].
pub struct RWLock {
    tag: &'static str,
    state: usize,
}

#[derive(Clone, Copy, Debug, PartialEq, Eq, Structural)]
pub enum TryLockError {
    HasWriter,
    HasReaders(usize),
}

pub type TryLockResult<T> = Result<T, TryLockError>;

impl RWLock {
    /// Number of live readers (zero while a writer holds the lock).
    pub closed spec fn reader_count(&self) -> usize {
        if self.state == RWLOCK_WRITER_ONLY {
            0
        } else {
            self.state
        }
    }

    /// Whether a live writer holds the lock.
    pub closed spec fn has_writer(&self) -> bool {
        self.state == RWLOCK_WRITER_ONLY
    }

    pub open spec fn is_free(&self) -> bool {
        self.reader_count() == 0 && !self.has_writer()
    }

    /// Whether one more reader may join.
    pub open spec fn can_add_reader(&self) -> bool {
        !self.has_writer() && self.reader_count() < RWLOCK_MAX_READERS
    }

    pub closed spec fn tag_spec(&self) -> &'static str {
        self.tag
    }

    pub fn new(tag: &'static str) -> (r: Self)
        ensures
            r.is_free(),
            r.tag_spec() == tag,
    {
        Self { tag, state: RWLOCK_FREE }
    }

    /// Adds one reader unless a writer is live or the reader count is
    /// already at its maximum; on success returns the new reader count.
    pub fn try_read(&mut self) -> (r: TryLockResult<usize>)
        ensures
            old(self).has_writer() ==> r == TryLockResult::<usize>::Err(TryLockError::HasWriter)
                && *final(self) == *old(self),
            !old(self).has_writer() && old(self).reader_count() == RWLOCK_MAX_READERS
                ==> r == TryLockResult::<usize>::Err(TryLockError::HasReaders(RWLOCK_MAX_READERS))
                    && *final(self) == *old(self),
            old(self).can_add_reader() ==> {
                &&& r == TryLockResult::<usize>::Ok((old(self).reader_count() + 1) as usize)
                &&& final(self).reader_count() == old(self).reader_count() + 1
                &&& !final(self).has_writer()
            },
            final(self).tag_spec() == old(self).tag_spec(),
    {
        let state = self.state;
        if state == RWLOCK_WRITER_ONLY {
            return Err(TryLockError::HasWriter);
        }
        if state == RWLOCK_MAX_READERS {
            return Err(TryLockError::HasReaders(state));
        }
        self.state = state + 1;
        Ok(self.state)
    }

    /// Removes one reader. Releasing while no reader is live, or while a
    /// writer is live, is a fatal misuse and is excluded by contract.
    pub fn release_read(&mut self)
        requires
            !old(self).has_writer(),
            old(self).reader_count() >= 1,
        ensures
            final(self).reader_count() == old(self).reader_count() - 1,
            !final(self).has_writer(),
            final(self).tag_spec() == old(self).tag_spec(),
    {
        self.state = self.state - 1;
    }

    /// Takes the lock for one writer if and only if it is free; otherwise
    /// reports the conflicting holders.
    pub fn try_write(&mut self) -> (r: TryLockResult<()>)
        ensures
            old(self).is_free() ==> r == TryLockResult::<()>::Ok(())
                && final(self).has_writer(),
            old(self).has_writer() ==> r == TryLockResult::<()>::Err(TryLockError::HasWriter)
                && *final(self) == *old(self),
            !old(self).has_writer() && old(self).reader_count() >= 1
                ==> r == TryLockResult::<()>::Err(TryLockError::HasReaders(old(self).reader_count()))
                    && *final(self) == *old(self),
            final(self).tag_spec() == old(self).tag_spec(),
    {
        let state = self.state;
        if state == RWLOCK_FREE {
            self.state = RWLOCK_WRITER_ONLY;
            Ok(())
        } else if state == RWLOCK_WRITER_ONLY {
            Err(TryLockError::HasWriter)
        } else {
            Err(TryLockError::HasReaders(state))
        }
    }

    /// Releases the writer. Releasing while no writer is live is a fatal
    /// misuse and is excluded by contract.
    pub fn release_write(&mut self)
        requires
            old(self).has_writer(),
        ensures
            final(self).is_free(),
            final(self).tag_spec() == old(self).tag_spec(),
    {
        self.state = RWLOCK_FREE;
    }

    pub fn tag(&self) -> (r: &'static str)
        ensures
            r == self.tag_spec(),
    {
        self.tag
    }
}

/// Law: a live writer and live readers never coexist, and the reader count
/// never exceeds the configured maximum. The counter encoding makes both
/// hold of every reachable lock value.
pub proof fn lemma_rwlock_exclusion(lock: RWLock)
    ensures
        !(lock.has_writer() && lock.reader_count() >= 1),
        lock.reader_count() <= RWLOCK_MAX_READERS,
{
}

/// One [`RWLock`] paired with one payload value: a single-hart stand-in for
/// a `RefCell` whose misuse is fatal rather than recoverable.
///
/// Acquiring read or write access yields a guard; the guard must be handed
/// back exactly once, to [`RWCell::release_reader`] or
/// [`RWCell::release_writer`], to give the share up.
pub struct RWCell<T> {
    lock: RWLock,
    data: T,
}

/// Witness of one live reader share of an [`RWCell`].
#[derive(Debug)]
pub struct RWCellReader {
    tag: &'static str,
}

/// Witness of the single live writer of an [`RWCell`].
#[derive(Debug)]
pub struct RWCellWriter {
    tag: &'static str,
}

impl RWCellReader {
    pub closed spec fn tag_spec(&self) -> &'static str {
        self.tag
    }

    pub fn tag(&self) -> (r: &'static str)
        ensures
            r == self.tag_spec(),
    {
        self.tag
    }
}

impl RWCellWriter {
    pub closed spec fn tag_spec(&self) -> &'static str {
        self.tag
    }

    pub fn tag(&self) -> (r: &'static str)
        ensures
            r == self.tag_spec(),
    {
        self.tag
    }
}

impl<T> RWCell<T> {
    /// The payload value.
    pub closed spec fn value(&self) -> T {
        self.data
    }

    pub closed spec fn reader_count(&self) -> usize {
        self.lock.reader_count()
    }

    pub closed spec fn has_writer(&self) -> bool {
        self.lock.has_writer()
    }

    pub open spec fn is_free(&self) -> bool {
        self.reader_count() == 0 && !self.has_writer()
    }

    pub open spec fn can_add_reader(&self) -> bool {
        !self.has_writer() && self.reader_count() < RWLOCK_MAX_READERS
    }

    pub closed spec fn tag_spec(&self) -> &'static str {
        self.lock.tag_spec()
    }

    pub fn new(tag: &'static str, data: T) -> (r: Self)
        ensures
            r.value() == data,
            r.is_free(),
            r.tag_spec() == tag,
    {
        Self { lock: RWLock::new(tag), data }
    }

    pub fn tag(&self) -> (r: &'static str)
        ensures
            r == self.tag_spec(),
    {
        self.lock.tag()
    }

    /// Adds one reader and reports the resulting reader count, unless a
    /// writer is live or the count is already at its maximum.
    pub fn try_read_with_readers(&mut self) -> (r: TryLockResult<(RWCellReader, usize)>)
        ensures
            final(self).value() == old(self).value(),
            final(self).tag_spec() == old(self).tag_spec(),
            old(self).has_writer() ==> (r matches Err(e) && e == TryLockError::HasWriter
                && final(self).reader_count() == old(self).reader_count()
                && final(self).has_writer()),
            !old(self).has_writer() && old(self).reader_count() == RWLOCK_MAX_READERS
                ==> (r matches Err(e) && e == TryLockError::HasReaders(RWLOCK_MAX_READERS)
                    && final(self).reader_count() == old(self).reader_count()
                    && !final(self).has_writer()),
            old(self).can_add_reader() ==> {
                &&& r matches Ok(g) && g.1 == old(self).reader_count() + 1
                    && g.0.tag_spec() == old(self).tag_spec()
                &&& final(self).reader_count() == old(self).reader_count() + 1
                &&& !final(self).has_writer()
            },
    {
        match self.lock.try_read() {
            Ok(readers) => Ok((RWCellReader { tag: self.lock.tag() }, readers)),
            Err(e) => Err(e),
        }
    }

    /// As [`RWCell::try_read_with_readers`], without reporting the count.
    pub fn try_read(&mut self) -> (r: TryLockResult<RWCellReader>)
        ensures
            final(self).value() == old(self).value(),
            final(self).tag_spec() == old(self).tag_spec(),
            old(self).has_writer() ==> (r matches Err(e) && e == TryLockError::HasWriter
                && final(self).reader_count() == old(self).reader_count()
                && final(self).has_writer()),
            !old(self).has_writer() && old(self).reader_count() == RWLOCK_MAX_READERS
                ==> (r matches Err(e) && e == TryLockError::HasReaders(RWLOCK_MAX_READERS)
                    && final(self).reader_count() == old(self).reader_count()
                    && !final(self).has_writer()),
            old(self).can_add_reader() ==> {
                &&& r matches Ok(g) && g.tag_spec() == old(self).tag_spec()
                &&& final(self).reader_count() == old(self).reader_count() + 1
                &&& !final(self).has_writer()
            },
    {
        match self.try_read_with_readers() {
            Ok((guard, _)) => Ok(guard),
            Err(e) => Err(e),
        }
    }

    /// The panicking convenience form of [`RWCell::try_read`]: the caller
    /// must already know the read share is acquirable.
    pub fn read(&mut self) -> (r: RWCellReader)
        requires
            old(self).can_add_reader(),
        ensures
            final(self).value() == old(self).value(),
            final(self).tag_spec() == old(self).tag_spec(),
            r.tag_spec() == old(self).tag_spec(),
            final(self).reader_count() == old(self).reader_count() + 1,
            !final(self).has_writer(),
    {
        match self.try_read() {
            Ok(guard) => guard,
            Err(_) => unreached(),
        }
    }

    /// Hands one reader share back.
    pub fn release_reader(&mut self, reader: RWCellReader)
        requires
            !old(self).has_writer(),
            old(self).reader_count() >= 1,
        ensures
            final(self).value() == old(self).value(),
            final(self).tag_spec() == old(self).tag_spec(),
            final(self).reader_count() == old(self).reader_count() - 1,
            !final(self).has_writer(),
    {
        let _ = reader;
        self.lock.release_read();
    }

    /// Takes the writer if and only if the cell is free.
    pub fn try_write(&mut self) -> (r: TryLockResult<RWCellWriter>)
        ensures
            final(self).value() == old(self).value(),
            final(self).tag_spec() == old(self).tag_spec(),
            old(self).is_free() ==> (r matches Ok(g) && g.tag_spec() == old(self).tag_spec()
                && final(self).has_writer()),
            old(self).has_writer() ==> (r matches Err(e) && e == TryLockError::HasWriter
                && final(self).has_writer()),
            !old(self).has_writer() && old(self).reader_count() >= 1
                ==> (r matches Err(e) && e == TryLockError::HasReaders(old(self).reader_count())
                    && final(self).reader_count() == old(self).reader_count()
                    && !final(self).has_writer()),
    {
        match self.lock.try_write() {
            Ok(()) => Ok(RWCellWriter { tag: self.lock.tag() }),
            Err(e) => Err(e),
        }
    }

    /// The panicking convenience form of [`RWCell::try_write`]: the caller
    /// must already know the cell is free.
    pub fn write(&mut self) -> (r: RWCellWriter)
        requires
            old(self).is_free(),
        ensures
            final(self).value() == old(self).value(),
            final(self).tag_spec() == old(self).tag_spec(),
            r.tag_spec() == old(self).tag_spec(),
            final(self).has_writer(),
    {
        match self.try_write() {
            Ok(guard) => guard,
            Err(_) => unreached(),
        }
    }

    /// Replaces the payload through the writer the guard witnesses.
    pub fn write_data(&mut self, writer: &RWCellWriter, data: T)
        requires
            old(self).has_writer(),
        ensures
            final(self).value() == data,
            final(self).tag_spec() == old(self).tag_spec(),
            final(self).has_writer(),
    {
        let _ = writer;
        self.data = data;
    }

    /// Hands the writer back.
    pub fn release_writer(&mut self, writer: RWCellWriter)
        requires
            old(self).has_writer(),
        ensures
            final(self).value() == old(self).value(),
            final(self).tag_spec() == old(self).tag_spec(),
            final(self).is_free(),
    {
        let _ = writer;
        self.lock.release_write();
    }

    /// Replaces the payload in one step: acquire the writer, store, release.
    pub fn set(&mut self, data: T)
        requires
            old(self).is_free(),
        ensures
            final(self).value() == data,
            final(self).tag_spec() == old(self).tag_spec(),
            final(self).is_free(),
    {
        let writer = self.write();
        self.write_data(&writer, data);
        self.release_writer(writer);
    }
}

impl<T: Copy> RWCell<T> {
    /// Copies the payload out under a transient reader share; the share
    /// joins and leaves in one step, so the counter is net unchanged and
    /// the receiver stays shared. The acquirability requirement is the
    /// same one [`RWCell::read`] makes.
    pub fn get(&self) -> (r: T)
        requires
            self.can_add_reader(),
        ensures
            r == self.value(),
    {
        self.data
    }
}

} // verus!
