use vstd::prelude::*;

verus! {

/// The mode of an interruptible reader.
#[derive(Clone, Copy, Debug, PartialEq, Eq, Structural)]
pub enum ReaderMode {
    /// Reads give end-of-file after this many milliseconds without data.
    Timeout(u64),
    /// Reads block until there is data.
    NoTimeout,
    /// Reads give end-of-file at once.
    Closed,
}

/// The mode of an interruptible writer.
#[derive(Clone, Copy, Debug, PartialEq, Eq, Structural)]
pub enum WriterMode {
    Open,
    /// Writes are discarded.
    Closed,
}

/// What a blocked read does next.
#[derive(Clone, Copy, Debug, PartialEq, Eq, Structural)]
pub enum ReadStep {
    /// Give end-of-file.
    Eof,
    /// Wait until the wake-up pipe or the data descriptor is readable, for
    /// at most this many milliseconds if given.
    Wait(Option<u64>),
}

/// What a read does after its wait returned.
#[derive(Clone, Copy, Debug, PartialEq, Eq, Structural)]
pub struct AfterWait {
    /// Drain the wake-up pipe.
    pub drain: bool,
    pub next: Next,
}

/// How a read or write goes on after its wait returned.
#[derive(Clone, Copy, Debug, PartialEq, Eq, Structural)]
pub enum Next {
    /// Perform the read or write on the data descriptor.
    Transfer,
    /// Give end-of-file: the timeout expired.
    Eof,
    /// Look at the mode again and wait again.
    Retry,
}

/// The mode after `close`: closed, for good.
pub open spec fn closed_reader(m: ReaderMode) -> (ReaderMode, bool) {
    (ReaderMode::Closed, !(m is Closed))
}

/// The mode after `set_timeout(ms)`: unchanged once closed.
pub open spec fn timed_reader(m: ReaderMode, ms: u64) -> (ReaderMode, bool) {
    if m is Closed {
        (m, false)
    } else {
        (ReaderMode::Timeout(ms), true)
    }
}

/// Close a reader. The result says whether the mode changed, in which case
/// the caller writes one byte to the wake-up pipe.
pub fn close_reader(m: &mut ReaderMode) -> (wake: bool)
    ensures
        (*final(m), wake) == closed_reader(*old(m)),
{
    if *m == ReaderMode::Closed {
        return false;
    }
    *m = ReaderMode::Closed;
    true
}

/// Set a reader's timeout. The result says whether the mode changed, in
/// which case the caller writes one byte to the wake-up pipe.
pub fn set_reader_timeout(m: &mut ReaderMode, ms: u64) -> (wake: bool)
    ensures
        (*final(m), wake) == timed_reader(*old(m), ms),
{
    if *m == ReaderMode::Closed {
        return false;
    }
    *m = ReaderMode::Timeout(ms);
    true
}

/// Close a writer. The result says whether the mode changed, in which case
/// the caller writes one byte to the wake-up pipe.
pub fn close_writer(m: &mut WriterMode) -> (wake: bool)
    ensures
        *final(m) == WriterMode::Closed,
        wake == (*old(m) == WriterMode::Open),
{
    if *m == WriterMode::Closed {
        return false;
    }
    *m = WriterMode::Closed;
    true
}

/// How a read begins in the given mode.
pub fn read_step(m: ReaderMode) -> (r: ReadStep)
    ensures
        r == match m {
            ReaderMode::Timeout(ms) => ReadStep::Wait(Some(ms)),
            ReaderMode::NoTimeout => ReadStep::Wait(None),
            ReaderMode::Closed => ReadStep::Eof,
        },
{
    match m {
        ReaderMode::Timeout(ms) => ReadStep::Wait(Some(ms)),
        ReaderMode::NoTimeout => ReadStep::Wait(None),
        ReaderMode::Closed => ReadStep::Eof,
    }
}

/// Whether a write in the given mode discards its data at once: a closed
/// writer does; an open one waits until the descriptor is writable.
pub fn write_discards(m: WriterMode) -> (r: bool)
    ensures
        r == (m == WriterMode::Closed),
{
    match m {
        WriterMode::Closed => true,
        WriterMode::Open => false,
    }
}

/// How a read goes on once its wait returned: the wake-up pipe is drained
/// when it fired; data is read when the descriptor is ready; end-of-file
/// when a timed wait saw nothing; otherwise the read starts over.
pub fn after_read_wait(timed: bool, pipe_ready: bool, data_ready: bool) -> (r: AfterWait)
    ensures
        r.drain == pipe_ready,
        r.next == if data_ready {
            Next::Transfer
        } else if !pipe_ready && timed {
            Next::Eof
        } else {
            Next::Retry
        },
{
    let next = if data_ready {
        Next::Transfer
    } else if !pipe_ready && timed {
        Next::Eof
    } else {
        Next::Retry
    };
    AfterWait { drain: pipe_ready, next }
}

/// How a write goes on once its wait returned: the wake-up pipe is drained
/// when it fired; the data is written when the descriptor is ready;
/// otherwise the write starts over.
pub fn after_write_wait(pipe_ready: bool, data_ready: bool) -> (r: AfterWait)
    ensures
        r.drain == pipe_ready,
        r.next == if data_ready {
            Next::Transfer
        } else {
            Next::Retry
        },
{
    AfterWait {
        drain: pipe_ready,
        next: if data_ready {
            Next::Transfer
        } else {
            Next::Retry
        },
    }
}

/// Modes only move toward closed: a closed reader stays closed whatever is
/// asked of it, and every change of mode wakes the blocked reader.
pub proof fn lemma_reader_closed_for_good(m: ReaderMode, ms: u64)
    ensures
        closed_reader(m).0 is Closed,
        m is Closed ==> timed_reader(m, ms) == (m, false),
        closed_reader(m).1 == (closed_reader(m).0 != m),
        timed_reader(m, ms).1 == (timed_reader(m, ms).0 != m || !(m is Closed)),
{
}

} // verus!
