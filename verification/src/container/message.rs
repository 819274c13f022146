//! A message under a lock: writers and readers take the lock for the whole of
//! their work, and wait for one another on two condition variables.
use crate::primitives::condvar::{CondvarWait, SharedCondvar};
use crate::primitives::shared_futex::{SharedFutex, UNLOCKED};
use vstd::prelude::*;
use vstd::slice::{slice_subrange, slice_to_vec};

verus! {

/// The bit of the version word that says that the message is stopped; the
/// others are the version.
pub const STOPPED_BIT: u64 = 0x8000_0000_0000_0000;

/// What the version word says.
#[derive(Clone, Copy, PartialEq, Eq, Structural, Debug)]
pub struct StoppedAndVersion {
    pub stopped: bool,
    pub version: u64,
}

impl StoppedAndVersion {
    pub open spec fn of(word: u64) -> StoppedAndVersion {
        StoppedAndVersion {
            stopped: word >= STOPPED_BIT,
            version: (word % STOPPED_BIT) as u64,
        }
    }
}

/// The version word after `word`: the version counts up, and from the largest
/// back to 0, so that it does not run into the bit for stopping.
pub open spec fn incremented(word: u64) -> u64 {
    if word == STOPPED_BIT - 1 {
        0
    } else {
        (word + 1) as u64
    }
}

/// A message that was read.
#[derive(PartialEq, Eq, Debug)]
pub struct Received {
    pub version: u64,
    pub data: Vec<u8>,
}

/// One turn of something that may have to wait.
#[derive(PartialEq, Eq, Debug)]
pub enum Turn<T> {
    Finished(T),
    /// The lock was given back. The caller sleeps on the condition variable,
    /// and comes again.
    Waiting(CondvarWait),
}

/// What the shared memory of a message holds, and how many sleepers are to be
/// woken on its condition variables.
#[verifier::ext_equal]
pub struct Message {
    pub word: u64,
    pub write_condvar: u32,
    pub read_condvar: u32,
    pub lock: u32,
    pub consumer_count: u32,
    pub read_count: u32,
    pub size: usize,
    pub payload: Seq<u8>,
    pub readers_to_wake: u32,
    pub writers_to_wake: u32,
}

impl Message {
    pub open spec fn zeroed(capacity: nat) -> Message {
        Message {
            word: 0,
            write_condvar: 0,
            read_condvar: 0,
            lock: UNLOCKED,
            consumer_count: 0,
            read_count: 0,
            size: 0,
            payload: Seq::new(capacity, |i: int| 0u8),
            readers_to_wake: 0,
            writers_to_wake: 0,
        }
    }

    pub open spec fn wf(self) -> bool {
        self.size <= self.payload.len()
    }

    pub open spec fn stopped(self) -> bool {
        StoppedAndVersion::of(self.word).stopped
    }

    pub open spec fn version(self) -> u64 {
        StoppedAndVersion::of(self.word).version
    }

    /// The bytes of the current version.
    pub open spec fn data(self) -> Seq<u8> {
        self.payload.take(self.size as int)
    }

    /// With `data` as the next version, which nobody has read yet.
    pub open spec fn published(self, data: Seq<u8>) -> Message {
        Message {
            word: incremented(self.word),
            read_count: 0,
            size: data.len() as usize,
            payload: data + self.payload.skip(data.len() as int),
            readers_to_wake: u32::MAX,
            ..self
        }
    }

    /// After one more reader has read the current version.
    pub open spec fn consumed(self) -> Message {
        Message { read_count: (self.read_count + 1) as u32, writers_to_wake: u32::MAX, ..self }
    }

    pub open spec fn with_consumers(self, consumer_count: u32) -> Message {
        Message { consumer_count, writers_to_wake: u32::MAX, ..self }
    }

    pub open spec fn halted(self) -> Message {
        Message {
            word: if self.stopped() {
                self.word
            } else {
                (self.word + STOPPED_BIT) as u64
            },
            readers_to_wake: u32::MAX,
            writers_to_wake: u32::MAX,
            ..self
        }
    }

    /// Whether a writer that waits for `wait_for` readers, or for all if they
    /// are fewer, has to go on waiting: not before the first version, nor once
    /// the message is stopped.
    pub open spec fn writer_waits(self, wait_for: u32) -> bool {
        !self.stopped() && self.version() != 0 && self.read_count < wait_for && self.read_count
            < self.consumer_count
    }

    /// Whether a reader that has seen `current_version` has to go on waiting.
    pub open spec fn reader_waits(self, current_version: u64) -> bool {
        !self.stopped() && self.version() == current_version
    }
}

/// What the lock protects.
#[derive(Debug)]
pub struct SharedMessageData {
    consumer_count: u32,
    read_count: u32,
    size: usize,
    payload: Vec<u8>,
}

impl SharedMessageData {
    /// Puts `data` into the payload, unread.
    #[inline]
    fn copy(&mut self, data: &[u8])
        requires
            data.len() <= old(self).payload.len(),
        ensures
            final(self).consumer_count == old(self).consumer_count,
            final(self).read_count == 0,
            final(self).size == data.len(),
            final(self).payload@ == data@ + old(self).payload@.skip(data.len() as int),
    {
        let data_len: usize = data.len();
        self.read_count = 0;
        self.size = data_len;
        let mut i: usize = 0;
        while i < data_len
            invariant
                i <= data_len == data.len(),
                data_len <= self.payload.len() == old(self).payload.len(),
                self.consumer_count == old(self).consumer_count,
                self.read_count == 0,
                self.size == data_len,
                self.payload@ == data@.take(i as int) + old(self).payload@.skip(i as int),
            decreases data_len - i,
        {
            self.payload.set(i, data[i]);
            i = i + 1;
            assert(self.payload@ =~= data@.take(i as int) + old(self).payload@.skip(i as int));
        }
        assert(data@.take(data_len as int) =~= data@);
    }
}

/// A message that all who hold its lock may write and read.
#[derive(Debug)]
pub struct SharedMessage {
    stopped_and_version: u64,
    write_condvar: SharedCondvar,
    read_condvar: SharedCondvar,
    lock: SharedFutex,
    data: SharedMessageData,
    readers_to_wake: u32,
    writers_to_wake: u32,
}

impl View for SharedMessage {
    type V = Message;

    closed spec fn view(&self) -> Message {
        Message {
            word: self.stopped_and_version,
            write_condvar: self.write_condvar@,
            read_condvar: self.read_condvar@,
            lock: self.lock@,
            consumer_count: self.data.consumer_count,
            read_count: self.data.read_count,
            size: self.data.size,
            payload: self.data.payload@,
            readers_to_wake: self.readers_to_wake,
            writers_to_wake: self.writers_to_wake,
        }
    }
}

impl SharedMessage {
    pub fn zeroed(payload_size: usize) -> (message: Self)
        ensures
            message@ == Message::zeroed(payload_size as nat),
            message@.wf(),
    {
        let payload = vec![0u8; payload_size];
        let message = SharedMessage {
            stopped_and_version: 0,
            write_condvar: SharedCondvar::default(),
            read_condvar: SharedCondvar::default(),
            lock: SharedFutex::default(),
            data: SharedMessageData { consumer_count: 0, read_count: 0, size: 0, payload },
            readers_to_wake: 0,
            writers_to_wake: 0,
        };
        assert(message@.payload =~= Message::zeroed(payload_size as nat).payload);
        message
    }

    /// Publishes `data` as the next version; `None` once the message is
    /// stopped.
    pub fn write(&mut self, data: &[u8]) -> (version: Option<u64>)
        requires
            old(self)@.wf(),
            old(self)@.lock == UNLOCKED,
            !old(self)@.stopped() ==> data.len() <= old(self)@.payload.len(),
        ensures
            final(self)@.wf(),
            old(self)@.stopped() ==> version is None && final(self)@ == old(self)@,
            !old(self)@.stopped() ==> final(self)@ == old(self)@.published(data@) && version
                == Some(final(self)@.version()),
    {
        if self.get_version().stopped {
            return None;
        }
        let _ = self.lock.lock(false);
        let new_version: u64 = self.publish(data);
        let _ = self.lock.unlock();
        Some(new_version)
    }

    /// As `write`, once as many readers as it waits for have read the current
    /// version.
    pub fn write_waiting_for_readers(&mut self, data: &[u8], wait_for: u32) -> (turn: Turn<
        Option<u64>,
    >)
        requires
            old(self)@.wf(),
            old(self)@.lock == UNLOCKED,
            !old(self)@.stopped() ==> data.len() <= old(self)@.payload.len(),
        ensures
            final(self)@.wf(),
            old(self)@.writer_waits(wait_for) ==> final(self)@ == old(self)@ && turn
                == Turn::<Option<u64>>::Waiting(
                CondvarWait { expected: old(self)@.read_condvar, wake_locker: false },
            ),
            old(self)@.stopped() ==> final(self)@ == old(self)@ && turn
                == Turn::<Option<u64>>::Finished(None),
            !old(self)@.stopped() && !old(self)@.writer_waits(wait_for) ==> final(self)@ == old(
                self,
            )@.published(data@) && turn == Turn::Finished(Some(final(self)@.version())),
    {
        let _ = self.lock.lock(false);
        let status = self.get_version();
        let waits = !status.stopped && status.version != 0 && self.data.read_count < wait_for
            && self.data.read_count < self.data.consumer_count;
        if waits {
            let wait = self.read_condvar.wait(&mut self.lock);
            return Turn::Waiting(wait);
        }
        if status.stopped {
            let _ = self.lock.unlock();
            return Turn::Finished(None);
        }
        let new_version: u64 = self.publish(data);
        let _ = self.lock.unlock();
        Turn::Finished(Some(new_version))
    }

    /// Puts in the next version, for a writer that has the lock. Between the
    /// look of `write` at the stop and its lock the message may be stopped: it
    /// still publishes, and what it returns has the bit for that.
    pub fn publish(&mut self, data: &[u8]) -> (version: u64)
        requires
            old(self)@.word < u64::MAX,
            data.len() <= old(self)@.payload.len(),
        ensures
            final(self)@ == old(self)@.published(data@),
            version == final(self)@.word,
    {
        let new_version: u64 = self.increment_version();
        self.data.copy(data);
        self.readers_to_wake = self.write_condvar.notify_all();
        new_version
    }

    /// The current version, if it is another than `current_version`.
    pub fn try_read(&mut self, current_version: u64) -> (received: Option<Received>)
        requires
            old(self)@.wf(),
            old(self)@.lock == UNLOCKED,
            old(self)@.version() != current_version ==> old(self)@.read_count < u32::MAX,
        ensures
            final(self)@.wf(),
            received is None <==> old(self)@.version() == current_version,
            received is None ==> final(self)@ == old(self)@,
            received matches Some(message) ==> {
                &&& message.version == old(self)@.version()
                &&& message.data@ == old(self)@.data()
                &&& final(self)@ == old(self)@.consumed()
            },
    {
        if current_version == self.get_version().version {
            return None;
        }
        let _ = self.lock.lock(false);
        let version: u64 = self.get_version().version;
        let message = self.consume(version);
        let _ = self.lock.unlock();
        Some(message)
    }

    /// As `try_read`, but waits for another version, or for the stop.
    pub fn blocking_read(&mut self, current_version: u64) -> (turn: Turn<Option<Received>>)
        requires
            old(self)@.wf(),
            old(self)@.lock == UNLOCKED,
            old(self)@.version() != current_version ==> old(self)@.read_count < u32::MAX,
        ensures
            final(self)@.wf(),
            old(self)@.reader_waits(current_version) ==> final(self)@ == old(self)@ && turn
                == Turn::<Option<Received>>::Waiting(
                CondvarWait { expected: old(self)@.write_condvar, wake_locker: false },
            ),
            !old(self)@.reader_waits(current_version) && old(self)@.version() == current_version
                ==> final(self)@ == old(self)@ && turn == Turn::<Option<Received>>::Finished(None),
            old(self)@.version() != current_version ==> {
                &&& turn matches Turn::Finished(Some(message))
                &&& message.version == old(self)@.version()
                &&& message.data@ == old(self)@.data()
                &&& final(self)@ == old(self)@.consumed()
            },
    {
        let _ = self.lock.lock(false);
        let status = self.get_version();
        if !status.stopped && status.version == current_version {
            let wait = self.write_condvar.wait(&mut self.lock);
            return Turn::Waiting(wait);
        }
        if status.version == current_version {
            let _ = self.lock.unlock();
            return Turn::Finished(None);
        }
        let message = self.consume(status.version);
        let _ = self.lock.unlock();
        Turn::Finished(Some(message))
    }

    /// Reads the current version, for a reader that has the lock.
    fn consume(&mut self, version: u64) -> (message: Received)
        requires
            old(self)@.wf(),
            old(self)@.read_count < u32::MAX,
        ensures
            message.version == version,
            message.data@ == old(self)@.data(),
            final(self)@ == old(self)@.consumed(),
    {
        let data = slice_to_vec(
            slice_subrange(self.data.payload.as_slice(), 0, self.data.size),
        );
        self.data.read_count = self.data.read_count + 1;
        self.writers_to_wake = self.read_condvar.notify_all();
        Received { version, data }
    }

    pub fn is_new_version_available(&self, current_version: u64) -> (available: bool)
        ensures
            available == (self@.version() != current_version),
    {
        self.get_version().version != current_version
    }

    pub fn add_reader(&mut self)
        requires
            old(self)@.lock == UNLOCKED,
            old(self)@.consumer_count < u32::MAX,
        ensures
            final(self)@ == old(self)@.with_consumers((old(self)@.consumer_count + 1) as u32),
    {
        let _ = self.lock.lock(false);
        self.data.consumer_count = self.data.consumer_count + 1;
        self.writers_to_wake = self.read_condvar.notify_all();
        let _ = self.lock.unlock();
    }

    pub fn remove_reader(&mut self)
        requires
            old(self)@.lock == UNLOCKED,
            old(self)@.consumer_count > 0,
        ensures
            final(self)@ == old(self)@.with_consumers((old(self)@.consumer_count - 1) as u32),
    {
        let _ = self.lock.lock(false);
        self.data.consumer_count = self.data.consumer_count - 1;
        self.writers_to_wake = self.read_condvar.notify_all();
        let _ = self.lock.unlock();
    }

    pub fn is_stopped(&self) -> (stopped: bool)
        ensures
            stopped == self@.stopped(),
    {
        self.get_version().stopped
    }

    /// Stops the message for good: nobody writes it any more, and nobody
    /// waits for it.
    pub fn stop(&mut self)
        requires
            old(self)@.lock == UNLOCKED,
        ensures
            final(self)@ == old(self)@.halted(),
    {
        let _ = self.lock.lock(false);
        let word: u64 = self.stopped_and_version;
        assert(word < STOPPED_BIT ==> word | STOPPED_BIT == word + STOPPED_BIT) by (bit_vector);
        assert(word >= STOPPED_BIT ==> word | STOPPED_BIT == word) by (bit_vector);
        self.stopped_and_version = word | STOPPED_BIT;
        let _ = self.lock.unlock();
        self.readers_to_wake = self.write_condvar.notify_all();
        self.writers_to_wake = self.read_condvar.notify_all();
    }

    /// How many sleepers are to be woken on the condition variables of the
    /// readers and of the writers since the last call.
    pub fn take_wakeups(&mut self) -> (wake: (u32, u32))
        ensures
            wake.0 == old(self)@.readers_to_wake,
            wake.1 == old(self)@.writers_to_wake,
            final(self)@ == (Message { readers_to_wake: 0, writers_to_wake: 0, ..old(self)@ }),
    {
        let wake = (self.readers_to_wake, self.writers_to_wake);
        self.readers_to_wake = 0;
        self.writers_to_wake = 0;
        wake
    }

    #[inline]
    pub fn get_version(&self) -> (status: StoppedAndVersion)
        ensures
            status == StoppedAndVersion::of(self@.word),
    {
        let word: u64 = self.stopped_and_version;
        proof {
            assert(word & STOPPED_BIT != 0 <==> word >= STOPPED_BIT) by (bit_vector);
            assert(word & !STOPPED_BIT == word % STOPPED_BIT) by (bit_vector);
        }
        let stopped = (word & STOPPED_BIT) != 0;
        let version: u64 = word & !STOPPED_BIT;
        StoppedAndVersion { stopped, version }
    }

    /// Counts the version up, for a writer that has the lock.
    fn increment_version(&mut self) -> (version: u64)
        requires
            old(self)@.word < u64::MAX,
        ensures
            final(self)@ == (Message { word: incremented(old(self)@.word), ..old(self)@ }),
            version == final(self)@.word,
    {
        let old_version: u64 = self.stopped_and_version;
        let new_version: u64 = old_version + 1;
        proof {
            assert((old_version & STOPPED_BIT) != (new_version & STOPPED_BIT) <==> new_version
                == STOPPED_BIT) by (bit_vector)
                requires
                    new_version == old_version + 1,
            ;
        }
        if (old_version & STOPPED_BIT) != (new_version & STOPPED_BIT) {
            self.stopped_and_version = 0;
            0
        } else {
            self.stopped_and_version = new_version;
            new_version
        }
    }
}

} // verus!
