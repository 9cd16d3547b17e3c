//! Waiting for the backend's reply without holding a thread: what one look
//! at the socket means for the one who waits.
use vstd::prelude::*;

verus! {

/// What a poll of the read found.
#[derive(Clone, Debug, PartialEq, Eq)]
pub enum ReadPoll {
    /// The reply, as bytes.
    Ready(Vec<u8>),
    /// Nothing yet: the reader is to be woken when the socket has data.
    Pending,
}

/// One read from the backend's socket. It remembers whether a wake-up has
/// been asked for and whether the reply was handed out.
#[derive(Debug)]
pub struct ZmqRead {
    wake_requested: bool,
    done: bool,
}

impl ZmqRead {
    /// A wake-up has been asked for and no reply came since.
    pub closed spec fn wake_requested(&self) -> bool {
        self.wake_requested
    }

    /// The reply has been handed out.
    pub closed spec fn done(&self) -> bool {
        self.done
    }

    /// A read that has not looked at the socket yet.
    pub fn new() -> (r: ZmqRead)
        ensures
            !r.wake_requested(),
            !r.done(),
    {
        ZmqRead { wake_requested: false, done: false }
    }

    /// Whether the caller is to arrange a wake-up.
    pub fn is_waiting(&self) -> (r: bool)
        ensures
            r == self.wake_requested(),
    {
        self.wake_requested
    }

    /// Whether the reply has been handed out.
    pub fn is_done(&self) -> (r: bool)
        ensures
            r == self.done(),
    {
        self.done
    }

    /// One poll. `arrived` is what a look at the socket gave: the message,
    /// or `None` where the socket has no data. A message is handed out as it
    /// came and ends the read; without one the answer is `Pending` and a
    /// wake-up is asked for.
    pub fn poll(&mut self, arrived: Option<Vec<u8>>) -> (r: ReadPoll)
        ensures
            match arrived {
                Some(bytes) => {
                    &&& r == ReadPoll::Ready(bytes)
                    &&& final(self).done()
                    &&& !final(self).wake_requested()
                },
                None => {
                    &&& r == ReadPoll::Pending
                    &&& final(self).wake_requested()
                    &&& final(self).done() == old(self).done()
                },
            },
    {
        match arrived {
            Some(bytes) => {
                self.wake_requested = false;
                self.done = true;
                ReadPoll::Ready(bytes)
            },
            None => {
                self.wake_requested = true;
                ReadPoll::Pending
            },
        }
    }
}

} // verus!
