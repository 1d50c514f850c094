//! Blocking waits on the lowest priority thread.
//!
//! A future is polled until it resolves, the thread waiting for an event
//! after each pending poll. A stream is turned into a blocking iterator that
//! stops for good at the end of the stream.

use vstd::prelude::*;

verus! {

/// The next thing a blocking wait does after a poll.
#[derive(Debug, PartialEq, Eq)]
pub enum WaitStep<T> {
    /// Nothing is ready: wait for an event, then poll again.
    Wait,
    /// The wait is over with this value.
    Return(T),
}

/// One poll of a future awaited by `trunk_wait` (`None` while it is
/// pending).
pub fn trunk_wait_step<T>(poll: Option<T>) -> (r: WaitStep<T>)
    ensures
        match poll {
            None => r == WaitStep::<T>::Wait,
            Some(v) => r == WaitStep::Return(v),
        },
{
    match poll {
        None => WaitStep::Wait,
        Some(v) => WaitStep::Return(v),
    }
}

/// A blocking iterator over a stream: it waits for each item, and ends at
/// the end of the stream.
pub struct StreamTrunkWait {
    exhausted: bool,
}

impl StreamTrunkWait {
    /// The stream has ended.
    pub closed spec fn is_exhausted(self) -> bool {
        self.exhausted
    }

    /// Starts iterating over a stream.
    pub fn new() -> (r: StreamTrunkWait)
        ensures
            !r.is_exhausted(),
    {
        StreamTrunkWait { exhausted: false }
    }

    /// Returns `true` if the next item has to be polled from the stream;
    /// `false` once the stream has ended.
    pub fn poll_needed(&self) -> (r: bool)
        ensures
            r == !self.is_exhausted(),
    {
        !self.exhausted
    }

    /// One poll of the stream for the next item (`None` while it is pending,
    /// `Some(None)` at its end).
    ///
    /// An ended stream is not polled again: its iterator returns `None` for
    /// ever.
    pub fn next_step<T>(&mut self, poll: Option<Option<T>>) -> (r: WaitStep<Option<T>>)
        ensures
            old(self).is_exhausted() ==> r == WaitStep::Return(None::<T>)
                && final(self).is_exhausted(),
            !old(self).is_exhausted() ==> match poll {
                None => r == WaitStep::<Option<T>>::Wait && !final(self).is_exhausted(),
                Some(Some(v)) => r == WaitStep::Return(Some(v)) && !final(self).is_exhausted(),
                Some(None) => r == WaitStep::Return(None::<T>) && final(self).is_exhausted(),
            },
    {
        if self.exhausted {
            return WaitStep::Return(None);
        }
        match poll {
            None => WaitStep::Wait,
            Some(Some(v)) => WaitStep::Return(Some(v)),
            Some(None) => {
                self.exhausted = true;
                WaitStep::Return(None)
            },
        }
    }
}

/// One poll of a future of the task API, awaited by `wait`: not ready
/// (`Ok(None)`), resolved (`Ok(Some(v))`) or failed (`Err(e)`).
pub fn future_wait_step<T, E>(poll: Result<Option<T>, E>) -> (r: WaitStep<Result<T, E>>)
    ensures
        match poll {
            Ok(None) => r == WaitStep::<Result<T, E>>::Wait,
            Ok(Some(v)) => r == WaitStep::Return(Ok::<T, E>(v)),
            Err(e) => r == WaitStep::Return(Err::<T, E>(e)),
        },
{
    match poll {
        Ok(None) => WaitStep::Wait,
        Ok(Some(v)) => WaitStep::Return(Ok(v)),
        Err(e) => WaitStep::Return(Err(e)),
    }
}

/// One poll of a stream of the task API, iterated by `wait`: not ready
/// (`Ok(None)`), an item or the end (`Ok(Some(item))`), or failed (`Err(e)`).
pub fn stream_wait_step<T, E>(poll: Result<Option<Option<T>>, E>) -> (r: WaitStep<
    Option<Result<T, E>>,
>)
    ensures
        match poll {
            Ok(None) => r == WaitStep::<Option<Result<T, E>>>::Wait,
            Ok(Some(Some(v))) => r == WaitStep::Return(Some(Ok::<T, E>(v))),
            Ok(Some(None)) => r == WaitStep::Return(None::<Result<T, E>>),
            Err(e) => r == WaitStep::Return(Some(Err::<T, E>(e))),
        },
{
    match poll {
        Ok(None) => WaitStep::Wait,
        Ok(Some(Some(v))) => WaitStep::Return(Some(Ok(v))),
        Ok(Some(None)) => WaitStep::Return(None),
        Err(e) => WaitStep::Return(Some(Err(e))),
    }
}

} // verus!
