//! The pacing of a background operation: the caller polls for the one result
//! the worker sends, ticks a progress indicator meanwhile, and hands the result
//! back only once a minimum visible time has passed.
use vstd::prelude::*;

verus! {

/// What a non-blocking look at the worker's channel found.
#[derive(Debug)]
pub enum Poll<T> {
    /// No result yet.
    Pending,
    /// The result.
    Ready(T),
    /// The worker ended without sending a result.
    Disconnected,
}

/// What the caller does next.
#[derive(Debug)]
pub enum Step<T> {
    /// Advance the indicator by one frame, sleep one tick, and step again.
    Wait,
    /// Stop the indicator and return this result.
    Done(T),
    /// Stop the indicator: the worker vanished without a result.
    Fault,
}

/// The held result and the step that follow one step of the pacer. A held
/// result is handed back once `elapsed_ms` reaches the floor; until a result is
/// held the channel is looked at, and later polls are ignored.
pub open spec fn step_spec<T>(held: Option<T>, min_visible_ms: u64, poll: Poll<T>, elapsed_ms: u64) -> (
    Option<T>,
    Step<T>,
) {
    let now_held = match held {
        Some(v) => Some(v),
        None => match poll {
            Poll::Ready(v) => Some(v),
            _ => None,
        },
    };
    match now_held {
        Some(v) => if elapsed_ms >= min_visible_ms {
            (None, Step::Done(v))
        } else {
            (Some(v), Step::Wait)
        },
        None => match poll {
            Poll::Disconnected => (None, Step::Fault),
            _ => (None, Step::Wait),
        },
    }
}

/// The caller's side of one background operation.
pub struct Pacer<T> {
    pub min_visible_ms: u64,
    pub held: Option<T>,
}

impl<T> Pacer<T> {
    /// A pacer with the given floor on the indicator's visible time, holding
    /// no result.
    pub fn new(min_visible_ms: u64) -> (r: Pacer<T>)
        ensures
            r.min_visible_ms == min_visible_ms,
            r.held is None,
    {
        Pacer { min_visible_ms, held: None }
    }

    /// Whether the result has arrived and waits for the floor: the channel
    /// need not be looked at again.
    pub fn has_result(&self) -> (r: bool)
        ensures
            r == self.held is Some,
    {
        self.held.is_some()
    }

    /// One step, given what the channel showed and the time since dispatch.
    pub fn step(&mut self, poll: Poll<T>, elapsed_ms: u64) -> (r: Step<T>)
        ensures
            (final(self).held, r) == step_spec(old(self).held, old(self).min_visible_ms, poll, elapsed_ms),
            final(self).min_visible_ms == old(self).min_visible_ms,
    {
        let held = self.held.take();
        let now_held = match held {
            Some(v) => Some(v),
            None => match poll {
                Poll::Ready(v) => Some(v),
                Poll::Pending => None,
                Poll::Disconnected => {
                    return Step::Fault;
                },
            },
        };
        match now_held {
            Some(v) => {
                if elapsed_ms >= self.min_visible_ms {
                    Step::Done(v)
                } else {
                    self.held = Some(v);
                    Step::Wait
                }
            },
            None => Step::Wait,
        }
    }
}

/// A step hands back a result only once the floor has passed, and the result
/// handed back is the one that was held or that just arrived, unchanged.
pub proof fn result_is_unchanged_and_not_early<T>(
    held: Option<T>,
    min_visible_ms: u64,
    poll: Poll<T>,
    elapsed_ms: u64,
)
    ensures
        step_spec(held, min_visible_ms, poll, elapsed_ms).1 is Done ==> elapsed_ms >= min_visible_ms,
        step_spec(held, min_visible_ms, poll, elapsed_ms).1 is Done ==> (match held {
            Some(v) => step_spec(held, min_visible_ms, poll, elapsed_ms).1 == Step::Done(v),
            None => poll is Ready && step_spec(held, min_visible_ms, poll, elapsed_ms).1
                == Step::Done(poll->Ready_0),
        }),
        held is Some && elapsed_ms >= min_visible_ms ==> step_spec(
            held,
            min_visible_ms,
            poll,
            elapsed_ms,
        ).1 == Step::Done(held->Some_0),
{
}

/// While the operation has not completed, every step waits and holds nothing,
/// however much time has passed: the caller keeps polling.
pub proof fn pending_keeps_polling<T>(min_visible_ms: u64, elapsed_ms: u64)
    ensures
        step_spec(None::<T>, min_visible_ms, Poll::Pending, elapsed_ms) == (None::<T>, Step::<T>::Wait),
{
}

} // verus!
