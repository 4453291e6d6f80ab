//! Decisions of the wait thread, which wakes the loop at a requested instant.
//!
//! The thread holds at most one deadline. A newer wake-at request replaces
//! the pending one; a cancel drops it. Native waits tend to overshoot, so the
//! thread sleeps one millisecond less than the time left and fires on the
//! next round once the deadline has passed, rather than spinning.

use vstd::prelude::*;

verus! {

/// The timeout that stands for "never time out".
pub const INFINITE: u32 = 0xFFFF_FFFF;

/// Nanoseconds in a millisecond.
pub const NANOS_PER_MILLI: u64 = 1_000_000;

/// A span of nanoseconds in whole milliseconds, rounded up; a span longer
/// than the largest timeout becomes [`INFINITE`].
pub open spec fn timeout_millis(nanos: u64) -> u32 {
    let ms = (nanos as int) / (NANOS_PER_MILLI as int) + if (nanos as int) % (NANOS_PER_MILLI as int) > 0 {
        1int
    } else {
        0int
    };
    if ms > u32::MAX as int {
        INFINITE
    } else {
        ms as u32
    }
}

/// Converts a span of nanoseconds into a native timeout in milliseconds:
/// a fraction of a millisecond is rounded up, and a span of more than
/// `u32::MAX` milliseconds becomes [`INFINITE`].
pub fn dur2timeout(nanos: u64) -> (r: u32)
    ensures
        r == timeout_millis(nanos),
{
    let whole: u64 = nanos / NANOS_PER_MILLI;
    let ms: u64 = if nanos % NANOS_PER_MILLI > 0 { whole + 1 } else { whole };
    if ms > u32::MAX as u64 {
        INFINITE
    } else {
        ms as u32
    }
}

/// A message that reaches the wait thread.
#[derive(Clone, Copy, Debug, PartialEq, Eq, Structural)]
pub enum WaitMessage {
    /// Wake the loop at the given instant.
    WaitUntil(u64),
    /// Drop the pending deadline.
    Cancel,
    /// Any other message.
    Other,
}

/// What the wait thread does next.
#[derive(Clone, Copy, Debug, PartialEq, Eq, Structural)]
pub enum WaitAction {
    /// Block until the next message: no deadline is pending.
    WaitForMessage,
    /// Wait for a message for at most the given number of milliseconds;
    /// if none comes, the deadline fires.
    Sleep(u32),
    /// Post the process-new-events message to the loop now.
    Fire,
}

/// The deadline that the wait thread holds.
#[derive(Clone, Copy, Debug, PartialEq, Eq, Structural)]
pub struct WaitThreadState {
    pub wait_until: Option<u64>,
}

/// The deadline after a message: a request replaces it, a cancel drops it.
pub open spec fn after_message(wait_until: Option<u64>, msg: WaitMessage) -> Option<u64> {
    match msg {
        WaitMessage::WaitUntil(t) => Some(t),
        WaitMessage::Cancel => None,
        WaitMessage::Other => wait_until,
    }
}

/// What to do at `now` with the deadline held.
pub open spec fn action_at(wait_until: Option<u64>, now: u64) -> WaitAction {
    match wait_until {
        None => WaitAction::WaitForMessage,
        Some(t) => if now < t {
            WaitAction::Sleep(sub_one(timeout_millis((t - now) as u64)))
        } else {
            WaitAction::Fire
        },
    }
}

/// `ms - 1`, or 0 for 0.
pub open spec fn sub_one(ms: u32) -> u32 {
    if ms == 0 {
        0
    } else {
        (ms - 1) as u32
    }
}

impl WaitThreadState {
    /// A wait thread with no deadline.
    pub fn new() -> (r: Self)
        ensures
            r.wait_until is None,
    {
        WaitThreadState { wait_until: None }
    }

    /// Whether a deadline is pending.
    pub fn is_armed(&self) -> (r: bool)
        ensures
            r == self.wait_until is Some,
    {
        self.wait_until.is_some()
    }

    /// Takes in a message.
    pub fn receive(&mut self, msg: WaitMessage)
        ensures
            final(self).wait_until == after_message(old(self).wait_until, msg),
    {
        match msg {
            WaitMessage::WaitUntil(t) => {
                self.wait_until = Some(t);
            },
            WaitMessage::Cancel => {
                self.wait_until = None;
            },
            WaitMessage::Other => {},
        }
    }

    /// Decides what to do at `now`. A deadline that has passed fires and is
    /// dropped; one still ahead is waited for one millisecond short.
    pub fn next_action(&mut self, now: u64) -> (r: WaitAction)
        ensures
            r == action_at(old(self).wait_until, now),
            r == WaitAction::Fire ==> final(self).wait_until is None,
            r != WaitAction::Fire ==> final(self).wait_until == old(self).wait_until,
    {
        match self.wait_until {
            None => WaitAction::WaitForMessage,
            Some(t) => {
                if now < t {
                    let ms = dur2timeout(t - now);
                    WaitAction::Sleep(if ms == 0 { 0 } else { ms - 1 })
                } else {
                    self.wait_until = None;
                    WaitAction::Fire
                }
            },
        }
    }

    /// The wait ran out with no message: the deadline fires and is dropped.
    pub fn timed_out(&mut self) -> (r: WaitAction)
        ensures
            old(self).wait_until is Some ==> r == WaitAction::Fire,
            old(self).wait_until is None ==> r == WaitAction::WaitForMessage,
            final(self).wait_until is None,
    {
        if self.wait_until.is_some() {
            self.wait_until = None;
            WaitAction::Fire
        } else {
            WaitAction::WaitForMessage
        }
    }
}

/// A cancel that reaches a wait thread with no deadline changes nothing,
/// and the thread goes on blocking for the next message.
pub proof fn lemma_cancel_when_idle(now: u64)
    ensures
        after_message(None, WaitMessage::Cancel) == None::<u64>,
        action_at(after_message(None, WaitMessage::Cancel), now) == WaitAction::WaitForMessage,
{
}

/// A newer request replaces the pending deadline: no deadlines queue up.
pub proof fn lemma_request_replaces(wait_until: Option<u64>, t: u64)
    ensures
        after_message(wait_until, WaitMessage::WaitUntil(t)) == Some(t),
{
}

} // verus!
