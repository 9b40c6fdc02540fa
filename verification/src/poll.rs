//! When to poll the network interface again.
use vstd::prelude::*;

verus! {

/// What to do once the interface has said when it next wants a poll.
#[derive(Debug, Clone, Copy, PartialEq, Eq, Structural)]
pub enum PollAction {
    /// Poll now.
    Now,
    /// The poll is due at this time (in microseconds); a timer is to poll
    /// then.
    Later(u64),
    /// No socket waits for a poll.
    Idle,
}

/// The action for an advised delay `delay` (microseconds, none where no
/// socket waits) counted from the poll at `timestamp`, at time `now`: poll
/// now where the delay is zero or the poll is overdue.
pub open spec fn poll_action(delay: Option<u64>, timestamp: u64, now: u64) -> PollAction {
    match delay {
        None => PollAction::Idle,
        Some(d) => if d == 0 || d + timestamp < now {
            PollAction::Now
        } else {
            PollAction::Later((d + timestamp) as u64)
        },
    }
}

/// Decides whether to poll the interface again, from the advised delay
/// after the poll at `timestamp` and the current time `now`.
pub fn check_poll_action(delay: Option<u64>, timestamp: u64, now: u64) -> (r: PollAction)
    requires
        delay matches Some(d) ==> d + timestamp <= u64::MAX,
    ensures
        r == poll_action(delay, timestamp, now),
{
    match delay {
        None => PollAction::Idle,
        Some(d) => {
            if d == 0 {
                return PollAction::Now;
            }
            let next_poll = d + timestamp;
            if next_poll < now {
                PollAction::Now
            } else {
                PollAction::Later(next_poll)
            }
        },
    }
}

} // verus!
