use vstd::prelude::*;
use crate::selection::Status;

verus! {

/// How the event pump should wake for the next tick. Derived once per frame
/// from the repaint-delay hint, so the overlay never busy-loops while idle.
#[derive(Debug, Clone, Copy, PartialEq, Eq, Structural)]
pub enum SchedMode {
    /// Leave the event loop: the terminal transition.
    Exit,
    /// Re-tick immediately; the UI is animating every frame.
    Poll,
    /// Sleep until the given instant (nanoseconds on the loop's clock).
    WaitUntil(u64),
    /// Block until the next platform event; nothing is pending.
    Block,
}

/// The scheduling decision as a pure function of the tick's status, the
/// repaint-delay hint (`None` meaning no repaint is pending) and the
/// current time, all in nanoseconds on the loop's clock.
pub open spec fn spec_next_mode(status: Status, repaint_delay: Option<u64>, now: u64) -> SchedMode {
    if status is Quit {
        SchedMode::Exit
    } else {
        match repaint_delay {
            Some(d) => {
                if d == 0 {
                    SchedMode::Poll
                } else if now + d <= u64::MAX {
                    SchedMode::WaitUntil((now + d) as u64)
                } else {
                    SchedMode::Block
                }
            },
            None => SchedMode::Block,
        }
    }
}

/// Derive the wake policy for the next tick: quit exits; a zero delay means
/// an immediate re-tick; a positive delay means sleeping until `now + delay`
/// (blocking instead when that instant is not representable); no delay means
/// blocking until the next platform event.
pub fn next_mode(status: Status, repaint_delay: Option<u64>, now: u64) -> (m: SchedMode)
    ensures
        m == spec_next_mode(status, repaint_delay, now),
{
    if matches!(status, Status::Quit) {
        return SchedMode::Exit;
    }
    match repaint_delay {
        Some(d) => {
            if d == 0 {
                SchedMode::Poll
            } else if now <= u64::MAX - d {
                SchedMode::WaitUntil(now + d)
            } else {
                SchedMode::Block
            }
        },
        None => SchedMode::Block,
    }
}

/// Scheduling monotonicity: while running, a zero delay polls (no wait),
/// and a positive delay `d` never schedules the next tick earlier than
/// `now + d` — it either sleeps until exactly that instant or blocks
/// indefinitely.
pub proof fn lemma_scheduling_monotonic(status: Status, d: u64, now: u64)
    ensures
        status is Running && d == 0 ==> spec_next_mode(status, Some(d), now) is Poll,
        status is Running && d > 0 ==> match spec_next_mode(status, Some(d), now) {
            SchedMode::WaitUntil(t) => t >= now + d,
            SchedMode::Block => true,
            _ => false,
        },
{
}

} // verus!
