//! Progress reporting: the event record handed to the caller and
//! the rate limiter that keeps the UI thread from flooding.

use vstd::prelude::*;

verus! {

/// One progress notification: the stage it comes from (`download`
/// or `unzip`), the amount transferred so far and the total.
#[derive(Debug, Clone, PartialEq, Eq)]
pub struct ProgressData {
    pub source: String,
    pub transferred: usize,
    pub total: usize,
}

impl View for ProgressData {
    type V = (Seq<char>, int, int);

    open spec fn view(&self) -> (Seq<char>, int, int) {
        (self.source@, self.transferred as int, self.total as int)
    }
}

/// A leading-edge rate limiter: lets one notification through, then
/// holds the rest of its interval back.
#[derive(Debug, Clone, Copy, PartialEq, Eq, Structural)]
pub struct Debouncer {
    pub duration_ms: u64,
    pub last_emit_ms: u64,
}

impl Debouncer {
    /// A limiter with the given interval that lets the first
    /// notification through.
    pub fn new(duration_ms: u64) -> (r: Self)
        ensures
            r.duration_ms == duration_ms,
            r.last_emit_ms == 0,
    {
        Debouncer { duration_ms, last_emit_ms: 0 }
    }

    /// Whether a notification at `now_ms` may go out: true exactly
    /// when a full interval has passed since the last one let
    /// through, in which case the clock of the last emission moves
    /// to `now_ms`.
    pub fn should_emit(&mut self, now_ms: u64) -> (r: bool)
        ensures
            r == (old(self).last_emit_ms + old(self).duration_ms <= now_ms),
            final(self).duration_ms == old(self).duration_ms,
            final(self).last_emit_ms == if r {
                now_ms
            } else {
                old(self).last_emit_ms
            },
    {
        let due = match self.last_emit_ms.checked_add(self.duration_ms) {
            Some(next) => next <= now_ms,
            None => false,
        };
        if due {
            self.last_emit_ms = now_ms;
        }
        due
    }
}

} // verus!
