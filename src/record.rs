//! The decisions of a recording session: each key press marks a moment,
//! and the enter key ends the session.
use vstd::prelude::*;

verus! {

/// A recording in progress. Times are milliseconds on one clock.
pub struct Recorder {
    /// When the session started.
    pub start: i64,
    /// When the last moment was marked (the start, before any).
    pub prev: i64,
    /// The time between each marked moment and the one before it.
    pub offsets: Vec<i64>,
}

/// What the session does after an event.
#[derive(PartialEq, Eq, Structural, Clone, Copy, Debug)]
pub enum Step {
    /// Wait for the next key.
    Continue,
    /// The session is over.
    Stop,
}

impl Recorder {
    /// A session that started at `start`, with no moment marked.
    pub fn new(start: i64) -> (r: Self)
        ensures
            r.start == start,
            r.prev == start,
            r.offsets@ == Seq::<i64>::empty(),
    {
        Recorder { start, prev: start, offsets: Vec::new() }
    }

    /// Handles a key read at time `now`: the enter key ends the session;
    /// any other key, or a failed read, marks a moment at `now`.
    pub fn on_key(&mut self, enter: bool, now: i64) -> (r: Step)
        requires
            i64::MIN <= now - old(self).prev <= i64::MAX,
        ensures
            enter ==> r == Step::Stop && *final(self) == *old(self),
            !enter ==> r == Step::Continue && final(self).start == old(self).start
                && final(self).prev == now && final(self).offsets@ == old(self).offsets@.push(
                (now - old(self).prev) as i64,
            ),
    {
        if enter {
            Step::Stop
        } else {
            self.offsets.push(now - self.prev);
            self.prev = now;
            Step::Continue
        }
    }

    /// The number of moments marked so far.
    pub fn count(&self) -> (r: usize)
        ensures
            r == self.offsets@.len(),
    {
        self.offsets.len()
    }
}

} // verus!
