//! The three signals shared between the presentation loop and the
//! background run, modelled as the single-slot values they carry: the
//! pause gate and the thread-data publisher hold exactly one current
//! value each (a write replaces it, a reader sees only the latest), and
//! the run token is a one-way flag. The surrounding process maps each
//! onto a broadcast channel of its runtime; these models state what any
//! such channel must do with the values.

use vstd::prelude::*;
use crate::presentation::ThreadData;
use crate::presentation::ThreadDataView;

verus! {

/// The single-slot pause signal: its one current value says whether
/// narration is paused.
pub struct PauseGate {
    value: bool,
}

impl View for PauseGate {
    type V = bool;

    closed spec fn view(&self) -> bool {
        self.value
    }
}

/// A gate holding only the latest value.
pub closed spec fn gate_after_write(g: PauseGate, v: bool) -> PauseGate {
    PauseGate { value: v }
}

impl PauseGate {
    /// A fresh gate reports "not paused".
    pub fn new() -> (g: PauseGate)
        ensures
            g@ == false,
    {
        PauseGate { value: false }
    }

    /// Replace the current value; never blocks, always succeeds.
    pub fn write(&mut self, v: bool)
        ensures
            *final(self) == gate_after_write(*old(self), v),
            final(self)@ == v,
    {
        self.value = v;
    }

    /// The current value; never blocks.
    pub fn read_current(&self) -> (r: bool)
        ensures
            r == self@,
    {
        self.value
    }
}

/// Latest value only: writing `v1` then `v2` before any read leaves the
/// gate exactly as a single write of `v2` would, and a read then returns
/// `v2` — never the overwritten `v1`.
pub proof fn lemma_gate_latest_value_wins(g: PauseGate, v1: bool, v2: bool)
    ensures
        gate_after_write(gate_after_write(g, v1), v2) == gate_after_write(g, v2),
        gate_after_write(gate_after_write(g, v1), v2)@ == v2,
{
}

/// The single-slot thread-data publisher: its one current value is the
/// latest published batch, empty until the first publish.
pub struct ThreadPublisher {
    latest: Vec<ThreadData>,
}

impl View for ThreadPublisher {
    type V = Seq<ThreadDataView>;

    closed spec fn view(&self) -> Seq<ThreadDataView> {
        self.latest@.map_values(|t: ThreadData| t@)
    }
}

/// The publisher's state after a publish of `threads`: it holds exactly
/// that batch, whatever it held before.
pub closed spec fn publisher_after(p: ThreadPublisher, threads: Vec<ThreadData>) -> ThreadPublisher {
    ThreadPublisher { latest: threads }
}

impl ThreadPublisher {
    /// A fresh publisher holds the empty batch.
    pub fn new() -> (p: ThreadPublisher)
        ensures
            p@ == Seq::<ThreadDataView>::empty(),
    {
        let p = ThreadPublisher { latest: Vec::new() };
        proof {
            assert(p@ =~= Seq::<ThreadDataView>::empty());
        }
        p
    }

    /// Replace the current batch; never blocks, never waits on a reader.
    pub fn publish(&mut self, threads: Vec<ThreadData>)
        ensures
            *final(self) == publisher_after(*old(self), threads),
            final(self)@ == threads@.map_values(|t: ThreadData| t@),
    {
        self.latest = threads;
    }

    /// The latest published batch; never blocks.
    pub fn read_current(&self) -> (r: &Vec<ThreadData>)
        ensures
            r@.map_values(|t: ThreadData| t@) == self@,
    {
        &self.latest
    }
}

/// Latest value only: publishing `v1` then `v2` before any read leaves
/// the publisher exactly as a single publish of `v2` would, and a read
/// then returns `v2`'s contents — never the overwritten `v1`'s.
pub proof fn lemma_publisher_latest_value_wins(
    p: ThreadPublisher,
    v1: Vec<ThreadData>,
    v2: Vec<ThreadData>,
)
    ensures
        publisher_after(publisher_after(p, v1), v2) == publisher_after(p, v2),
        publisher_after(publisher_after(p, v1), v2)@ == v2@.map_values(|t: ThreadData| t@),
{
}

/// One run's cooperative stop flag: created clear, settable once, never
/// cleared again.
pub struct RunToken {
    cancelled: bool,
}

impl View for RunToken {
    type V = bool;

    closed spec fn view(&self) -> bool {
        self.cancelled
    }
}

/// The token's state after a cancellation request: set, whatever it was
/// before.
pub closed spec fn token_after_cancel(t: RunToken) -> RunToken {
    RunToken { cancelled: true }
}

impl RunToken {
    /// A fresh token is not cancelled.
    pub fn new() -> (t: RunToken)
        ensures
            t@ == false,
    {
        RunToken { cancelled: false }
    }

    /// Request cancellation; idempotent, and never unsettable.
    pub fn cancel(&mut self)
        ensures
            *final(self) == token_after_cancel(*old(self)),
            final(self)@ == true,
    {
        self.cancelled = true;
    }

    /// Whether cancellation has been requested; never blocks.
    pub fn is_cancelled(&self) -> (r: bool)
        ensures
            r == self@,
    {
        self.cancelled
    }
}

/// Cancellation is one-way and idempotent: cancelling twice is the same
/// as cancelling once, and a cancelled token reports cancelled forever
/// after.
pub proof fn lemma_cancel_idempotent_and_permanent(t: RunToken)
    ensures
        token_after_cancel(token_after_cancel(t)) == token_after_cancel(t),
        token_after_cancel(t)@ == true,
{
}

} // verus!
