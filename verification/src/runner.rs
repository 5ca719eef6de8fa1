//! The narration run: a step machine that walks a fetched batch through
//! greeting, one title line per thread, and the closing line. Before each
//! title the pause signal is consulted (a paused poll defers the title),
//! and the cancellation flag is consulted between narration units (an
//! observed cancellation ends the run before its next title and drops the
//! closing line). The host drives the machine by polling `next_action`
//! with the current pause and cancellation observations and performing
//! the returned action.

use vstd::prelude::*;
use crate::dto::PostView;
use crate::dto::RedditPostsDTO;
use crate::lines::intro_line;
use crate::lines::intro_line_spec;
use crate::lines::outro_line;
use crate::lines::outro_line_spec;
use crate::lines::unit_line;
use crate::lines::unit_line_spec;

verus! {

/// Where a run stands: about to greet, about to speak the title at
/// zero-based index `next`, about to close, or over.
#[derive(Debug, Clone, Copy, PartialEq, Eq)]
pub enum RunPhase {
    Intro,
    Unit { next: usize },
    Outro,
    Done { cancelled: bool },
}

/// What the host must do next: speak a line to completion, wait for the
/// pause signal to change, or report the run's completion and stop.
#[derive(Debug, PartialEq, Eq)]
pub enum RunAction {
    Speak(String),
    WaitResume,
    Complete,
}

/// Mathematical image of an action: the spoken line as a character
/// sequence.
pub ghost enum ActionView {
    Speak(Seq<char>),
    WaitResume,
    Complete,
}

impl View for RunAction {
    type V = ActionView;

    open spec fn view(&self) -> ActionView {
        match self {
            RunAction::Speak(s) => ActionView::Speak(s@),
            RunAction::WaitResume => ActionView::WaitResume,
            RunAction::Complete => ActionView::Complete,
        }
    }
}

/// A phase is well formed for a batch of `n` threads when its title
/// index, if any, points into the batch.
pub open spec fn phase_wf(ph: RunPhase, n: nat) -> bool {
    match ph {
        RunPhase::Unit { next } => next < n,
        _ => true,
    }
}

/// The phase after one poll that observes `paused` and `cancel`.
pub open spec fn spec_step_phase(ph: RunPhase, n: nat, paused: bool, cancel: bool) -> RunPhase {
    match ph {
        RunPhase::Intro => if n == 0 {
            RunPhase::Outro
        } else {
            RunPhase::Unit { next: 0 }
        },
        RunPhase::Unit { next } => if paused {
            ph
        } else if cancel {
            RunPhase::Done { cancelled: true }
        } else if next + 1 < n {
            RunPhase::Unit { next: (next + 1) as usize }
        } else {
            RunPhase::Outro
        },
        RunPhase::Outro => RunPhase::Done { cancelled: false },
        RunPhase::Done { .. } => ph,
    }
}

/// The action returned by one poll that observes `paused` and `cancel`.
pub open spec fn spec_step_action(
    ph: RunPhase,
    posts: Seq<PostView>,
    paused: bool,
    cancel: bool,
) -> ActionView {
    match ph {
        RunPhase::Intro => ActionView::Speak(intro_line_spec(posts.len())),
        RunPhase::Unit { next } => if paused {
            ActionView::WaitResume
        } else if cancel {
            ActionView::Complete
        } else {
            ActionView::Speak(unit_line_spec(next as nat + 1, posts[next as int]))
        },
        RunPhase::Outro => ActionView::Speak(outro_line_spec(posts.len())),
        RunPhase::Done { .. } => ActionView::Complete,
    }
}

/// Mathematical image of a run: the batch and the current phase.
pub ghost struct RunnerView {
    pub posts: Seq<PostView>,
    pub phase: RunPhase,
}

/// One narration run over one fetched batch.
pub struct Runner {
    posts: RedditPostsDTO,
    phase: RunPhase,
}

impl View for Runner {
    type V = RunnerView;

    closed spec fn view(&self) -> RunnerView {
        RunnerView { posts: self.posts@, phase: self.phase }
    }
}

impl Runner {
    /// The run's phase index stays inside its batch.
    pub open spec fn wf(&self) -> bool {
        phase_wf(self@.phase, self@.posts.len())
    }

    /// Start a run over a successfully fetched batch: the greeting is
    /// spoken first.
    pub fn new(posts: RedditPostsDTO) -> (r: Runner)
        ensures
            r.wf(),
            r@.posts == posts@,
            r@.phase == RunPhase::Intro,
    {
        Runner { posts, phase: RunPhase::Intro }
    }

    /// Start a run whose fetch failed: nothing is narrated, and the very
    /// first poll reports completion.
    pub fn failed_fetch() -> (r: Runner)
        ensures
            r.wf(),
            r@.posts == Seq::<PostView>::empty(),
            r@.phase == (RunPhase::Done { cancelled: false }),
    {
        let r = Runner { posts: RedditPostsDTO::new(), phase: RunPhase::Done { cancelled: false } };
        r
    }

    /// The current phase.
    pub fn current_phase(&self) -> (p: RunPhase)
        ensures
            p == self@.phase,
    {
        self.phase
    }

    /// One poll of the run under the observed pause and cancellation
    /// values: the phase advances by one step and the returned action is
    /// exactly what that step calls for.
    pub fn next_action(&mut self, paused: bool, cancel_requested: bool) -> (a: RunAction)
        requires
            old(self).wf(),
        ensures
            final(self).wf(),
            final(self)@.posts == old(self)@.posts,
            final(self)@.phase == spec_step_phase(
                old(self)@.phase,
                old(self)@.posts.len(),
                paused,
                cancel_requested,
            ),
            a@ == spec_step_action(old(self)@.phase, old(self)@.posts, paused, cancel_requested),
    {
        match self.phase {
            RunPhase::Intro => {
                let n = self.posts.count();
                let line = intro_line(n);
                self.phase = if n == 0 {
                    RunPhase::Outro
                } else {
                    RunPhase::Unit { next: 0 }
                };
                RunAction::Speak(line)
            },
            RunPhase::Unit { next } => {
                if paused {
                    RunAction::WaitResume
                } else if cancel_requested {
                    self.phase = RunPhase::Done { cancelled: true };
                    RunAction::Complete
                } else {
                    let n = self.posts.count();
                    proof {
                        assert(self@.posts.len() == self.posts.posts@.len());
                    }
                    let line = unit_line(next + 1, &self.posts.posts[next]);
                    self.phase = if next + 1 < n {
                        RunPhase::Unit { next: next + 1 }
                    } else {
                        RunPhase::Outro
                    };
                    RunAction::Speak(line)
                }
            },
            RunPhase::Outro => {
                let n = self.posts.count();
                let line = outro_line(n);
                self.phase = RunPhase::Done { cancelled: false };
                RunAction::Speak(line)
            },
            RunPhase::Done { .. } => RunAction::Complete,
        }
    }
}

} // verus!
