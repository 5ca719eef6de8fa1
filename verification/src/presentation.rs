//! The presentation state machine: three phases driven by timer ticks,
//! user input, and the background run's completion notification. All
//! mutation of presentation state goes through one transition function;
//! the surrounding process performs the effect the transition returns.

use vstd::prelude::*;
use vstd::string::StringExecFns;

verus! {

/// How much one timer tick adds to the splash counter, in tenths of a
/// time unit.
pub const SPLASH_TICK_TENTHS: u32 = 1;

/// The splash threshold, in tenths of a time unit: the splash ends and
/// narration starts once the counter exceeds this.
pub const SPLASH_THRESHOLD_TENTHS: u32 = 20;

/// The three phases. `elapsed` counts splash time in tenths of a time
/// unit and only grows while the splash is showing.
#[derive(Debug, Clone, Copy, PartialEq, Eq)]
pub enum PresentationPhase {
    Splash { elapsed: u32 },
    Running,
    Finished,
}

/// What the presentation reacts to: a timer tick, the background run's
/// completion, the user's pause toggle, the user's close request.
#[derive(Debug, Clone, Copy, PartialEq, Eq)]
pub enum UiEvent {
    Tick,
    FetchCompleted,
    TogglePause,
    Close,
}

/// What the surrounding process must do after a transition.
#[derive(Debug, Clone, Copy, PartialEq, Eq)]
pub enum UiEffect {
    /// Nothing beyond redrawing.
    Stay,
    /// Spawn the background run, handing it a fresh cancellation token, a
    /// pause-gate reader, and a publisher writer.
    SpawnRun,
    /// Write the new pause value to the pause gate.
    PublishPause(bool),
    /// Cancel the live run's token, then tear the window down.
    CancelAndTerminate,
    /// Tear the window down; no run is live.
    Terminate,
}

/// The presentation's state: the phase, whether a background run is
/// live, and the current pause value.
#[derive(Debug, Clone, Copy, PartialEq, Eq)]
pub struct AppState {
    pub phase: PresentationPhase,
    pub run_live: bool,
    pub paused: bool,
}

/// The splash counter never passes the threshold (the phase leaves Splash
/// the moment it does), and a run is live only while Running.
pub open spec fn state_wf(s: AppState) -> bool {
    match s.phase {
        PresentationPhase::Splash { elapsed } => elapsed <= SPLASH_THRESHOLD_TENTHS && !s.run_live,
        PresentationPhase::Running => true,
        PresentationPhase::Finished => !s.run_live,
    }
}

/// The transition function: the state after `ev` and the effect owed.
/// Events arriving in a phase where they have no defined effect are
/// no-ops, not errors.
pub open spec fn spec_update(s: AppState, ev: UiEvent) -> (AppState, UiEffect) {
    match ev {
        UiEvent::Tick => match s.phase {
            PresentationPhase::Splash { elapsed } => {
                let advanced = (elapsed + SPLASH_TICK_TENTHS) as u32;
                if advanced > SPLASH_THRESHOLD_TENTHS {
                    (
                        AppState {
                            phase: PresentationPhase::Running,
                            run_live: true,
                            paused: s.paused,
                        },
                        UiEffect::SpawnRun,
                    )
                } else {
                    (
                        AppState {
                            phase: PresentationPhase::Splash { elapsed: advanced },
                            run_live: s.run_live,
                            paused: s.paused,
                        },
                        UiEffect::Stay,
                    )
                }
            },
            _ => (s, UiEffect::Stay),
        },
        UiEvent::FetchCompleted => match s.phase {
            PresentationPhase::Running => (
                AppState {
                    phase: PresentationPhase::Finished,
                    run_live: false,
                    paused: s.paused,
                },
                UiEffect::Stay,
            ),
            _ => (s, UiEffect::Stay),
        },
        UiEvent::TogglePause => (
            AppState { phase: s.phase, run_live: s.run_live, paused: !s.paused },
            UiEffect::PublishPause(!s.paused),
        ),
        UiEvent::Close => if s.run_live {
            (
                AppState { phase: s.phase, run_live: false, paused: s.paused },
                UiEffect::CancelAndTerminate,
            )
        } else {
            (s, UiEffect::Terminate)
        },
    }
}

impl AppState {
    /// A fresh presentation: splash at zero elapsed time, no live run,
    /// not paused.
    pub fn new() -> (s: AppState)
        ensures
            s == (AppState {
                phase: PresentationPhase::Splash { elapsed: 0 },
                run_live: false,
                paused: false,
            }),
            state_wf(s),
    {
        AppState {
            phase: PresentationPhase::Splash { elapsed: 0 },
            run_live: false,
            paused: false,
        }
    }

    /// Apply one event: the state becomes exactly what the transition
    /// function says, and the returned effect is what it owes.
    pub fn update(&mut self, ev: UiEvent) -> (eff: UiEffect)
        requires
            state_wf(*old(self)),
        ensures
            state_wf(*final(self)),
            (*final(self), eff) == spec_update(*old(self), ev),
    {
        match ev {
            UiEvent::Tick => {
                if let PresentationPhase::Splash { elapsed } = self.phase {
                    let advanced = elapsed + SPLASH_TICK_TENTHS;
                    if advanced > SPLASH_THRESHOLD_TENTHS {
                        self.phase = PresentationPhase::Running;
                        self.run_live = true;
                        UiEffect::SpawnRun
                    } else {
                        self.phase = PresentationPhase::Splash { elapsed: advanced };
                        UiEffect::Stay
                    }
                } else {
                    UiEffect::Stay
                }
            },
            UiEvent::FetchCompleted => {
                if let PresentationPhase::Running = self.phase {
                    self.phase = PresentationPhase::Finished;
                    self.run_live = false;
                }
                UiEffect::Stay
            },
            UiEvent::TogglePause => {
                self.paused = !self.paused;
                UiEffect::PublishPause(self.paused)
            },
            UiEvent::Close => {
                if self.run_live {
                    self.run_live = false;
                    UiEffect::CancelAndTerminate
                } else {
                    UiEffect::Terminate
                }
            },
        }
    }
}

/// Phase transitions are one-directional and never skip a phase: from
/// Splash a step either stays in Splash with the counter advanced by one
/// tick, or enters Running, and it enters Running exactly when a tick
/// pushes the counter past the threshold — never before, and never
/// straight to Finished; Running never returns to Splash; Finished is
/// terminal.
pub proof fn lemma_phase_transitions(s: AppState, ev: UiEvent)
    requires
        state_wf(s),
    ensures
        ({
            let s2 = spec_update(s, ev).0;
            &&& (s.phase is Splash ==> !(s2.phase is Finished))
            &&& (s.phase matches PresentationPhase::Splash { elapsed } ==> (s2.phase is Running
                <==> ev == UiEvent::Tick && elapsed + SPLASH_TICK_TENTHS
                > SPLASH_THRESHOLD_TENTHS))
            &&& (s.phase matches PresentationPhase::Splash { elapsed } ==> (ev == UiEvent::Tick
                && elapsed + SPLASH_TICK_TENTHS <= SPLASH_THRESHOLD_TENTHS ==> s2.phase
                == (PresentationPhase::Splash {
                elapsed: (elapsed + SPLASH_TICK_TENTHS) as u32,
            })))
            &&& (s.phase is Running ==> s2.phase is Running || s2.phase is Finished)
            &&& (s.phase is Finished ==> s2.phase is Finished)
        }),
{
}

/// Display data for one thread: its title and its thumbnail reference
/// (empty when the thread has none).
#[derive(Debug, Clone)]
pub struct ThreadData {
    pub title: String,
    pub thumbnail: String,
}

/// Mathematical image of one display record.
pub ghost struct ThreadDataView {
    pub title: Seq<char>,
    pub thumbnail: Seq<char>,
}

impl View for ThreadData {
    type V = ThreadDataView;

    open spec fn view(&self) -> ThreadDataView {
        ThreadDataView { title: self.title@, thumbnail: self.thumbnail@ }
    }
}

/// A thumbnail is rendered only when its reference is non-empty, is not
/// one of the sentinels meaning "no thumbnail", and names a file that is
/// present on disk.
pub open spec fn shows_thumbnail_spec(thumbnail: Seq<char>, file_exists: bool) -> bool {
    thumbnail.len() > 0 && thumbnail != "self"@ && thumbnail != "default"@ && file_exists
}

/// Decide whether `thread`'s thumbnail is rendered; the caller reports
/// whether the referenced path is present on disk.
pub fn shows_thumbnail(thread: &ThreadData, file_exists: bool) -> (r: bool)
    ensures
        r == shows_thumbnail_spec(thread@.thumbnail, file_exists),
{
    let self_sentinel = String::from_str("self");
    let default_sentinel = String::from_str("default");
    !thread.thumbnail.as_str().is_empty() && !thread.thumbnail.eq(&self_sentinel)
        && !thread.thumbnail.eq(&default_sentinel) && file_exists
}

/// The window's title text.
pub fn window_title() -> (t: String)
    ensures
        t@ == "Reddit Top 10 Threads Reader"@,
{
    String::from_str("Reddit Top 10 Threads Reader")
}

/// Which input source the presentation listens to in each phase: the
/// splash advances on a timer, the running phase listens for the close
/// key, and the finished phase listens to nothing.
#[derive(Debug, Clone, Copy, PartialEq, Eq)]
pub enum InputMode {
    SplashTimer,
    CloseKey,
    NoInput,
}

/// The input source owed to each phase.
pub open spec fn input_mode_spec(phase: PresentationPhase) -> InputMode {
    match phase {
        PresentationPhase::Splash { .. } => InputMode::SplashTimer,
        PresentationPhase::Running => InputMode::CloseKey,
        PresentationPhase::Finished => InputMode::NoInput,
    }
}

/// Pick the input source for the current phase.
pub fn input_mode(phase: &PresentationPhase) -> (m: InputMode)
    ensures
        m == input_mode_spec(*phase),
{
    match phase {
        PresentationPhase::Splash { .. } => InputMode::SplashTimer,
        PresentationPhase::Running => InputMode::CloseKey,
        PresentationPhase::Finished => InputMode::NoInput,
    }
}

} // verus!
