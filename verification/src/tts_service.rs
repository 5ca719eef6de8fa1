//! The speech engine's place in the core. The engine itself blocks on
//! audio playback and lives outside the verified library; the core only
//! carries this handle and the pacing constants the narration loop uses.

use vstd::prelude::*;

verus! {

/// How often the narration loop polls a speech engine that reports
/// "still speaking", in milliseconds.
pub const SPEAKING_POLL_MS: u64 = 100;

/// The rest between two narration units, in milliseconds.
pub const PAUSE_BETWEEN_UNITS_MS: u64 = 1000;

/// Handle standing for the speech engine: one utterance at a time,
/// spoken to completion before the next begins.
#[derive(Debug, Clone, Copy, PartialEq, Eq)]
pub struct TtsService;

impl TtsService {
    /// A fresh handle.
    pub fn new() -> (s: TtsService)
        ensures
            s == TtsService,
    {
        TtsService
    }
}

} // verus!
