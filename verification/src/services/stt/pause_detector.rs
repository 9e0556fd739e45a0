//! Pause Detection
//!
//! Tracks silence after speech and reports a pause once the silence has lasted
//! longer than the configured duration. Times are monotonic nanoseconds.

use vstd::prelude::*;

verus! {

/// The loudness class of a chunk of audio.
#[derive(Debug, Clone, Copy, PartialEq, Eq, Structural)]
pub enum ActivityLevel {
    /// Below the activity threshold.
    Silence,
    /// Above the activity threshold but below the speech threshold.
    Activity,
    /// Above the speech threshold.
    Speech,
}

/// The state of a pause detector.
pub struct PauseState {
    pub pause_duration: nat,
    pub silence_start: Option<nat>,
    pub has_detected_speech: bool,
}

/// One step of the detector: the next state, and `Some(true)` for a pause,
/// `Some(false)` for speech or activity, `None` for no change.
pub open spec fn pause_step(s: PauseState, level: ActivityLevel, now: nat) -> (PauseState, Option<bool>) {
    match level {
        ActivityLevel::Speech => (PauseState { silence_start: None, has_detected_speech: true, ..s }, Some(false)),
        ActivityLevel::Activity => if !s.has_detected_speech {
            (PauseState { silence_start: None, has_detected_speech: true, ..s }, Some(false))
        } else {
            (s, Some(false))
        },
        ActivityLevel::Silence => if s.has_detected_speech {
            let start: nat = match s.silence_start {
                Some(t) => t,
                None => now,
            };
            let next = PauseState { silence_start: Some(start), ..s };
            let elapsed: int = if now >= start { now - start } else { 0 };
            if elapsed > s.pause_duration {
                (next, Some(true))
            } else {
                (next, None)
            }
        } else {
            (s, None)
        },
    }
}

/// The state of a fresh detector.
pub open spec fn initial_pause_state(pause_duration: nat) -> PauseState {
    PauseState { pause_duration, silence_start: None, has_detected_speech: false }
}

/// Pause Detector
pub struct PauseDetector {
    pause_duration: u128,
    silence_start: Option<u128>,
    has_detected_speech: bool,
}

impl View for PauseDetector {
    type V = PauseState;

    closed spec fn view(&self) -> PauseState {
        PauseState {
            pause_duration: self.pause_duration as nat,
            silence_start: match self.silence_start {
                Some(t) => Some(t as nat),
                None => None,
            },
            has_detected_speech: self.has_detected_speech,
        }
    }
}

impl PauseDetector {
    /// Create a new pause detector for pauses longer than `pause_duration_ns`
    pub fn new(pause_duration_ns: u128) -> (r: Self)
        ensures
            r@ == initial_pause_state(pause_duration_ns as nat),
    {
        PauseDetector { pause_duration: pause_duration_ns, silence_start: None, has_detected_speech: false }
    }

    /// Process the loudness of one chunk observed at `now_ns`.
    ///
    /// Returns `Some(true)` if a pause was detected (recording should stop),
    /// `Some(false)` if speech or activity was detected, `None` otherwise.
    pub fn process_level(&mut self, level: ActivityLevel, now_ns: u128) -> (r: Option<bool>)
        ensures
            (final(self)@, r) == pause_step(old(self)@, level, now_ns as nat),
    {
        match level {
            ActivityLevel::Speech => {
                self.silence_start = None;
                self.has_detected_speech = true;
                Some(false)
            },
            ActivityLevel::Activity => {
                if !self.has_detected_speech {
                    self.has_detected_speech = true;
                    self.silence_start = None;
                }
                Some(false)
            },
            ActivityLevel::Silence => {
                if self.has_detected_speech {
                    let start = match self.silence_start {
                        Some(t) => t,
                        None => now_ns,
                    };
                    self.silence_start = Some(start);
                    let elapsed = if now_ns >= start { now_ns - start } else { 0 };
                    if elapsed > self.pause_duration {
                        return Some(true);
                    }
                }
                None
            },
        }
    }

    /// Whether speech or activity has been heard since the last reset.
    pub fn has_detected_speech(&self) -> (r: bool)
        ensures
            r == self@.has_detected_speech,
    {
        self.has_detected_speech
    }

    /// When the current silence started, if one is being timed.
    pub fn silence_start(&self) -> (r: Option<u128>)
        ensures
            match r {
                Some(t) => self@.silence_start == Some(t as nat),
                None => self@.silence_start is None,
            },
    {
        self.silence_start
    }

    /// Reset the detector state (for new recording session)
    pub fn reset(&mut self)
        ensures
            final(self)@ == initial_pause_state(old(self)@.pause_duration),
    {
        self.silence_start = None;
        self.has_detected_speech = false;
    }
}

/// Silence that lasts longer than the pause duration after speech is reported
/// as a pause; before any speech, silence is never reported.
pub proof fn law_pause_after_speech(pause: nat, t0: nat, t1: nat, t2: nat)
    requires
        t1 <= t2,
        t2 - t1 > pause,
    ensures
        ({
            let s0 = initial_pause_state(pause);
            let s1 = pause_step(s0, ActivityLevel::Speech, t0).0;
            let s2 = pause_step(s1, ActivityLevel::Silence, t1).0;
            pause_step(s2, ActivityLevel::Silence, t2).1 == Some(true)
        }),
        pause_step(initial_pause_state(pause), ActivityLevel::Silence, t2)
            == (initial_pause_state(pause), None::<bool>),
{
}

/// Speech always resets the silence timer, so the first silent chunk after it
/// never reports a pause.
pub proof fn law_speech_clears_silence(s: PauseState, t: nat, u: nat)
    ensures
        pause_step(s, ActivityLevel::Speech, t).1 == Some(false),
        pause_step(pause_step(s, ActivityLevel::Speech, t).0, ActivityLevel::Silence, u).1 is None,
{
}

/// The answers of the detector to a run of silent chunks observed at the
/// times `ts`, in order.
pub open spec fn silent_answers(s: PauseState, ts: Seq<nat>) -> Seq<Option<bool>>
    decreases ts.len(),
{
    if ts.len() == 0 {
        seq![]
    } else {
        let (next, answer) = pause_step(s, ActivityLevel::Silence, ts[0]);
        seq![answer] + silent_answers(next, ts.drop_first())
    }
}

/// Before any speech or activity (after a reset, say), no run of silent
/// chunks ever reports a pause, however long it lasts.
pub proof fn law_silence_before_speech_never_pauses(s: PauseState, ts: Seq<nat>)
    requires
        !s.has_detected_speech,
    ensures
        silent_answers(s, ts).len() == ts.len(),
        forall|i: int| 0 <= i < ts.len() ==> (#[trigger] silent_answers(s, ts)[i]) is None,
    decreases ts.len(),
{
    if ts.len() > 0 {
        law_silence_before_speech_never_pauses(s, ts.drop_first());
        assert(pause_step(s, ActivityLevel::Silence, ts[0]) == (s, None::<bool>));
        assert forall|i: int| 0 <= i < ts.len() implies (#[trigger] silent_answers(s, ts)[i]) is None by {
            if i > 0 {
                assert(silent_answers(s, ts)[i] == silent_answers(s, ts.drop_first())[i - 1]);
            }
        }
    }
}

} // verus!
