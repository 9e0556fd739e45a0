//! The state of a speech-recognition session and the decisions taken on it:
//! whether the recognizer must be (re)initialized, when a session starts and
//! stops, when the closing low beep sounds, and which text is reported.
//!
//! The audio capture, the beeps and the decoding itself run outside; they
//! hand their outcomes to these functions and perform what comes back.

use vstd::prelude::*;
use crate::utils::chars::str_eq;
use crate::utils::lang::{normalize_language_code, unicode_lowercase, language_base};

verus! {

/// Fewer accumulated samples than this (0.5 s at 16 kHz) are not decoded.
pub const MIN_AUDIO_SAMPLES: usize = 8000;

/// Without any sample for this long (ms) after the start, capture is reported
/// as not working.
pub const AUDIO_TIMEOUT_MS: u64 = 2000;

/// The default pause that ends a recording: two seconds, in nanoseconds.
pub const DEFAULT_PAUSE_NS: u128 = 2_000_000_000;

/// The mathematical value of the STT state.
pub struct SttStateView {
    pub initialized: bool,
    pub listening: bool,
    pub current_text: Seq<char>,
    pub current_language: Seq<char>,
    pub pause_duration_ns: u128,
    pub beep_played: bool,
}

/// State of the speech-recognition service.
#[derive(Debug, Clone)]
pub struct SttState {
    /// A recognizer has been created.
    pub initialized: bool,
    /// A recording is in progress.
    pub listening: bool,
    /// The text of the last decode.
    pub current_text: String,
    /// The language the recognizer decodes.
    pub current_language: String,
    /// The silence that ends a recording.
    pub pause_duration_ns: u128,
    /// The closing low beep has sounded in this recording.
    pub beep_played: bool,
}

impl View for SttState {
    type V = SttStateView;

    open spec fn view(&self) -> SttStateView {
        SttStateView {
            initialized: self.initialized,
            listening: self.listening,
            current_text: self.current_text@,
            current_language: self.current_language@,
            pause_duration_ns: self.pause_duration_ns,
            beep_played: self.beep_played,
        }
    }
}

/// What must happen to the recognizer before listening in a language.
#[derive(Debug, Clone, Copy, PartialEq, Eq, Structural)]
pub enum Reinit {
    /// It is ready for the language.
    Keep,
    /// It was never created: initialize it.
    Init,
    /// It decodes another language: recreate it for the new one.
    InitWithLanguage,
}

/// The outcome of a stop request.
#[derive(Debug, Clone)]
pub enum StopStep {
    /// Nothing was recording: report the current text.
    AlreadyStopped { text: String },
    /// The recording ended; the low beep sounds when `play_low_beep`.
    Stopped { play_low_beep: bool },
}

/// What a detected pause leads to.
#[derive(Debug, Clone, Copy, PartialEq, Eq, Structural)]
pub enum PauseStep {
    /// Too little audio yet: keep recording.
    KeepRecording,
    /// End the recording and decode; the low beep sounds when `play_low_beep`.
    StopAndDecode { play_low_beep: bool },
}

/// What happens to a captured chunk of audio.
#[derive(Debug, Clone, Copy, PartialEq, Eq, Structural)]
pub enum ChunkStep {
    /// The start beep is still sounding: the chunk is dropped.
    Discard,
    /// The chunk joins the recording.
    Accumulate,
    /// A pause ends the recording: call the pause callback, decode, then
    /// `finish_after_pause`; the low beep sounds when `play_low_beep`.
    StopAndDecode { play_low_beep: bool },
}

/// The state after taking the low beep, and whether it sounds.
pub open spec fn low_beep_spec(s: SttStateView) -> (SttStateView, bool) {
    (SttStateView { beep_played: true, ..s }, !s.beep_played)
}

/// The state after a start in `language`, and whether a recording started.
pub open spec fn begin_spec(s: SttStateView, language: Seq<char>, pause_ns: u128) -> (SttStateView, bool) {
    if s.listening {
        (s, false)
    } else {
        (SttStateView {
            listening: true,
            current_language: language,
            pause_duration_ns: pause_ns,
            current_text: Seq::empty(),
            beep_played: false,
            ..s
        }, true)
    }
}

/// The state after a stop request.
pub open spec fn stop_spec(s: SttStateView) -> SttStateView {
    if !s.listening {
        s
    } else {
        low_beep_spec(SttStateView { listening: false, ..s }).0
    }
}

/// The state after a cancel request.
pub open spec fn cancel_spec(s: SttStateView) -> SttStateView {
    if !s.listening {
        s
    } else {
        SttStateView { listening: false, current_text: Seq::empty(), ..s }
    }
}

/// How many times the low beep sounds over `n` successive attempts.
pub open spec fn beeps_over(s: SttStateView, n: nat) -> nat
    decreases n,
{
    if n == 0 {
        0
    } else {
        (if low_beep_spec(s).1 { 1nat } else { 0nat }) + beeps_over(low_beep_spec(s).0, (n - 1) as nat)
    }
}

/// Whether enough audio has accumulated to be decoded.
pub fn has_enough_audio(sample_count: usize) -> (r: bool)
    ensures
        r == (sample_count >= MIN_AUDIO_SAMPLES),
{
    sample_count >= MIN_AUDIO_SAMPLES
}

/// Whether capture counts as not working: no sample at all after
/// `AUDIO_TIMEOUT_MS`.
pub fn audio_timed_out(first_sample_received: bool, elapsed_ms: u64) -> (r: bool)
    ensures
        r == (!first_sample_received && elapsed_ms > AUDIO_TIMEOUT_MS),
{
    !first_sample_received && elapsed_ms > AUDIO_TIMEOUT_MS
}

impl SttState {
    /// A session that has never listened: no recognizer, language "en",
    /// a two-second pause.
    pub fn new() -> (r: Self)
        ensures
            !r.initialized,
            !r.listening,
            r.current_text@ == Seq::<char>::empty(),
            r.current_language@ == "en"@,
            r.pause_duration_ns == DEFAULT_PAUSE_NS,
            !r.beep_played,
    {
        SttState {
            initialized: false,
            listening: false,
            current_text: String::new(),
            current_language: "en".to_owned(),
            pause_duration_ns: DEFAULT_PAUSE_NS,
            beep_played: false,
        }
    }

    /// Prepares a start in `lang`: returns the normalized language and what
    /// the recognizer needs. When it needs anything, the session's language
    /// becomes the normalized one.
    pub fn prepare_start(&mut self, lang: &str) -> (r: (String, Reinit))
        ensures
            r.0@ == unicode_lowercase(language_base(lang@)),
            old(self).initialized && old(self).current_language@ == r.0@ ==> r.1 == Reinit::Keep
                && final(self)@ == old(self)@,
            !old(self).initialized ==> r.1 == Reinit::Init
                && final(self)@ == (SttStateView { current_language: r.0@, ..old(self)@ }),
            old(self).initialized && old(self).current_language@ != r.0@ ==> r.1 == Reinit::InitWithLanguage
                && final(self)@ == (SttStateView { current_language: r.0@, ..old(self)@ }),
    {
        let normalized = normalize_language_code(lang);
        let same = str_eq(self.current_language.as_str(), normalized.as_str());
        if self.initialized && same {
            (normalized, Reinit::Keep)
        } else {
            self.current_language = normalized.clone();
            if !self.initialized {
                (normalized, Reinit::Init)
            } else {
                (normalized, Reinit::InitWithLanguage)
            }
        }
    }

    /// Records a created recognizer.
    pub fn mark_initialized(&mut self)
        ensures
            final(self)@ == (SttStateView { initialized: true, ..old(self)@ }),
    {
        self.initialized = true;
    }

    /// Records a recognizer created for `language`.
    pub fn mark_initialized_with(&mut self, language: String)
        ensures
            final(self)@ == (SttStateView { initialized: true, current_language: language@, ..old(self)@ }),
    {
        self.initialized = true;
        self.current_language = language;
    }

    /// Starts a recording in `language`, unless one is in progress: clears
    /// the text and re-arms the low beep. Returns whether it started.
    pub fn begin_listening(&mut self, language: String, pause_duration_ns: u128) -> (started: bool)
        ensures
            (final(self)@, started) == begin_spec(old(self)@, language@, pause_duration_ns),
    {
        if self.listening {
            return false;
        }
        self.listening = true;
        self.current_language = language;
        self.pause_duration_ns = pause_duration_ns;
        self.current_text = String::new();
        self.beep_played = false;
        true
    }

    /// Takes the closing low beep: it sounds only the first time in a
    /// recording.
    pub fn take_low_beep(&mut self) -> (play: bool)
        ensures
            (final(self)@, play) == low_beep_spec(old(self)@),
    {
        let play = !self.beep_played;
        self.beep_played = true;
        play
    }

    /// Stops the recording. When nothing records, the current text is the
    /// answer and nothing changes.
    pub fn stop(&mut self) -> (r: StopStep)
        ensures
            final(self)@ == stop_spec(old(self)@),
            match r {
                StopStep::AlreadyStopped { text } => !old(self).listening && text@ == old(self).current_text@,
                StopStep::Stopped { play_low_beep } => old(self).listening && play_low_beep == !old(self).beep_played,
            },
    {
        if !self.listening {
            return StopStep::AlreadyStopped { text: self.current_text.clone() };
        }
        self.listening = false;
        let play_low_beep = self.take_low_beep();
        StopStep::Stopped { play_low_beep }
    }

    /// The text a stop reports: the decode's result when it arrived in time,
    /// the current text otherwise.
    pub fn text_after_stop(&self, decoded: Option<String>) -> (r: String)
        ensures
            match decoded {
                Some(t) => r@ == t@,
                None => r@ == self.current_text@,
            },
    {
        match decoded {
            Some(t) => t,
            None => self.current_text.clone(),
        }
    }

    /// Reacts to a detected pause with `accumulated` samples recorded: with
    /// enough audio the recording ends (after the decode, see
    /// `finish_after_pause`) and the low beep is taken.
    pub fn on_pause(&mut self, accumulated: usize) -> (r: PauseStep)
        ensures
            accumulated < MIN_AUDIO_SAMPLES ==> r == PauseStep::KeepRecording && final(self)@ == old(self)@,
            accumulated >= MIN_AUDIO_SAMPLES ==> r == (PauseStep::StopAndDecode { play_low_beep: low_beep_spec(old(self)@).1 })
                && final(self)@ == low_beep_spec(old(self)@).0,
    {
        if !has_enough_audio(accumulated) {
            return PauseStep::KeepRecording;
        }
        let play_low_beep = self.take_low_beep();
        PauseStep::StopAndDecode { play_low_beep }
    }

    /// Decides on a captured chunk: dropped while the start beep sounds
    /// (`recording_started` false); otherwise a reported pause with enough
    /// audio ends the recording as `on_pause` does, and any other chunk is
    /// kept. The recording stays in progress until `finish_after_pause`.
    pub fn on_chunk(&mut self, recording_started: bool, pause_detected: bool, accumulated: usize) -> (r: ChunkStep)
        ensures
            !recording_started ==> r == ChunkStep::Discard && final(self)@ == old(self)@,
            recording_started && !(pause_detected && accumulated >= MIN_AUDIO_SAMPLES)
                ==> r == ChunkStep::Accumulate && final(self)@ == old(self)@,
            recording_started && pause_detected && accumulated >= MIN_AUDIO_SAMPLES
                ==> r == (ChunkStep::StopAndDecode { play_low_beep: low_beep_spec(old(self)@).1 })
                && final(self)@ == low_beep_spec(old(self)@).0,
    {
        if !recording_started {
            return ChunkStep::Discard;
        }
        if !pause_detected {
            return ChunkStep::Accumulate;
        }
        match self.on_pause(accumulated) {
            PauseStep::KeepRecording => ChunkStep::Accumulate,
            PauseStep::StopAndDecode { play_low_beep } => ChunkStep::StopAndDecode { play_low_beep },
        }
    }

    /// Ends the recording once the pause's decode is done.
    pub fn finish_after_pause(&mut self)
        ensures
            final(self)@ == (SttStateView { listening: false, ..old(self)@ }),
    {
        self.listening = false;
    }

    /// Stores a decoded text (even an empty one); returns whether it is worth
    /// reporting, i.e. not empty.
    pub fn record_decoded(&mut self, text: String) -> (report: bool)
        ensures
            final(self)@ == (SttStateView { current_text: text@, ..old(self)@ }),
            report == (text@.len() > 0),
    {
        let report = text.unicode_len() > 0;
        self.current_text = text;
        report
    }

    /// Cancels the recording without a result: the text is dropped.
    pub fn cancel(&mut self)
        ensures
            final(self)@ == cancel_spec(old(self)@),
    {
        if self.listening {
            self.listening = false;
            self.current_text = String::new();
        }
    }

    /// Whether a recording is in progress.
    pub fn is_listening(&self) -> (r: bool)
        ensures
            r == self.listening,
    {
        self.listening
    }

    /// The text of the last decode.
    pub fn current_text(&self) -> (r: String)
        ensures
            r@ == self.current_text@,
    {
        self.current_text.clone()
    }
}

proof fn lemma_no_beep_once_played(s: SttStateView, n: nat)
    requires
        s.beep_played,
    ensures
        beeps_over(s, n) == 0,
    decreases n,
{
    if n > 0 {
        assert(low_beep_spec(s).0 == s);
        lemma_no_beep_once_played(s, (n - 1) as nat);
    }
}

/// The closing low beep sounds at most once per recording: whatever number
/// of stop requests and detected pauses follow a start, together they sound
/// it once (the first of them) or, if none comes, not at all.
pub proof fn law_low_beep_at_most_once(s: SttStateView, language: Seq<char>, pause_ns: u128, n: nat)
    requires
        begin_spec(s, language, pause_ns).1,
    ensures
        beeps_over(begin_spec(s, language, pause_ns).0, n) == (if n == 0 { 0nat } else { 1nat }),
{
    let t = begin_spec(s, language, pause_ns).0;
    if n > 0 {
        lemma_no_beep_once_played(low_beep_spec(t).0, (n - 1) as nat);
    }
}

/// A stop when nothing records changes nothing: stopping twice is stopping
/// once, and the second stop answers with the text the first left.
pub proof fn law_stop_idempotent(s: SttStateView)
    ensures
        stop_spec(stop_spec(s)) == stop_spec(s),
        !stop_spec(s).listening,
        stop_spec(s).current_text == s.current_text,
{
}

/// A cancelled recording leaves no text, and a later stop finds nothing to
/// stop; a cancel without a recording changes nothing.
pub proof fn law_cancel_drops_text(s: SttStateView)
    ensures
        s.listening ==> cancel_spec(s).current_text == Seq::<char>::empty(),
        !s.listening ==> cancel_spec(s) == s,
        !cancel_spec(s).listening,
        stop_spec(cancel_spec(s)) == cancel_spec(s),
{
}

/// A started recording begins with no text, in the requested language, and
/// with the low beep armed; a start during a recording changes nothing.
pub proof fn law_start_is_fresh(s: SttStateView, language: Seq<char>, pause_ns: u128)
    ensures
        !s.listening ==> ({
            let t = begin_spec(s, language, pause_ns).0;
            &&& t.listening
            &&& t.current_text == Seq::<char>::empty()
            &&& t.current_language == language
            &&& !t.beep_played
        }),
        s.listening ==> begin_spec(s, language, pause_ns) == (s, false),
{
}

} // verus!
