//! The daemon's request handling, as decisions on plain values: the worker
//! threads, channels and D-Bus signals run outside and perform them.

use vstd::prelude::*;
use vstd::string::StrSliceExecFns;

verus! {

/// How long an STT request may listen, in milliseconds.
pub const STT_TIMEOUT_MS: u64 = 60000;

/// How often a listening STT request checks whether recognition ended (ms).
pub const STT_CHECK_INTERVAL_MS: u64 = 100;

/// How many checks an STT request makes before it times out.
pub const MAX_STT_TIMEOUT_CHECKS: u64 = STT_TIMEOUT_MS / STT_CHECK_INTERVAL_MS;

/// The status the daemon reports in its `StatusChanged` signal.
#[derive(Debug, Clone, Copy, PartialEq, Eq, Structural)]
pub enum DaemonStatus {
    /// No operation in progress.
    Idle,
    /// TTS is speaking.
    Speaking,
    /// STT is listening.
    Listening,
    /// STT is decoding.
    Processing,
}

/// The text of a status in the signal.
pub open spec fn status_text(s: DaemonStatus) -> Seq<char> {
    match s {
        DaemonStatus::Idle => "idle"@,
        DaemonStatus::Speaking => "speaking"@,
        DaemonStatus::Listening => "listening"@,
        DaemonStatus::Processing => "processing"@,
    }
}

impl DaemonStatus {
    /// The text of the status in the signal.
    pub fn as_str(&self) -> (r: &'static str)
        ensures
            r@ == status_text(*self),
    {
        match self {
            DaemonStatus::Idle => "idle",
            DaemonStatus::Speaking => "speaking",
            DaemonStatus::Listening => "listening",
            DaemonStatus::Processing => "processing",
        }
    }
}

/// Where a listening STT request stands after one check.
#[derive(Debug, Clone, Copy, PartialEq, Eq, Structural)]
pub enum SttWait {
    /// Recognition ended: fetch the text.
    Finished,
    /// Still listening after `checks` checks: wait another interval.
    Waiting { checks: u64 },
    /// Listened too long: stop and fail.
    TimedOut,
}

/// One check of a listening STT request that has made `checks` checks.
pub open spec fn wait_spec(checks: u64, listening: bool) -> SttWait {
    if !listening {
        SttWait::Finished
    } else if checks >= MAX_STT_TIMEOUT_CHECKS {
        SttWait::TimedOut
    } else {
        SttWait::Waiting { checks: (checks + 1) as u64 }
    }
}

/// Where a request stands after `n` checks that all found it listening.
pub open spec fn waited(n: nat) -> SttWait
    decreases n,
{
    if n == 0 {
        SttWait::Waiting { checks: 0 }
    } else {
        match waited((n - 1) as nat) {
            SttWait::Waiting { checks } => wait_spec(checks, true),
            other => other,
        }
    }
}

/// One check of a listening STT request, after an interval's sleep.
pub fn stt_wait_step(checks: u64, listening: bool) -> (r: SttWait)
    ensures
        r == wait_spec(checks, listening),
{
    if !listening {
        SttWait::Finished
    } else if checks >= MAX_STT_TIMEOUT_CHECKS {
        SttWait::TimedOut
    } else {
        SttWait::Waiting { checks: checks + 1 }
    }
}

/// An STT request that keeps listening keeps waiting for
/// `MAX_STT_TIMEOUT_CHECKS` checks and times out at the next one.
pub proof fn law_stt_request_times_out(n: nat)
    ensures
        n <= MAX_STT_TIMEOUT_CHECKS ==> waited(n) == (SttWait::Waiting { checks: n as u64 }),
        waited((MAX_STT_TIMEOUT_CHECKS + 1) as nat) == SttWait::TimedOut,
    decreases n,
{
    if n > 0 {
        law_stt_request_times_out((n - 1) as nat);
    }
    if n <= MAX_STT_TIMEOUT_CHECKS {
        lemma_waited_below(n);
    }
    lemma_waited_below(MAX_STT_TIMEOUT_CHECKS as nat);
}

proof fn lemma_waited_below(n: nat)
    requires
        n <= MAX_STT_TIMEOUT_CHECKS,
    ensures
        waited(n) == (SttWait::Waiting { checks: n as u64 }),
    decreases n,
{
    if n > 0 {
        lemma_waited_below((n - 1) as nat);
    }
}

/// The text a stop request answers with. The STT worker answers with whether
/// it was recording and the recognized text: the text when it was
/// recording, an empty text when it was not, or when it failed or did not
/// answer in time (`None`).
pub fn stop_reply_text(reply: Option<Result<(bool, String), String>>) -> (r: String)
    ensures
        match reply {
            Some(Ok((true, t))) => r@ == t@,
            _ => r@ == Seq::<char>::empty(),
        },
{
    match reply {
        Some(Ok((true, t))) => t,
        _ => String::new(),
    }
}

/// Whether a recognized text is typed: only a non-empty one.
pub fn has_text_to_type(text: &str) -> (r: bool)
    ensures
        r == (text@.len() > 0),
{
    text.unicode_len() > 0
}

} // verus!
