use ttsandsttp::bench::{cloud_language, display, local_language};
use ttsandsttp::daemon::control::{
    has_text_to_type, stop_reply_text, stt_wait_step, MAX_STT_TIMEOUT_CHECKS, STT_CHECK_INTERVAL_MS,
    STT_TIMEOUT_MS,
};
use ttsandsttp::daemon::{DaemonStatus, SttWait};

#[test]
fn status_texts() {
    assert_eq!(DaemonStatus::Idle.as_str(), "idle");
    assert_eq!(DaemonStatus::Speaking.as_str(), "speaking");
    assert_eq!(DaemonStatus::Listening.as_str(), "listening");
    assert_eq!(DaemonStatus::Processing.as_str(), "processing");
}

#[test]
fn stt_request_times_out_after_sixty_seconds() {
    assert_eq!(MAX_STT_TIMEOUT_CHECKS, 600);
    assert_eq!(STT_TIMEOUT_MS / STT_CHECK_INTERVAL_MS, 600);
    let mut checks = 0u64;
    let mut steps = 0u64;
    loop {
        steps += 1;
        match stt_wait_step(checks, true) {
            SttWait::Waiting { checks: c } => checks = c,
            SttWait::TimedOut => break,
            SttWait::Finished => panic!("still listening"),
        }
    }
    assert_eq!(steps, 601);
    assert_eq!(stt_wait_step(5, false), SttWait::Finished);
}

#[test]
fn stop_reply() {
    assert_eq!(stop_reply_text(Some(Ok((true, "text".to_string())))), "text");
    assert_eq!(stop_reply_text(Some(Ok((false, "hello".to_string())))), "");
    assert_eq!(stop_reply_text(Some(Err("boom".to_string()))), "");
    assert_eq!(stop_reply_text(None), "");
}

#[test]
fn only_non_empty_text_is_typed() {
    assert!(has_text_to_type("a"));
    assert!(!has_text_to_type(""));
}

#[test]
fn benchmark_choices() {
    assert_eq!(cloud_language("  ", "pl"), "pl");
    assert_eq!(cloud_language("zh", "pl"), "zh");
    assert_eq!(local_language("multilingual", "pl"), "pl");
    assert_eq!(local_language("en", "pl"), "en");
    assert_eq!(display(""), "(empty)");
    assert_eq!(display("hi"), "hi");
}
