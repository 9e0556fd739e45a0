use ttsandsttp::services::api::dashscope::tts_audio_url;
use ttsandsttp::config::{ApiConfig, ApiRegion};
use ttsandsttp::services::api::dashscope::{
    asr_data_url, asr_language_hint, asr_text_from_response, client_base_url, decode_tts_chunk,
    extract_asr_text, generation_url, request_timeout_secs, summarize_error, ClientError,
    DASHSCOPE_TTS_SAMPLE_RATE,
};
use ttsandsttp::services::api::sse::SseDecoder;

#[test]
fn timeout_has_a_floor_of_five_seconds() {
    assert_eq!(request_timeout_secs(&ApiConfig { timeout_secs: 1, ..ApiConfig::default() }), 5);
    assert_eq!(request_timeout_secs(&ApiConfig { timeout_secs: 30, ..ApiConfig::default() }), 30);
}

#[test]
fn base_url_loses_trailing_slashes() {
    let api = ApiConfig { base_url: "https://proxy.local/v1//".to_string(), ..ApiConfig::default() };
    assert_eq!(client_base_url(&api), Ok("https://proxy.local/v1".to_string()));
    assert_eq!(client_base_url(&ApiConfig::default()), Ok("https://dashscope-intl.aliyuncs.com/api/v1".to_string()));
}

#[test]
fn custom_region_without_url_is_refused() {
    let api = ApiConfig { region: ApiRegion::Custom, ..ApiConfig::default() };
    assert_eq!(client_base_url(&api), Err(ClientError::EmptyBaseUrl));
    let slashes = ApiConfig { region: ApiRegion::Custom, base_url: "///".to_string(), ..ApiConfig::default() };
    assert_eq!(client_base_url(&slashes), Err(ClientError::EmptyBaseUrl));
}

#[test]
fn generation_endpoint() {
    assert_eq!(
        generation_url("https://x/api/v1"),
        "https://x/api/v1/services/aigc/multimodal-generation/generation"
    );
}

#[test]
fn wav_is_sent_as_base64_data_url() {
    assert_eq!(asr_data_url(b"RIFF"), "data:audio/wav;base64,UklGRg==");
    assert_eq!(asr_data_url(b""), "data:audio/wav;base64,");
}

#[test]
fn empty_language_hint_is_dropped() {
    assert_eq!(asr_language_hint(Some("en")), Some("en".to_string()));
    assert_eq!(asr_language_hint(Some("")), None);
    assert_eq!(asr_language_hint(None), None);
}

#[test]
fn asr_text_shapes() {
    let chat = r#"{"output":{"choices":[{"message":{"content":[{"text":"  hello there "}]}}]}}"#;
    assert_eq!(extract_asr_text(chat), Some("hello there".to_string()));
    let sentence = r#"{"output":{"output":{"sentence":{"text":"zdanie"}}}}"#;
    assert_eq!(extract_asr_text(sentence), Some("zdanie".to_string()));
    let plain = r#"{"output":{"text":"plain"}}"#;
    assert_eq!(extract_asr_text(plain), Some("plain".to_string()));
    assert_eq!(extract_asr_text(r#"{"output":{}}"#), None);
    assert_eq!(extract_asr_text("not json"), None);
}

#[test]
fn asr_response_text_defaults_to_empty() {
    assert_eq!(asr_text_from_response(r#"{"output":{}}"#), Some(String::new()));
    assert_eq!(asr_text_from_response(r#"{"output":{"text":"x"}}"#), Some("x".to_string()));
    assert_eq!(asr_text_from_response("<html>"), None);
}

#[test]
fn tts_chunk_decodes_little_endian_pcm() {
    // bytes 01 00 ff ff -> samples 1, -1
    let event = r#"{"output":{"audio":{"data":"AQD//w=="}}}"#;
    assert_eq!(decode_tts_chunk(event), Some(vec![1i16, -1]));
    assert_eq!(decode_tts_chunk(r#"{"output":{"audio":{"data":"!!"}}}"#), None);
    assert_eq!(decode_tts_chunk(r#"{"output":{}}"#), None);
    assert_eq!(DASHSCOPE_TTS_SAMPLE_RATE, 24_000);
}

#[test]
fn error_summaries() {
    assert_eq!(summarize_error("  "), "<empty response>");
    assert_eq!(
        summarize_error(r#"{"code":"InvalidApiKey","message":"Invalid API-key provided."}"#),
        "InvalidApiKey Invalid API-key provided."
    );
    assert_eq!(summarize_error(r#"{"message":"only message"}"#), "only message");
    assert_eq!(summarize_error(" gateway timeout "), "gateway timeout");
    let long = "x".repeat(500);
    let s = summarize_error(&long);
    assert_eq!(s, format!("{}…", "x".repeat(400)));
}

#[test]
fn sse_lines_across_chunks() {
    let mut d = SseDecoder::new();
    assert_eq!(d.push("data: {\"a\":1}\r\nda"), vec!["{\"a\":1}".to_string()]);
    assert_eq!(d.push("ta: two\n\nevent: x\ndata: [DONE]\n"), vec!["two".to_string()]);
    assert_eq!(d.push("data:   \n"), Vec::<String>::new());
}

#[test]
fn sse_chunking_does_not_change_events() {
    let stream = "data: one\ndata: two\r\n: comment\ndata: three\n";
    let mut whole = SseDecoder::new();
    let all = whole.push(stream);
    let mut split = SseDecoder::new();
    let mut parts = split.push(&stream[..13]);
    parts.extend(split.push(&stream[13..]));
    assert_eq!(all, parts);
    assert_eq!(all, vec!["one".to_string(), "two".to_string(), "three".to_string()]);
}

#[test]
fn long_error_messages_are_kept_short() {
    let body = format!(r#"{{"code":"X","message":"{}"}}"#, "a".repeat(1000));
    let s = summarize_error(&body);
    assert_eq!(s, format!("X {}…", "a".repeat(398)));
    assert!(s.len() <= 403);
    let wide = format!(r#"{{"message":"{}"}}"#, "ż".repeat(300));
    let s = summarize_error(&wide);
    assert_eq!(s, format!("{}…", "ż".repeat(200)));
}

#[test]
fn synthesis_audio_url() {
    assert_eq!(
        tts_audio_url(r#"{"output":{"audio":{"url":"https://x/a.wav"}}}"#),
        Some("https://x/a.wav".to_string())
    );
    assert_eq!(tts_audio_url(r#"{"output":{"audio":{}}}"#), None);
    assert_eq!(tts_audio_url("oops"), None);
}

#[test]
fn base64_groups_and_padding() {
    assert_eq!(asr_data_url(b"f"), "data:audio/wav;base64,Zg==");
    assert_eq!(asr_data_url(b"fo"), "data:audio/wav;base64,Zm8=");
    assert_eq!(asr_data_url(b"foo"), "data:audio/wav;base64,Zm9v");
    assert_eq!(asr_data_url(b"foobar"), "data:audio/wav;base64,Zm9vYmFy");
    assert_eq!(asr_data_url(&[0xff, 0xfe, 0x3e]), "data:audio/wav;base64,//4+");
}

#[test]
fn base64_decoding_requires_canonical_text() {
    assert_eq!(decode_tts_chunk(r#"{"output":{"audio":{"data":"AQD//w"}}}"#), None);
    assert_eq!(decode_tts_chunk(r#"{"output":{"audio":{"data":"AQD//x=="}}}"#), None);
    assert_eq!(decode_tts_chunk(r#"{"output":{"audio":{"data":""}}}"#), Some(vec![]));
}
