use ttsandsttp::utils::chars::{chars_eq, chars_of, str_eq, string_from_chars, string_from_range};
use ttsandsttp::utils::onnx_metadata::{
    has_sample_rate_marker, metadata_update_outcome, reports_sample_rate, MetadataOutcome,
};
use ttsandsttp::utils::path::join;
use ttsandsttp::utils::text::{is_whitespace_char, trim_bounds, trim_chars, trim_str};
use ttsandsttp::utils::wav::decode_pcm_le;
use ttsandsttp::utils::{create_wav_buffer, format_timestamp, normalize_language_code, DirectSampleSource};
use ttsandsttp::utils::lang::language_base_code;

#[test]
fn wav_header_and_samples() {
    let wav = create_wav_buffer(&[1, -1], 16000).expect("in memory");
    let mut expected: Vec<u8> = Vec::new();
    expected.extend_from_slice(b"RIFF");
    expected.extend_from_slice(&40u32.to_le_bytes());
    expected.extend_from_slice(b"WAVEfmt ");
    expected.extend_from_slice(&16u32.to_le_bytes());
    expected.extend_from_slice(&1u16.to_le_bytes());
    expected.extend_from_slice(&1u16.to_le_bytes());
    expected.extend_from_slice(&16000u32.to_le_bytes());
    expected.extend_from_slice(&32000u32.to_le_bytes());
    expected.extend_from_slice(&2u16.to_le_bytes());
    expected.extend_from_slice(&16u16.to_le_bytes());
    expected.extend_from_slice(b"data");
    expected.extend_from_slice(&4u32.to_le_bytes());
    expected.extend_from_slice(&[0x01, 0x00, 0xff, 0xff]);
    assert_eq!(wav, expected);
    assert_eq!(create_wav_buffer(&[], 8000).expect("in memory").len(), 44);
}

#[test]
fn wav_data_decodes_back_to_samples() {
    let samples: Vec<i16> = vec![0, 1, -1, i16::MAX, i16::MIN, 12345, -12345];
    let wav = create_wav_buffer(&samples, 22050).expect("in memory");
    assert_eq!(decode_pcm_le(&wav[44..]), samples);
    assert_eq!(decode_pcm_le(&[0x34, 0x12, 0x99]), vec![0x1234]);
}

#[test]
fn timestamps() {
    assert_eq!(format_timestamp(0), "00:00:00.000");
    assert_eq!(format_timestamp(3_723_004), "01:02:03.004");
    assert_eq!(format_timestamp(86_400_000 + 61_250), "00:01:01.250");
}

#[test]
fn language_codes() {
    assert_eq!(normalize_language_code("pl-PL"), "pl");
    assert_eq!(normalize_language_code("EN"), "en");
    assert_eq!(normalize_language_code("zh-Hant-TW"), "zh");
    assert_eq!(normalize_language_code(""), "");
    assert_eq!(language_base_code("pt-BR"), "pt");
    assert_eq!(language_base_code("-x"), "");
}

#[test]
fn whitespace_matches_std() {
    for u in 0u32..=0x3100 {
        if let Some(c) = char::from_u32(u) {
            assert_eq!(is_whitespace_char(c), c.is_whitespace(), "U+{:04X}", u);
        }
    }
    assert!(!is_whitespace_char('\u{feff}'));
}

#[test]
fn trimming_matches_std() {
    for s in ["", "  ", " a b ", "\u{3000}x\u{2029}", "\t\nline\r\n", "nothing"] {
        assert_eq!(trim_str(s), s.trim());
        let cs: Vec<char> = s.chars().collect();
        let t: String = trim_chars(&cs).into_iter().collect();
        assert_eq!(t, s.trim());
    }
    assert_eq!(trim_bounds(&[' ', 'a', ' ']), (1, 2));
}

#[test]
fn char_helpers() {
    assert_eq!(chars_of("añb"), vec!['a', 'ñ', 'b']);
    assert_eq!(string_from_chars(&['x', 'y']), "xy");
    assert_eq!(string_from_range(&['a', 'b', 'c', 'd'], 1, 3), "bc");
    assert!(chars_eq(&['a'], &['a']));
    assert!(!chars_eq(&['a'], &['a', 'b']));
    assert!(str_eq("ż", "ż"));
    assert!(!str_eq("a", "b"));
}

#[test]
fn path_joining() {
    assert_eq!(join("/a", "b"), "/a/b");
    assert_eq!(join("/a/", "b"), "/a/b");
    assert_eq!(join("/a", "/b"), "/b");
    assert_eq!(join("", "b"), "b");
    assert_eq!(join("a", ""), "a/");
}

#[test]
fn sample_source_hands_out_samples_in_order() {
    let mut s = DirectSampleSource::new(vec![3, -4], 24000);
    assert_eq!(s.sample_rate(), 24000);
    assert_eq!(s.channels(), 1);
    assert_eq!(s.total_samples(), 2);
    assert_eq!(s.current_span_len(), Some(2));
    assert_eq!(s.next_sample(), Some(3));
    assert_eq!(s.current_span_len(), Some(1));
    assert_eq!(s.next_sample(), Some(-4));
    assert_eq!(s.next_sample(), None);
    assert_eq!(s.next_sample(), None);
}

#[test]
fn onnx_sample_rate_marker() {
    assert!(has_sample_rate_marker(b"\x08\x01metadata sample_rate\x12"));
    assert!(!has_sample_rate_marker(b"sample-rate"));
    assert!(!has_sample_rate_marker(b""));
    assert!(reports_sample_rate("true\n"));
    assert!(!reports_sample_rate("false"));
}

#[test]
fn onnx_metadata_outcomes() {
    assert!(matches!(metadata_update_outcome(true, ""), MetadataOutcome::Added));
    assert!(matches!(
        metadata_update_outcome(false, "onnx package not available\n"),
        MetadataOutcome::ToolUnavailable
    ));
    match metadata_update_outcome(false, "Error: broken model") {
        MetadataOutcome::Failed { stderr } => assert_eq!(stderr, "Error: broken model"),
        other => panic!("unexpected: {:?}", other),
    }
}

#[test]
fn normalizing_ascii_codes_is_idempotent() {
    for code in ["pl-PL", "EN-us", "zh-Hant-TW", "De", "-x", "", "sr-Latn"] {
        let n = normalize_language_code(code);
        assert_eq!(n, code.split('-').next().unwrap().to_ascii_lowercase());
        assert!(!n.contains('-'));
        assert_eq!(normalize_language_code(&n), n);
    }
}
