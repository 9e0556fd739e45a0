use ttsandsttp::utils::text_splitter::split_into_sentences;

#[test]
fn test_basic_splitting() {
    let text = "Hello world. How are you? I'm fine!";
    let sentences = split_into_sentences(text);
    assert_eq!(sentences.len(), 3);
    assert_eq!(sentences[0], "Hello world.");
    assert_eq!(sentences[1], "How are you?");
    assert_eq!(sentences[2], "I'm fine!");
}

#[test]
fn test_no_punctuation() {
    let text = "Hello world";
    let sentences = split_into_sentences(text);
    assert_eq!(sentences.len(), 1);
    assert_eq!(sentences[0], "Hello world");
}

#[test]
fn test_empty() {
    let text = "";
    let sentences = split_into_sentences(text);
    assert_eq!(sentences.len(), 0);
}

#[test]
fn splitting_keeps_abbreviation_inside_sentence() {
    let sentences = split_into_sentences("See e.g.this one. Next");
    assert_eq!(sentences, vec!["See e.g.this one.".to_string(), "Next".to_string()]);
}

#[test]
fn splitting_on_capital_two_after() {
    let sentences = split_into_sentences("Stop.XYes");
    assert_eq!(sentences, vec!["Stop.".to_string(), "XYes".to_string()]);
}

#[test]
fn splitting_whitespace_only_is_empty() {
    assert!(split_into_sentences(" \n\t\u{3000} ").is_empty());
}

#[test]
fn splitting_trims_and_skips_separators() {
    let sentences = split_into_sentences("  One!\n\n  Two?\tThree.  ");
    assert_eq!(sentences, vec!["One!".to_string(), "Two?".to_string(), "Three.".to_string()]);
}

#[test]
fn splitting_lone_punctuation_kept() {
    let sentences = split_into_sentences("... !");
    assert_eq!(sentences, vec!["...".to_string(), "!".to_string()]);
}

#[test]
fn splitting_keeps_all_visible_text() {
    for text in [
        "Hello world. How are you? I'm fine!",
        "  Wait...   what?!\n\tNew line. X",
        "Dr. Smith went home.Then he slept",
        " . ! ? ",
        "no end",
    ] {
        let joined: String = split_into_sentences(text).concat();
        let strip = |s: &str| s.chars().filter(|c| !c.is_whitespace()).collect::<String>();
        assert_eq!(strip(&joined), strip(text), "{:?}", text);
    }
}

#[test]
fn splitting_keeps_common_abbreviations() {
    assert_eq!(split_into_sentences("Mr. Smith arrived."), vec!["Mr. Smith arrived.".to_string()]);
    assert_eq!(
        split_into_sentences("Dr. Who and Mrs. Jones met, e.g. at noon. Then they left."),
        vec!["Dr. Who and Mrs. Jones met, e.g. at noon.".to_string(), "Then they left.".to_string()]
    );
    assert_eq!(split_into_sentences("Ask Mr.Brown now. Ok"), vec!["Ask Mr.Brown now.".to_string(), "Ok".to_string()]);
    assert_eq!(split_into_sentences("Hummr. Yes"), vec!["Hummr.".to_string(), "Yes".to_string()]);
}
