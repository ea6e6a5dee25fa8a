use iflypen_api_rs::{Paragraph, Role, TranscriptResult, Word};

fn word(text: &str) -> Word {
    Word { modal: false, role: "1".to_string(), text: text.to_string(), time: vec![0, 10], wp: "n".to_string() }
}

fn paragraph(words: &[&str]) -> Paragraph {
    Paragraph { paragraph_time: vec![0, 100], role: "1".to_string(), words: words.iter().map(|w| word(w)).collect() }
}

fn transcript(paragraphs: Vec<Paragraph>) -> TranscriptResult {
    TranscriptResult {
        paragraphs,
        roles: vec![Role { name: "Speaker".to_string(), role: "1".to_string(), updated_at: 0 }],
    }
}

#[test]
fn flattening_joins_words_and_separates_paragraphs() {
    let t = transcript(vec![paragraph(&["He", "llo"]), paragraph(&["Bye"])]);
    assert_eq!(t.to_text(), "Hello\n\nBye\n\n");
}

#[test]
fn flattening_twice_gives_same_text() {
    let t = transcript(vec![paragraph(&["你", "好"]), paragraph(&[]), paragraph(&["x"])]);
    let before = t.clone();
    let first = t.to_text();
    let second = t.to_text();
    assert_eq!(first, second);
    assert_eq!(t, before);
    assert_eq!(first, "你好\n\n\n\nx\n\n");
}

#[test]
fn empty_transcript_is_empty_text() {
    assert_eq!(transcript(vec![]).to_text(), "");
}
