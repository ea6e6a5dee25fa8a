use iflypen_api_rs::util::audio_file_name;
use iflypen_api_rs::{
    build_transcription_options, extract_task_name, generate_random_file_name, process_hot_words,
    TranscriptionOptions,
};

#[test]
fn custom_task_name_wins() {
    assert_eq!(extract_task_name("/tmp/a.wav", Some("mine".to_string())), "mine");
}

#[test]
fn task_name_is_file_stem() {
    assert_eq!(extract_task_name("/tmp/record.2024.wav", None), "record.2024");
    assert_eq!(extract_task_name("meeting.mp3", None), "meeting");
    assert_eq!(extract_task_name("dir/noext", None), "noext");
    assert_eq!(extract_task_name("/data/.hidden", None), ".hidden");
}

#[test]
fn task_name_without_file_name_is_output() {
    assert_eq!(extract_task_name("/", None), "output");
    assert_eq!(extract_task_name("", None), "output");
    assert_eq!(extract_task_name("a/..", None), "output");
}

#[test]
fn hot_words_get_full_width_commas() {
    assert_eq!(process_hot_words(Some("Rust,WebRTC,AI".to_string())), "Rust，WebRTC，AI");
    assert_eq!(process_hot_words(Some(",,".to_string())), "，，");
    assert_eq!(process_hot_words(Some("无逗号".to_string())), "无逗号");
    assert_eq!(process_hot_words(Some(String::new())), "");
    assert_eq!(process_hot_words(None), "");
}

#[test]
fn options_from_command_line_values() {
    let o = build_transcription_options(Some("a,b".to_string()), true, "en".to_string()).unwrap();
    assert_eq!(
        o,
        TranscriptionOptions { need_sms: true, hot_words: "a，b".to_string(), language: "en".to_string() }
    );
    let d = build_transcription_options(None, false, "cn".to_string()).unwrap();
    assert_eq!(d.hot_words, "");
}

#[test]
fn default_options() {
    let o = TranscriptionOptions::default();
    assert!(!o.need_sms);
    assert_eq!(o.hot_words, "");
    assert_eq!(o.language, "cn");
}

#[test]
fn audio_file_name_format() {
    assert_eq!(audio_file_name(1234), "audio_1234.wav");
    assert_eq!(audio_file_name(9999), "audio_9999.wav");
}

#[test]
fn random_file_name_has_four_digits() {
    for _ in 0..50 {
        let name = generate_random_file_name();
        assert!(name.starts_with("audio_"));
        assert!(name.ends_with(".wav"));
        let digits = &name["audio_".len()..name.len() - ".wav".len()];
        let n: u32 = digits.parse().unwrap();
        assert!((1000..=9999).contains(&n));
    }
}
