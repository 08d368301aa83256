use openwhisper::transcribe::formatting::build_whisper_prompt;
use openwhisper::transcribe::formatting::extract_words;
use openwhisper::transcribe::formatting::format_transcription;
use openwhisper::transcribe::formatting::FormattingMode;

#[test]
fn test_build_whisper_prompt_combinations() {
    assert_eq!(build_whisper_prompt(&[], None), None);

    let vocab = vec!["Rust".to_string(), "Wayland".to_string()];
    assert_eq!(
        build_whisper_prompt(&vocab, None),
        Some("Technical vocabulary: Rust, Wayland.".to_string())
    );

    assert_eq!(
        build_whisper_prompt(&[], Some("Code dictation.")),
        Some("Code dictation.".to_string())
    );

    assert_eq!(
        build_whisper_prompt(&vocab, Some("Code dictation.")),
        Some("Code dictation. Technical vocabulary: Rust, Wayland.".to_string())
    );
}

#[test]
fn test_extract_words() {
    assert_eq!(extract_words(""), Vec::<String>::new());
    assert_eq!(
        extract_words("Hello, World! 123-test"),
        vec!["Hello", "World", "123", "test"]
    );
}

#[test]
fn test_format_standard() {
    let input = "  Hello, world!  ";
    assert_eq!(format_transcription(input, FormattingMode::Standard, true), "Hello, world! ");
    assert_eq!(format_transcription(input, FormattingMode::Standard, false), "Hello, world!");
    assert_eq!(format_transcription("Hello, world! ", FormattingMode::Standard, true), "Hello, world! ");
}

#[test]
fn test_format_raw() {
    assert_eq!(format_transcription("Hello world.", FormattingMode::Raw, true), "Hello world ");
    assert_eq!(format_transcription("Hello world.", FormattingMode::Raw, false), "Hello world");
    assert_eq!(format_transcription("Is this real?!", FormattingMode::Raw, true), "Is this real ");
}

#[test]
fn test_format_snake_case() {
    assert_eq!(
        format_transcription("Calculate Audio RMS Value", FormattingMode::SnakeCase, true),
        "calculate_audio_rms_value"
    );
    assert_eq!(
        format_transcription("hello-world_test 123", FormattingMode::SnakeCase, false),
        "hello_world_test_123"
    );
}

#[test]
fn test_format_camel_case() {
    assert_eq!(
        format_transcription("Calculate Audio RMS Value", FormattingMode::CamelCase, true),
        "calculateAudioRmsValue"
    );
    assert_eq!(format_transcription("Single", FormattingMode::CamelCase, false), "single");
}

#[test]
fn test_format_kebab_case() {
    assert_eq!(
        format_transcription("Calculate Audio RMS Value", FormattingMode::KebabCase, true),
        "calculate-audio-rms-value"
    );
}

#[test]
fn test_format_empty() {
    assert_eq!(format_transcription("   ", FormattingMode::SnakeCase, true), "");
    assert_eq!(format_transcription("", FormattingMode::CamelCase, false), "");
}

#[test]
fn prompt_vocabulary_is_trimmed_and_blank_words_dropped() {
    let vocab = vec![" Rust ".to_string(), "".to_string(), "Rust".to_string(), "KDE".to_string()];
    assert_eq!(
        build_whisper_prompt(&vocab, Some("  Notes..  ")),
        Some("Notes. Technical vocabulary: Rust, Rust, KDE.".to_string())
    );
    assert_eq!(build_whisper_prompt(&["  ".to_string()], Some("   ")), None);
}

#[test]
fn kebab_and_snake_of_single_word() {
    assert_eq!(format_transcription("Hello", FormattingMode::KebabCase, true), "hello");
    assert_eq!(format_transcription("Hello", FormattingMode::SnakeCase, true), "hello");
}

#[test]
fn standard_keeps_inner_text_and_adds_one_space() {
    assert_eq!(format_transcription("a  b", FormattingMode::Standard, true), "a  b ");
}

#[test]
fn raw_strips_only_trailing_punctuation() {
    assert_eq!(format_transcription("Wait, what?", FormattingMode::Raw, false), "Wait, what");
}

#[test]
fn standard_and_raw_add_exactly_one_space() {
    assert_eq!(format_transcription("  hello there \t\n", FormattingMode::Standard, true), "hello there ");
    assert_eq!(format_transcription("hello there\u{3000}", FormattingMode::Standard, false), "hello there");
    assert_eq!(format_transcription(" Done!?. ", FormattingMode::Raw, true), "Done ");
    assert_eq!(
        format_transcription("Hello World", FormattingMode::SnakeCase, true),
        format_transcription("Hello World", FormattingMode::SnakeCase, false)
    );
}

#[test]
fn formatting_twice_changes_nothing() {
    for mode in [FormattingMode::Standard, FormattingMode::SnakeCase, FormattingMode::KebabCase] {
        let once = format_transcription("  Deploy the Kubernetes-Cluster, now!  ", mode, true);
        assert_eq!(format_transcription(&once, mode, true), once);
    }
}

#[test]
fn words_are_the_alphanumeric_runs() {
    let text = "a1--b2c, d!";
    let words = extract_words(text);
    assert_eq!(words, vec!["a1", "b2c", "d"]);
    let filtered: String = text.chars().filter(|c| c.is_alphanumeric()).collect();
    assert_eq!(words.concat(), filtered);
}
