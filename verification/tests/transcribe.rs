use openwhisper::daemon::describe_transcription_error;
use openwhisper::transcribe::client::parse_transcription_response;
use openwhisper::transcribe::client::TranscriptionClient;
use openwhisper::transcribe::client::TranscriptionResponse;
use openwhisper::transcribe::formatting::FormattingMode;

/// Reads a reply body the way the endpoint client does: a JSON object whose
/// `text` is a string or null and whose `error` is any value.
fn parsed(body: &str) -> Option<TranscriptionResponse> {
    let v: serde_json::Value = serde_json::from_str(body).ok()?;
    let obj = v.as_object()?;
    let text = match obj.get("text") {
        None | Some(serde_json::Value::Null) => None,
        Some(serde_json::Value::String(s)) => Some(s.clone()),
        Some(_) => return None,
    };
    let error = match obj.get("error") {
        None | Some(serde_json::Value::Null) => None,
        Some(e) => Some(e.to_string()),
    };
    Some(TranscriptionResponse { text, error })
}

fn parse(body: &str, mode: FormattingMode, trailing: bool) -> Result<String, String> {
    parse_transcription_response(parsed(body), body, mode, trailing)
}

#[test]
fn test_parse_valid_response_standard() {
    let json = r#"{"text": "Hello world from Whisper."}"#;
    assert_eq!(parse(json, FormattingMode::Standard, true).unwrap(), "Hello world from Whisper. ");
    assert_eq!(parse(json, FormattingMode::Standard, false).unwrap(), "Hello world from Whisper.");
}

#[test]
fn test_parse_valid_response_snake_case() {
    let json = r#"{"text": "OpenWhisper Dictation Engine"}"#;
    assert_eq!(parse(json, FormattingMode::SnakeCase, true).unwrap(), "openwhisper_dictation_engine");
}

#[test]
fn test_parse_error_object() {
    let json = r#"{"error": {"message": "Invalid API key"}}"#;
    let err = parse(json, FormattingMode::Standard, true).unwrap_err();
    assert!(err.contains("Invalid API key"));
    assert!(err.starts_with("STT API returned error object: "));
}

#[test]
fn test_parse_invalid_json() {
    let text = "<html>502 Bad Gateway</html>";
    let err = parse(text, FormattingMode::Standard, true).unwrap_err();
    assert!(err.contains("Unexpected response format"));
    assert_eq!(err, "Unexpected response format from STT endpoint: <html>502 Bad Gateway</html>");
}

fn client(mode: FormattingMode, prompt: Option<&str>, vocab: &[String], key: Option<&str>) -> TranscriptionClient {
    TranscriptionClient::new(
        "http://localhost:8000/v1/audio/transcriptions".to_string(),
        "whisper".to_string(),
        Some("en".to_string()),
        vocab,
        prompt,
        None,
        key.map(|k| k.to_string()),
        mode,
        true,
    )
}

#[test]
fn test_client_prompt_and_formatting_from_config() {
    let vocab = vec!["Wayland".to_string(), "Rust".to_string()];
    let c = client(FormattingMode::KebabCase, Some("Technical notes"), &vocab, None);
    assert_eq!(c.formatting_mode(), FormattingMode::KebabCase);
    assert!(c.prompt().unwrap().contains("Technical notes"));
    assert!(c.prompt().unwrap().contains("Wayland, Rust"));
}

#[test]
fn requests_carry_the_form_and_token() {
    let c = client(FormattingMode::Standard, None, &[], Some("secret-test-token-123"));
    assert_eq!(c.request(0).err().unwrap(), "Audio data is empty, cannot transcribe");
    let req = c.request(10).ok().unwrap();
    assert_eq!(req.url, "http://localhost:8000/v1/audio/transcriptions");
    assert_eq!(
        req.fields,
        vec![("model".to_string(), "whisper".to_string()), ("language".to_string(), "en".to_string())]
    );
    assert_eq!(req.bearer.as_deref(), Some("secret-test-token-123"));
    let blank = client(FormattingMode::Standard, None, &[], Some("   "));
    assert_eq!(blank.request(10).ok().unwrap().bearer, None);
}

#[test]
fn replies_and_failures() {
    let c = client(FormattingMode::Standard, None, &[], None);
    let r = c.reply(false, "500 Internal Server Error", "Internal inference failure", None);
    assert_eq!(r.unwrap_err(), "STT endpoint returned error status 500 Internal Server Error: Internal inference failure");
    let body = r#"{"text": "Hello from OpenWhisper integration test."}"#;
    assert_eq!(c.reply(true, "200 OK", body, parsed(body)).unwrap(), "Hello from OpenWhisper integration test. ");
    assert_eq!(c.connect_error(), "Failed to connect to STT endpoint at http://localhost:8000/v1/audio/transcriptions");
}

#[test]
fn transcription_errors_for_the_user() {
    let url = "http://h:1/v1";
    assert_eq!(describe_transcription_error("Failed to connect to STT endpoint at x", url, "m"), "Server unreachable (http://h:1/v1)");
    assert_eq!(describe_transcription_error("status 403", url, "m"), "Auth error: Invalid API key");
    assert_eq!(describe_transcription_error("404 Not Found", url, "tiny"), "Model not found or 404 (tiny)");
    assert_eq!(describe_transcription_error("Audio data is empty, cannot transcribe", url, "m"), "No speech detected (empty audio)");
    assert_eq!(describe_transcription_error("boom", url, "m"), "STT failed: boom");
}
