//! The transcription request: what is sent to an OpenAI-compatible
//! speech-to-text endpoint, and how its reply becomes the transcript or an
//! error.
use vstd::prelude::*;
use vstd::string::StringExecFns;

use crate::text::{cat2, chars_of, opt_str_view, opt_string_view, push_str, string_from_chars, trim_chars,
    trim_seq, views};
use crate::transcribe::formatting::{build_whisper_prompt, format_transcription, formatted, whisper_prompt,
    FormattingMode};

verus! {

/// The fields of the endpoint's JSON reply that are read: the transcript, and
/// the error value written back as JSON text.
pub struct TranscriptionResponse {
    pub text: Option<String>,
    pub error: Option<String>,
}

/// The reply as a transcript or an error message: a reply with a transcript
/// gives it formatted; one with an error object reports it; anything else,
/// including a body that is not such JSON (`None`), is an unexpected format.
pub open spec fn reply_outcome(
    parsed: Option<(Option<Seq<char>>, Option<Seq<char>>)>,
    body: Seq<char>,
    mode: FormattingMode,
    trailing_space: bool,
) -> Result<Seq<char>, Seq<char>> {
    match parsed {
        Some((Some(text), _)) => Ok(formatted(text, mode, trailing_space)),
        Some((None, Some(err))) => Err("STT API returned error object: "@ + err),
        _ => Err("Unexpected response format from STT endpoint: "@ + body),
    }
}

/// View of a parsed reply.
pub open spec fn response_view(r: Option<TranscriptionResponse>) -> Option<(Option<Seq<char>>, Option<Seq<char>>)> {
    match r {
        Some(resp) => Some((opt_string_view(resp.text), opt_string_view(resp.error))),
        None => None,
    }
}

/// View of a transcript or error.
pub open spec fn outcome_view(r: Result<String, String>) -> Result<Seq<char>, Seq<char>> {
    match r {
        Ok(t) => Ok(t@),
        Err(e) => Err(e@),
    }
}

/// Turns the endpoint's reply body, as parsed (`None` where it is not a JSON
/// reply), into the formatted transcript or an error (see `reply_outcome`).
pub fn parse_transcription_response(
    parsed: Option<TranscriptionResponse>,
    body_text: &str,
    mode: FormattingMode,
    trailing_space: bool,
) -> (r: Result<String, String>)
    ensures
        outcome_view(r) == reply_outcome(response_view(parsed), body_text@, mode, trailing_space),
{
    if let Some(res) = parsed {
        if let Some(text) = res.text {
            return Ok(format_transcription(text.as_str(), mode, trailing_space));
        }
        if let Some(err) = res.error {
            return Err(cat2("STT API returned error object: ", err.as_str()));
        }
    }
    Err(cat2("Unexpected response format from STT endpoint: ", body_text))
}

/// What to send for one transcription.
pub struct TranscriptionRequest {
    /// Where to post the form.
    pub url: String,
    /// The text fields of the multipart form, in order (the audio goes in a
    /// `file` part beside them).
    pub fields: Vec<(String, String)>,
    /// The bearer token to authenticate with, if any.
    pub bearer: Option<String>,
}

/// Transcribes recordings with one endpoint, model and set of options.
pub struct TranscriptionClient {
    server_url: String,
    model: String,
    language: Option<String>,
    prompt: Option<String>,
    temperature: Option<String>,
    api_key: Option<String>,
    formatting_mode: FormattingMode,
    trailing_space: bool,
}

/// The form's text fields: the model, then the language, prompt and
/// temperature where set.
pub open spec fn form_fields(
    model: Seq<char>,
    language: Option<Seq<char>>,
    prompt: Option<Seq<char>>,
    temperature: Option<Seq<char>>,
) -> Seq<(Seq<char>, Seq<char>)> {
    let a = seq![("model"@, model)];
    let b = match language {
        Some(l) => a.push(("language"@, l)),
        None => a,
    };
    let c = match prompt {
        Some(p) => b.push(("prompt"@, p)),
        None => b,
    };
    match temperature {
        Some(t) => c.push(("temperature"@, t)),
        None => c,
    }
}

/// Whether the form carries a field with this name and value.
pub open spec fn has_field(fields: Seq<(Seq<char>, Seq<char>)>, name: Seq<char>, value: Seq<char>) -> bool {
    exists|i: int| 0 <= i < fields.len() && #[trigger] fields[i] == (name, value)
}

/// Whether the form carries a field with this name.
pub open spec fn has_field_named(fields: Seq<(Seq<char>, Seq<char>)>, name: Seq<char>) -> bool {
    exists|i: int| 0 <= i < fields.len() && #[trigger] fields[i].0 == name
}

/// Every option that is set travels in the form under its own name: the model
/// always comes first, and the language, prompt and temperature are sent,
/// each with its value, exactly when they are set; no other field is sent.
pub proof fn lemma_form_carries_each_set_option(
    model: Seq<char>,
    language: Option<Seq<char>>,
    prompt: Option<Seq<char>>,
    temperature: Option<Seq<char>>,
)
    ensures
        ({
            let f = form_fields(model, language, prompt, temperature);
            &&& f.len() > 0 && f[0] == ("model"@, model)
            &&& forall|v: Seq<char>| has_field(f, "language"@, v) <==> language == Some(v)
            &&& forall|v: Seq<char>| has_field(f, "prompt"@, v) <==> prompt == Some(v)
            &&& forall|v: Seq<char>| has_field(f, "temperature"@, v) <==> temperature == Some(v)
            &&& has_field_named(f, "language"@) <==> language is Some
            &&& has_field_named(f, "prompt"@) <==> prompt is Some
            &&& has_field_named(f, "temperature"@) <==> temperature is Some
            &&& forall|i: int| 0 <= i < f.len() ==> (#[trigger] f[i]).0 == "model"@ || f[i].0 == "language"@
                || f[i].0 == "prompt"@ || f[i].0 == "temperature"@
            &&& f.len() == 1 + (if language is Some { 1int } else { 0 }) + (if prompt is Some { 1int } else { 0 })
                + (if temperature is Some { 1int } else { 0 })
        }),
{
    reveal_strlit("model");
    reveal_strlit("language");
    reveal_strlit("prompt");
    reveal_strlit("temperature");
    let f = form_fields(model, language, prompt, temperature);
    let nm = "model"@;
    let nl = "language"@;
    let np = "prompt"@;
    let nt = "temperature"@;
    assert(nm != nl && nm != np && nm != nt && nl != np && nl != nt && np != nt) by {
        assert(nm.len() != nl.len() && nm.len() != nt.len() && nl.len() != np.len() && nl.len() != nt.len()
            && np.len() != nt.len());
        assert(nm[0] != np[0]);
    }
    let a = seq![(nm, model)];
    let b = match language {
        Some(l) => a.push((nl, l)),
        None => a,
    };
    let c = match prompt {
        Some(p) => b.push((np, p)),
        None => b,
    };
    assert(f == match temperature {
        Some(t) => c.push((nt, t)),
        None => c,
    });
    // Which names each stage holds.
    assert forall|i: int| 0 <= i < b.len() implies (#[trigger] b[i]).0 == nm || (b[i].0 == nl && language
        == Some(b[i].1)) by {
        if language is Some && i == 1 {
        }
    }
    assert forall|i: int| 0 <= i < c.len() implies (#[trigger] c[i]).0 == nm || (c[i].0 == nl && language
        == Some(c[i].1)) || (c[i].0 == np && prompt == Some(c[i].1)) by {
        if prompt is Some && i == b.len() {
        } else {
            assert(c[i] == b[i]);
        }
    }
    assert forall|i: int| 0 <= i < f.len() implies (#[trigger] f[i]).0 == nm || (f[i].0 == nl && language
        == Some(f[i].1)) || (f[i].0 == np && prompt == Some(f[i].1)) || (f[i].0 == nt && temperature == Some(
        f[i].1,
    )) by {
        if temperature is Some && i == c.len() {
        } else {
            assert(f[i] == c[i]);
        }
    }
    if let Some(l) = language {
        assert(f[1] == (nl, l));
    }
    if let Some(p) = prompt {
        assert(f[b.len() as int] == (np, p));
    }
    if let Some(t) = temperature {
        assert(f[c.len() as int] == (nt, t));
    }
}

/// The token sent for an API key: the key itself, unless it is blank.
pub open spec fn bearer_for(api_key: Option<Seq<char>>) -> Option<Seq<char>> {
    match api_key {
        Some(k) => if trim_seq(k).len() > 0 {
            Some(k)
        } else {
            None
        },
        None => None,
    }
}

/// The text pairs of a request's form fields.
pub open spec fn field_views(f: Seq<(String, String)>) -> Seq<(Seq<char>, Seq<char>)> {
    f.map_values(|p: (String, String)| (p.0@, p.1@))
}

impl TranscriptionClient {
    /// The endpoint URL.
    pub closed spec fn url_view(&self) -> Seq<char> {
        self.server_url@
    }

    /// The model name.
    pub closed spec fn model_view(&self) -> Seq<char> {
        self.model@
    }

    /// The language hint, if any.
    pub closed spec fn language_view(&self) -> Option<Seq<char>> {
        opt_string_view(self.language)
    }

    /// The prompt sent with each request, if any.
    pub closed spec fn prompt_view(&self) -> Option<Seq<char>> {
        opt_string_view(self.prompt)
    }

    /// The sampling temperature, as written in the form, if any.
    pub closed spec fn temperature_view(&self) -> Option<Seq<char>> {
        opt_string_view(self.temperature)
    }

    /// The API key, if any.
    pub closed spec fn api_key_view(&self) -> Option<Seq<char>> {
        opt_string_view(self.api_key)
    }

    /// How transcripts are formatted.
    pub closed spec fn mode_view(&self) -> FormattingMode {
        self.formatting_mode
    }

    /// Whether transcripts get a trailing space.
    pub closed spec fn trailing_view(&self) -> bool {
        self.trailing_space
    }

    /// A client for the given endpoint and options; its prompt is built from
    /// the vocabulary and the custom prompt.
    pub fn new(
        server_url: String,
        model: String,
        language: Option<String>,
        vocabulary: &[String],
        custom_prompt: Option<&str>,
        temperature: Option<String>,
        api_key: Option<String>,
        formatting_mode: FormattingMode,
        trailing_space: bool,
    ) -> (c: Self)
        ensures
            c.url_view() == server_url@,
            c.model_view() == model@,
            c.language_view() == opt_string_view(language),
            c.prompt_view() == whisper_prompt(views(vocabulary@), opt_str_view(custom_prompt)),
            c.temperature_view() == opt_string_view(temperature),
            c.api_key_view() == opt_string_view(api_key),
            c.mode_view() == formatting_mode,
            c.trailing_view() == trailing_space,
    {
        let prompt = build_whisper_prompt(vocabulary, custom_prompt);
        TranscriptionClient {
            server_url,
            model,
            language,
            prompt,
            temperature,
            api_key,
            formatting_mode,
            trailing_space,
        }
    }

    /// The prompt sent with each request, if any.
    pub fn prompt(&self) -> (r: Option<&str>)
        ensures
            opt_str_view(r) == self.prompt_view(),
    {
        match &self.prompt {
            Some(p) => Some(p.as_str()),
            None => None,
        }
    }

    /// How transcripts are formatted.
    pub fn formatting_mode(&self) -> (m: FormattingMode)
        ensures
            m == self.mode_view(),
    {
        self.formatting_mode
    }

    /// The model name.
    pub fn model(&self) -> (r: &str)
        ensures
            r@ == self.model_view(),
    {
        self.model.as_str()
    }

    /// The endpoint URL.
    pub fn server_url(&self) -> (r: &str)
        ensures
            r@ == self.url_view(),
    {
        self.server_url.as_str()
    }

    /// The request for a recording of `wav_len` bytes, or the error for an
    /// empty one.
    pub fn request(&self, wav_len: usize) -> (r: Result<TranscriptionRequest, String>)
        ensures
            wav_len == 0 ==> (r matches Err(e) && e@ == "Audio data is empty, cannot transcribe"@),
            wav_len > 0 ==> (r matches Ok(req) && req.url@ == self.url_view() && field_views(req.fields@)
                == form_fields(self.model_view(), self.language_view(), self.prompt_view(), self.temperature_view())
                && opt_string_view(req.bearer) == bearer_for(self.api_key_view())),
    {
        if wav_len == 0 {
            return Err(String::from_str("Audio data is empty, cannot transcribe"));
        }
        let mut fields: Vec<(String, String)> = Vec::new();
        fields.push((String::from_str("model"), self.model.clone()));
        if let Some(lang) = &self.language {
            fields.push((String::from_str("language"), lang.clone()));
        }
        if let Some(p) = &self.prompt {
            fields.push((String::from_str("prompt"), p.clone()));
        }
        if let Some(t) = &self.temperature {
            fields.push((String::from_str("temperature"), t.clone()));
        }
        assert(field_views(fields@) =~= form_fields(
            self.model_view(),
            self.language_view(),
            self.prompt_view(),
            self.temperature_view(),
        ));
        let bearer = match &self.api_key {
            Some(k) => {
                let kc = chars_of(k.as_str());
                if trim_chars(kc.as_slice()).len() > 0 {
                    Some(k.clone())
                } else {
                    None
                }
            },
            None => None,
        };
        Ok(TranscriptionRequest { url: self.server_url.clone(), fields, bearer })
    }

    /// The error reported when the endpoint cannot be reached.
    pub fn connect_error(&self) -> (r: String)
        ensures
            r@ == "Failed to connect to STT endpoint at "@ + self.url_view(),
    {
        cat2("Failed to connect to STT endpoint at ", self.server_url.as_str())
    }

    /// The transcript or error for the endpoint's reply: a status other than
    /// success (written as `status_text`) is an error quoting the body;
    /// otherwise the parsed body decides (see `parse_transcription_response`).
    pub fn reply(&self, success: bool, status_text: &str, body_text: &str, parsed: Option<TranscriptionResponse>) -> (r:
        Result<String, String>)
        ensures
            !success ==> outcome_view(r) == Err::<Seq<char>, Seq<char>>(
                "STT endpoint returned error status "@ + status_text@ + ": "@ + body_text@,
            ),
            success ==> outcome_view(r) == reply_outcome(
                response_view(parsed),
                body_text@,
                self.mode_view(),
                self.trailing_view(),
            ),
    {
        if !success {
            let mut m: Vec<char> = Vec::new();
            push_str(&mut m, "STT endpoint returned error status ");
            push_str(&mut m, status_text);
            push_str(&mut m, ": ");
            push_str(&mut m, body_text);
            return Err(string_from_chars(m.as_slice()));
        }
        parse_transcription_response(parsed, body_text, self.formatting_mode, self.trailing_space)
    }
}

} // verus!
