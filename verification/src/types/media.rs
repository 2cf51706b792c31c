//! Image generation and audio (speech / transcription) request types.

use vstd::prelude::*;

use crate::gateway::{opt_str, push_opt};
use crate::json::{JsonValue, JsonView, fields_view, no_fields, push_field};
use crate::text::{i32_to_decimal, int_decimal};

verus! {

/// A 64-bit floating-point parameter, held as its IEEE-754 bit pattern
/// (`f64::to_bits`); the library forwards it and never computes with it.
#[derive(Debug, Clone, Copy, PartialEq, Eq, Structural)]
pub struct Float64(pub u64);

/// Parameters for an image generation request (`POST /v1/images/generations`).
#[derive(Debug, Clone)]
pub struct ImageGenerationParams {
    /// Namespaced model identifier (e.g. `openai:dall-e-3`).
    pub model: String,
    /// Text prompt describing the desired image(s).
    pub prompt: String,
    /// Number of images to generate.
    pub n: Option<i32>,
    /// Rendering quality (e.g. `standard`, `hd`).
    pub quality: Option<String>,
    /// Response format (`url` or `b64_json`).
    pub response_format: Option<String>,
    /// Image size (e.g. `1024x1024`).
    pub size: Option<String>,
    /// Image style (e.g. `vivid`, `natural`).
    pub style: Option<String>,
    /// Optional end-user identifier for abuse monitoring.
    pub user: Option<String>,
}

/// `a` and `b` agree on every field but the ones a builder sets.
pub open spec fn image_same_except(
    a: ImageGenerationParams,
    b: ImageGenerationParams,
    n: bool,
    quality: bool,
    response_format: bool,
    size: bool,
    style: bool,
    user: bool,
) -> bool {
    &&& a.model == b.model
    &&& a.prompt == b.prompt
    &&& (n || a.n == b.n)
    &&& (quality || a.quality == b.quality)
    &&& (response_format || a.response_format == b.response_format)
    &&& (size || a.size == b.size)
    &&& (style || a.style == b.style)
    &&& (user || a.user == b.user)
}

/// The text of an optional string.
pub open spec fn opt_text(o: Option<String>) -> Option<Seq<char>> {
    match o {
        Some(s) => Some(s@),
        None => None,
    }
}

/// The JSON of an optional image count.
pub open spec fn opt_count(n: Option<i32>) -> Option<JsonView> {
    match n {
        Some(k) => Some(JsonView::Number(int_decimal(k as int))),
        None => None,
    }
}

/// The JSON body of an image generation request: `model` and `prompt`, then
/// each optional field that is set, in declaration order.
pub open spec fn image_body(p: ImageGenerationParams) -> JsonView {
    let base = seq![("model"@, JsonView::Str(p.model@)), ("prompt"@, JsonView::Str(p.prompt@))];
    let f1 = push_opt(base, "n"@, opt_count(p.n));
    let f2 = push_opt(f1, "quality"@, opt_str(p.quality));
    let f3 = push_opt(f2, "response_format"@, opt_str(p.response_format));
    let f4 = push_opt(f3, "size"@, opt_str(p.size));
    let f5 = push_opt(f4, "style"@, opt_str(p.style));
    JsonView::Object(push_opt(f5, "user"@, opt_str(p.user)))
}

/// Append `key: "<value>"` to `fields` where there is a value.
fn push_opt_text(fields: &mut Vec<(String, JsonValue)>, key: &str, value: &Option<String>)
    ensures
        fields_view(final(fields)@) == push_opt(fields_view(old(fields)@), key@, opt_str(*value)),
{
    match value {
        Some(v) => push_field(fields, key, JsonValue::Str(v.clone())),
        None => {},
    }
}

impl ImageGenerationParams {
    /// A request for the given model and prompt, nothing else set.
    pub fn new(model: &str, prompt: &str) -> (r: Self)
        ensures
            r.model@ == model@,
            r.prompt@ == prompt@,
            r.n is None,
            r.quality is None,
            r.response_format is None,
            r.size is None,
            r.style is None,
            r.user is None,
    {
        ImageGenerationParams {
            model: String::from_str(model),
            prompt: String::from_str(prompt),
            n: None,
            quality: None,
            response_format: None,
            size: None,
            style: None,
            user: None,
        }
    }

    /// The JSON body of the request.
    pub fn body(&self) -> (r: JsonValue)
        ensures
            r@ == image_body(*self),
    {
        proof {
            reveal_strlit("model");
            reveal_strlit("prompt");
        }
        let mut fields: Vec<(String, JsonValue)> = no_fields();
        push_field(&mut fields, "model", JsonValue::Str(self.model.clone()));
        push_field(&mut fields, "prompt", JsonValue::Str(self.prompt.clone()));
        assert(fields_view(fields@) =~= seq![
            ("model"@, JsonView::Str(self.model@)),
            ("prompt"@, JsonView::Str(self.prompt@)),
        ]);
        match self.n {
            Some(k) => push_field(&mut fields, "n", JsonValue::Number(i32_to_decimal(k))),
            None => {},
        }
        push_opt_text(&mut fields, "quality", &self.quality);
        push_opt_text(&mut fields, "response_format", &self.response_format);
        push_opt_text(&mut fields, "size", &self.size);
        push_opt_text(&mut fields, "style", &self.style);
        push_opt_text(&mut fields, "user", &self.user);
        JsonValue::Object(fields)
    }

    /// Set the number of images to generate.
    pub fn with_n(self, n: i32) -> (r: Self)
        ensures
            r.n == Some(n),
            image_same_except(r, self, true, false, false, false, false, false),
    {
        ImageGenerationParams { n: Some(n), ..self }
    }

    /// Set the rendering quality.
    pub fn with_quality(self, quality: &str) -> (r: Self)
        ensures
            opt_text(r.quality) == Some(quality@),
            image_same_except(r, self, false, true, false, false, false, false),
    {
        ImageGenerationParams { quality: Some(String::from_str(quality)), ..self }
    }

    /// Set the response format (`url` or `b64_json`).
    pub fn with_response_format(self, response_format: &str) -> (r: Self)
        ensures
            opt_text(r.response_format) == Some(response_format@),
            image_same_except(r, self, false, false, true, false, false, false),
    {
        ImageGenerationParams { response_format: Some(String::from_str(response_format)), ..self }
    }

    /// Set the image size (e.g. `1024x1024`).
    pub fn with_size(self, size: &str) -> (r: Self)
        ensures
            opt_text(r.size) == Some(size@),
            image_same_except(r, self, false, false, false, true, false, false),
    {
        ImageGenerationParams { size: Some(String::from_str(size)), ..self }
    }

    /// Set the image style.
    pub fn with_style(self, style: &str) -> (r: Self)
        ensures
            opt_text(r.style) == Some(style@),
            image_same_except(r, self, false, false, false, false, true, false),
    {
        ImageGenerationParams { style: Some(String::from_str(style)), ..self }
    }

    /// Attach an end-user identifier.
    pub fn with_user(self, user: &str) -> (r: Self)
        ensures
            opt_text(r.user) == Some(user@),
            image_same_except(r, self, false, false, false, false, false, true),
    {
        ImageGenerationParams { user: Some(String::from_str(user)), ..self }
    }
}

/// Parameters for a text-to-speech request (`POST /v1/audio/speech`).
#[derive(Debug, Clone)]
pub struct SpeechParams {
    /// Namespaced model identifier (e.g. `openai:tts-1`).
    pub model: String,
    /// Text to synthesize.
    pub input: String,
    /// Voice to use (e.g. `alloy`).
    pub voice: String,
    /// Output audio format (e.g. `mp3`, `wav`, `opus`).
    pub response_format: Option<String>,
    /// Playback speed multiplier.
    pub speed: Option<Float64>,
    /// Voice/style instructions for models that support them.
    pub instructions: Option<String>,
    /// Optional end-user identifier for abuse monitoring.
    pub user: Option<String>,
}

impl SpeechParams {
    /// A speech request for the given model, input and voice, nothing else set.
    pub fn new(model: &str, input: &str, voice: &str) -> (r: Self)
        ensures
            r.model@ == model@,
            r.input@ == input@,
            r.voice@ == voice@,
            r.response_format is None,
            r.speed is None,
            r.instructions is None,
            r.user is None,
    {
        SpeechParams {
            model: String::from_str(model),
            input: String::from_str(input),
            voice: String::from_str(voice),
            response_format: None,
            speed: None,
            instructions: None,
            user: None,
        }
    }

    /// Set the output audio format.
    pub fn with_response_format(self, response_format: &str) -> (r: Self)
        ensures
            opt_text(r.response_format) == Some(response_format@),
            r.model == self.model && r.input == self.input && r.voice == self.voice,
            r.speed == self.speed && r.instructions == self.instructions && r.user == self.user,
    {
        SpeechParams { response_format: Some(String::from_str(response_format)), ..self }
    }

    /// Set the playback speed multiplier.
    pub fn with_speed(self, speed: Float64) -> (r: Self)
        ensures
            r == (SpeechParams { speed: Some(speed), ..self }),
    {
        SpeechParams { speed: Some(speed), ..self }
    }

    /// Set voice/style instructions.
    pub fn with_instructions(self, instructions: &str) -> (r: Self)
        ensures
            opt_text(r.instructions) == Some(instructions@),
            r.model == self.model && r.input == self.input && r.voice == self.voice,
            r.response_format == self.response_format && r.speed == self.speed && r.user
                == self.user,
    {
        SpeechParams { instructions: Some(String::from_str(instructions)), ..self }
    }

    /// Attach an end-user identifier.
    pub fn with_user(self, user: &str) -> (r: Self)
        ensures
            opt_text(r.user) == Some(user@),
            r.model == self.model && r.input == self.input && r.voice == self.voice,
            r.response_format == self.response_format && r.speed == self.speed
                && r.instructions == self.instructions,
    {
        SpeechParams { user: Some(String::from_str(user)), ..self }
    }
}

/// Parameters for an audio transcription request (`POST /v1/audio/transcriptions`).
#[derive(Debug, Clone)]
pub struct TranscriptionParams {
    /// Namespaced model identifier (e.g. `openai:whisper-1`).
    pub model: String,
    /// Raw audio bytes to transcribe.
    pub file: Vec<u8>,
    /// Filename for the multipart upload.
    pub filename: String,
    /// Source language hint (ISO-639-1).
    pub language: Option<String>,
    /// Optional prompt to guide the transcription style.
    pub prompt: Option<String>,
    /// Response format (`json`, `text`, `srt`, `verbose_json`, `vtt`).
    pub response_format: Option<String>,
    /// Sampling temperature.
    pub temperature: Option<Float64>,
    /// Optional end-user identifier for abuse monitoring.
    pub user: Option<String>,
}

/// `a` and `b` agree on every field but the ones a builder sets.
pub open spec fn transcription_same_except(
    a: TranscriptionParams,
    b: TranscriptionParams,
    filename: bool,
    language: bool,
    prompt: bool,
    response_format: bool,
    temperature: bool,
    user: bool,
) -> bool {
    &&& a.model == b.model
    &&& a.file == b.file
    &&& (filename || a.filename == b.filename)
    &&& (language || a.language == b.language)
    &&& (prompt || a.prompt == b.prompt)
    &&& (response_format || a.response_format == b.response_format)
    &&& (temperature || a.temperature == b.temperature)
    &&& (user || a.user == b.user)
}

impl TranscriptionParams {
    /// A transcription request for the given model and audio bytes; the upload's
    /// filename defaults to `audio`.
    pub fn new(model: &str, file: Vec<u8>) -> (r: Self)
        ensures
            r.model@ == model@,
            r.file == file,
            r.filename@ == "audio"@,
            r.language is None,
            r.prompt is None,
            r.response_format is None,
            r.temperature is None,
            r.user is None,
    {
        TranscriptionParams {
            model: String::from_str(model),
            file,
            filename: String::from_str("audio"),
            language: None,
            prompt: None,
            response_format: None,
            temperature: None,
            user: None,
        }
    }

    /// Set the multipart upload filename.
    pub fn with_filename(self, filename: &str) -> (r: Self)
        ensures
            r.filename@ == filename@,
            transcription_same_except(r, self, true, false, false, false, false, false),
    {
        TranscriptionParams { filename: String::from_str(filename), ..self }
    }

    /// Set the source language hint.
    pub fn with_language(self, language: &str) -> (r: Self)
        ensures
            opt_text(r.language) == Some(language@),
            transcription_same_except(r, self, false, true, false, false, false, false),
    {
        TranscriptionParams { language: Some(String::from_str(language)), ..self }
    }

    /// Set the guiding prompt.
    pub fn with_prompt(self, prompt: &str) -> (r: Self)
        ensures
            opt_text(r.prompt) == Some(prompt@),
            transcription_same_except(r, self, false, false, true, false, false, false),
    {
        TranscriptionParams { prompt: Some(String::from_str(prompt)), ..self }
    }

    /// Set the response format (`json`, `text`, `srt`, `verbose_json`, `vtt`).
    pub fn with_response_format(self, response_format: &str) -> (r: Self)
        ensures
            opt_text(r.response_format) == Some(response_format@),
            transcription_same_except(r, self, false, false, false, true, false, false),
    {
        TranscriptionParams { response_format: Some(String::from_str(response_format)), ..self }
    }

    /// Set the sampling temperature.
    pub fn with_temperature(self, temperature: Float64) -> (r: Self)
        ensures
            r.temperature == Some(temperature),
            transcription_same_except(r, self, false, false, false, false, true, false),
    {
        TranscriptionParams { temperature: Some(temperature), ..self }
    }

    /// Attach an end-user identifier.
    pub fn with_user(self, user: &str) -> (r: Self)
        ensures
            opt_text(r.user) == Some(user@),
            transcription_same_except(r, self, false, false, false, false, false, true),
    {
        TranscriptionParams { user: Some(String::from_str(user)), ..self }
    }
}

} // verus!
