//! Moderation request and response types (the OpenAI `/v1/moderations` shape).

use vstd::prelude::*;

use crate::json::{
    JsonValue, JsonView, fields_view, items_view, json_view, lemma_fields_view, lemma_items_view,
};
use crate::types::media::Float64;

verus! {

/// Input to a moderation request: a single string, an array of strings, or an
/// array of multimodal content parts.
#[derive(Debug, Clone)]
pub enum ModerationInput {
    /// A single text string.
    Text(String),
    /// A batch of text strings.
    Batch(Vec<String>),
    /// Multimodal content parts (OpenAI `omni-moderation-*` only).
    Parts(Vec<ModerationContentPart>),
}

impl Default for ModerationInput {
    fn default() -> (r: Self)
        ensures
            r matches ModerationInput::Text(t) && t@.len() == 0,
    {
        ModerationInput::Text(String::new())
    }
}

/// A single multimodal content part for moderation input.
#[derive(Debug, Clone)]
pub enum ModerationContentPart {
    /// A text part.
    Text { text: String },
    /// An image referenced by URL.
    ImageUrl { image_url: ModerationImageUrl },
}

/// An image URL reference for a moderation content part.
#[derive(Debug, Clone)]
pub struct ModerationImageUrl {
    /// The URL of the image (HTTP(S) or `data:` URI).
    pub url: String,
}

/// Parameters for a moderation request. `include_raw` travels in the query
/// string, not in the body.
#[derive(Debug, Clone)]
pub struct ModerationParams {
    /// Namespaced model identifier (e.g. `openai:omni-moderation-latest`).
    pub model: String,
    /// The input to moderate.
    pub input: ModerationInput,
    /// Optional end-user identifier for abuse monitoring.
    pub user: Option<String>,
    /// Whether the gateway should echo the upstream raw response.
    pub include_raw: bool,
}

impl ModerationParams {
    /// A moderation request for the given model and input.
    pub fn new(model: &str, input: ModerationInput) -> (r: Self)
        ensures
            r.model@ == model@,
            r.input == input,
            r.user is None,
            !r.include_raw,
    {
        ModerationParams { model: String::from_str(model), input, user: None, include_raw: false }
    }

    /// Attach an end-user identifier.
    pub fn with_user(self, user: &str) -> (r: Self)
        ensures
            r.model == self.model,
            r.input == self.input,
            r.user matches Some(u) && u@ == user@,
            r.include_raw == self.include_raw,
    {
        ModerationParams { user: Some(String::from_str(user)), ..self }
    }

    /// Ask the gateway to include the upstream provider's raw response.
    pub fn with_include_raw(self, include_raw: bool) -> (r: Self)
        ensures
            r == (ModerationParams { include_raw, ..self }),
    {
        ModerationParams { include_raw, ..self }
    }

    /// The JSON body of the request: `model`, `input` and, where set, `user`.
    pub fn body(&self) -> (r: JsonValue)
        ensures
            r@ == moderation_body(*self),
    {
        let mut fields: Vec<(String, JsonValue)> = Vec::new();
        fields.push((String::from_str("model"), JsonValue::Str(self.model.clone())));
        fields.push((String::from_str("input"), input_json(&self.input)));
        match &self.user {
            Some(u) => fields.push((String::from_str("user"), JsonValue::Str(u.clone()))),
            None => {},
        }
        proof {
            lemma_fields_view(fields@);
            let base = seq![("model"@, JsonView::Str(self.model@)), ("input"@, moderation_input_json(self.input))];
            match &self.user {
                Some(u) => assert(fields_view(fields@) =~= base.push(("user"@, JsonView::Str(u@)))),
                None => assert(fields_view(fields@) =~= base),
            }
        }
        JsonValue::Object(fields)
    }
}

/// The JSON of a list of strings.
pub open spec fn strings_json(v: Seq<String>) -> Seq<JsonView> {
    Seq::new(v.len(), |i: int| JsonView::Str(v[i]@))
}

/// The JSON of a moderation content part.
pub open spec fn part_json(p: ModerationContentPart) -> JsonView {
    match p {
        ModerationContentPart::Text { text } => JsonView::Object(
            seq![("type"@, JsonView::Str("text"@)), ("text"@, JsonView::Str(text@))],
        ),
        ModerationContentPart::ImageUrl { image_url } => JsonView::Object(
            seq![
                ("type"@, JsonView::Str("image_url"@)),
                ("image_url"@, JsonView::Object(seq![("url"@, JsonView::Str(image_url.url@))])),
            ],
        ),
    }
}

/// The JSON of a moderation input: a string, an array of strings, or an array
/// of parts.
pub open spec fn moderation_input_json(i: ModerationInput) -> JsonView {
    match i {
        ModerationInput::Text(t) => JsonView::Str(t@),
        ModerationInput::Batch(v) => JsonView::Array(strings_json(v@)),
        ModerationInput::Parts(v) => JsonView::Array(Seq::new(v@.len(), |k: int| part_json(v@[k]))),
    }
}

/// The JSON body of a moderation request.
pub open spec fn moderation_body(p: ModerationParams) -> JsonView {
    let base = seq![("model"@, JsonView::Str(p.model@)), ("input"@, moderation_input_json(p.input))];
    JsonView::Object(
        match p.user {
            Some(u) => base.push(("user"@, JsonView::Str(u@))),
            None => base,
        },
    )
}

/// The JSON of one content part.
fn part_to_json(p: &ModerationContentPart) -> (r: JsonValue)
    ensures
        r@ == part_json(*p),
{
    proof {
        reveal_strlit("type");
        reveal_strlit("text");
        reveal_strlit("image_url");
        reveal_strlit("url");
    }
    let mut fields: Vec<(String, JsonValue)> = Vec::new();
    match p {
        ModerationContentPart::Text { text } => {
            fields.push((String::from_str("type"), JsonValue::string("text")));
            fields.push((String::from_str("text"), JsonValue::Str(text.clone())));
        },
        ModerationContentPart::ImageUrl { image_url } => {
            let mut inner: Vec<(String, JsonValue)> = Vec::new();
            inner.push((String::from_str("url"), JsonValue::Str(image_url.url.clone())));
            proof {
                lemma_fields_view(inner@);
                assert(fields_view(inner@) =~= seq![("url"@, JsonView::Str(image_url.url@))]);
            }
            let iv = JsonValue::Object(inner);
            assert(iv@ == JsonView::Object(seq![("url"@, JsonView::Str(image_url.url@))]));
            fields.push((String::from_str("type"), JsonValue::string("image_url")));
            fields.push((String::from_str("image_url"), iv));
        },
    }
    proof {
        lemma_fields_view(fields@);
        match p {
            ModerationContentPart::Text { text } => {
                assert(fields_view(fields@) =~= seq![("type"@, JsonView::Str("text"@)), ("text"@, JsonView::Str(text@))]);
            },
            ModerationContentPart::ImageUrl { image_url } => {
                assert(fields_view(fields@) =~= seq![
                    ("type"@, JsonView::Str("image_url"@)),
                    ("image_url"@, JsonView::Object(seq![("url"@, JsonView::Str(image_url.url@))])),
                ]);
            },
        }
    }
    let r = JsonValue::Object(fields);
    r
}

/// The JSON of a moderation input.
fn input_json(i: &ModerationInput) -> (r: JsonValue)
    ensures
        r@ == moderation_input_json(*i),
{
    match i {
        ModerationInput::Text(t) => JsonValue::Str(t.clone()),
        ModerationInput::Batch(v) => {
            let mut items: Vec<JsonValue> = Vec::new();
            let mut k: usize = 0;
            while k < v.len()
                invariant
                    k <= v@.len(),
                    items@.len() == k,
                    forall|j: int| 0 <= j < k ==> json_view(#[trigger] items@[j]) == JsonView::Str(v@[j]@),
                decreases v.len() - k,
            {
                items.push(JsonValue::Str(v[k].clone()));
                k = k + 1;
            }
            proof {
                lemma_items_view(items@);
                assert(items_view(items@) =~= strings_json(v@));
            }
            JsonValue::Array(items)
        },
        ModerationInput::Parts(v) => {
            let mut items: Vec<JsonValue> = Vec::new();
            let mut k: usize = 0;
            while k < v.len()
                invariant
                    k <= v@.len(),
                    items@.len() == k,
                    forall|j: int| 0 <= j < k ==> json_view(#[trigger] items@[j]) == part_json(v@[j]),
                decreases v.len() - k,
            {
                items.push(part_to_json(&v[k]));
                k = k + 1;
            }
            proof {
                lemma_items_view(items@);
                assert(items_view(items@) =~= Seq::new(v@.len(), |j: int| part_json(v@[j])));
            }
            JsonValue::Array(items)
        },
    }
}

/// A single moderation result.
#[derive(Debug, Clone)]
pub struct ModerationResult {
    /// Whether the input was flagged by any category.
    pub flagged: bool,
    /// Category name and whether it tripped, in the order the gateway sent them.
    pub categories: Vec<(String, bool)>,
    /// Category name and the model's confidence score.
    pub category_scores: Vec<(String, Float64)>,
    /// Which input modalities contributed to each category.
    pub category_applied_input_types: Option<Vec<(String, Vec<String>)>>,
    /// The upstream provider's raw payload when `include_raw=true` was requested.
    pub provider_raw: Option<JsonValue>,
}

/// Top-level moderation response (OpenAI-compatible shape).
#[derive(Debug, Clone)]
pub struct ModerationResponse {
    /// Opaque response identifier.
    pub id: String,
    /// Echoed model identifier.
    pub model: String,
    /// One result per input item.
    pub results: Vec<ModerationResult>,
}

/// Whether the category `name` tripped in `categories`: the value of its first
/// entry.
pub open spec fn category_flag(categories: Seq<(String, bool)>, name: Seq<char>) -> Option<bool>
    decreases categories.len(),
{
    if categories.len() == 0 {
        None
    } else if categories[0].0@ == name {
        Some(categories[0].1)
    } else {
        category_flag(categories.subrange(1, categories.len() as int), name)
    }
}

impl ModerationResult {
    /// Whether the category `name` tripped, if the result reports it.
    pub fn category(&self, name: &str) -> (r: Option<bool>)
        ensures
            r == category_flag(self.categories@, name@),
    {
        let name_s = String::from_str(name);
        let mut i: usize = 0;
        assert(self.categories@.subrange(0, self.categories@.len() as int) =~= self.categories@);
        while i < self.categories.len()
            invariant
                i <= self.categories@.len(),
                name_s@ == name@,
                category_flag(self.categories@, name@) == category_flag(
                    self.categories@.subrange(i as int, self.categories@.len() as int),
                    name@,
                ),
            decreases self.categories.len() - i,
        {
            let ghost rest = self.categories@.subrange(i as int, self.categories@.len() as int);
            assert(rest[0] == self.categories@[i as int]);
            if self.categories[i].0 == name_s {
                return Some(self.categories[i].1);
            }
            assert(rest.subrange(1, rest.len() as int) =~= self.categories@.subrange(
                i + 1,
                self.categories@.len() as int,
            ));
            i = i + 1;
        }
        None
    }
}

} // verus!
