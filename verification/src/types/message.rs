//! Message types for chat completions.

use vstd::prelude::*;

use crate::text::{chars_of, find_char, first_char, starts_with, str_starts_with, matches_at};
use crate::types::tool::ToolCall;

verus! {

/// The role of a message in a conversation.
#[derive(Debug, Clone, Copy, PartialEq, Eq, Structural)]
pub enum Role {
    /// System message - sets the behavior of the assistant.
    System,
    /// User message - input from the user.
    User,
    /// Assistant message - response from the model.
    Assistant,
    /// Tool message - result from a tool call.
    Tool,
}

/// The wire name of a role.
pub open spec fn role_name(r: Role) -> Seq<char> {
    match r {
        Role::System => "system"@,
        Role::User => "user"@,
        Role::Assistant => "assistant"@,
        Role::Tool => "tool"@,
    }
}

impl Role {
    /// The string representation of the role.
    pub fn as_str(&self) -> (r: &'static str)
        ensures
            r@ == role_name(*self),
    {
        match self {
            Role::System => "system",
            Role::User => "user",
            Role::Assistant => "assistant",
            Role::Tool => "tool",
        }
    }
}

/// Content of a message - simple text or multiple parts.
#[derive(Debug, Clone)]
pub enum Content {
    /// Simple text content.
    Text(String),
    /// Multiple content parts (text, images, etc.).
    Parts(Vec<ContentPart>),
}

/// A part of multi-part content.
#[derive(Debug, Clone)]
pub enum ContentPart {
    /// Text content part.
    Text { text: String },
    /// Image URL content part.
    ImageUrl { image_url: ImageUrl },
}

/// An image URL reference.
#[derive(Debug, Clone)]
pub struct ImageUrl {
    /// The URL of the image (can be a `data:` URL for base64).
    pub url: String,
    /// The detail level for the image (low, high, auto).
    pub detail: Option<String>,
}

/// A message in a conversation.
#[derive(Debug, Clone)]
pub struct Message {
    /// The role of the message author.
    pub role: Role,
    /// The content of the message.
    pub content: Option<Content>,
    /// Optional name for the message author.
    pub name: Option<String>,
    /// Tool calls made by the assistant.
    pub tool_calls: Option<Vec<ToolCall>>,
    /// The ID of the tool call this message is responding to.
    pub tool_call_id: Option<String>,
}

/// The text of a content part; nothing for an image.
pub open spec fn part_text(p: ContentPart) -> Seq<char> {
    match p {
        ContentPart::Text { text } => text@,
        ContentPart::ImageUrl { .. } => Seq::empty(),
    }
}

/// The text parts of `parts`, joined with nothing between them.
pub open spec fn parts_text(parts: Seq<ContentPart>) -> Seq<char>
    decreases parts.len(),
{
    if parts.len() == 0 {
        Seq::empty()
    } else {
        parts_text(parts.drop_last()) + part_text(parts.last())
    }
}

/// All the text of a content.
pub open spec fn content_text(c: Content) -> Seq<char> {
    match c {
        Content::Text(t) => t@,
        Content::Parts(parts) => parts_text(parts@),
    }
}

/// The `data:` URL that carries base64 `data` of the given media type.
pub open spec fn data_url(media_type: Seq<char>, data: Seq<char>) -> Seq<char> {
    "data:"@ + media_type + ";base64,"@ + data
}

/// The media type and data of a `data:<media_type>;base64,<data>` URL, the media
/// type ending at the first `;`.
pub open spec fn base64_parts(url: Seq<char>) -> Option<(Seq<char>, Seq<char>)> {
    let scheme = "data:"@;
    if !starts_with(url, scheme) {
        None
    } else {
        let after = url.subrange(scheme.len() as int, url.len() as int);
        match first_char(after, ';') {
            None => None,
            Some(semi) => {
                let media_type = after.subrange(0, semi);
                let head = media_type + ";base64,"@;
                if starts_with(after, head) {
                    Some((media_type, after.subrange(head.len() as int, after.len() as int)))
                } else {
                    None
                }
            },
        }
    }
}

impl Content {
    /// Text content.
    pub fn text(text: &str) -> (r: Self)
        ensures
            r matches Content::Text(t) && t@ == text@,
    {
        Content::Text(String::from_str(text))
    }

    /// Content with multiple parts.
    pub fn parts(parts: Vec<ContentPart>) -> (r: Self)
        ensures
            r == Content::Parts(parts),
    {
        Content::Parts(parts)
    }

    /// The text, if this is simple text.
    pub fn as_text(&self) -> (r: Option<&str>)
        ensures
            self matches Content::Text(t) ==> r matches Some(s) && s@ == t@,
            self is Parts ==> r is None,
    {
        match self {
            Content::Text(text) => Some(text.as_str()),
            Content::Parts(_) => None,
        }
    }

    /// All the text of the content: the text itself, or the text parts joined.
    pub fn extract_text(&self) -> (r: String)
        ensures
            r@ == content_text(*self),
    {
        match self {
            Content::Text(text) => text.clone(),
            Content::Parts(parts) => {
                let mut out = String::new();
                let mut i: usize = 0;
                while i < parts.len()
                    invariant
                        i <= parts.len(),
                        out@ == parts_text(parts@.take(i as int)),
                    decreases parts.len() - i,
                {
                    assert(parts@.take(i + 1).drop_last() =~= parts@.take(i as int));
                    match &parts[i] {
                        ContentPart::Text { text } => out.append(text.as_str()),
                        ContentPart::ImageUrl { .. } => {
                            assert(out@ + Seq::<char>::empty() =~= out@);
                        },
                    }
                    i = i + 1;
                }
                assert(parts@.take(parts@.len() as int) =~= parts@);
                out
            },
        }
    }
}

impl ContentPart {
    /// A text part.
    pub fn text(text: &str) -> (r: Self)
        ensures
            r matches ContentPart::Text { text: t } && t@ == text@,
    {
        ContentPart::Text { text: String::from_str(text) }
    }

    /// An image part referring to `url`.
    pub fn image_url(url: &str) -> (r: Self)
        ensures
            r matches ContentPart::ImageUrl { image_url } && image_url.url@ == url@
                && image_url.detail is None,
    {
        ContentPart::ImageUrl { image_url: ImageUrl::new(url) }
    }

    /// An image part carrying base64 data.
    pub fn image_base64(data: &str, media_type: &str) -> (r: Self)
        ensures
            r matches ContentPart::ImageUrl { image_url } && image_url.url@ == data_url(
                media_type@,
                data@,
            ) && image_url.detail is None,
    {
        ContentPart::ImageUrl { image_url: ImageUrl::base64(data, media_type) }
    }
}

impl ImageUrl {
    /// An image URL with no detail level.
    pub fn new(url: &str) -> (r: Self)
        ensures
            r.url@ == url@,
            r.detail is None,
    {
        ImageUrl { url: String::from_str(url), detail: None }
    }

    /// A `data:` URL carrying base64 `data` of the given media type.
    pub fn base64(data: &str, media_type: &str) -> (r: Self)
        ensures
            r.url@ == data_url(media_type@, data@),
            r.detail is None,
    {
        let mut url = String::from_str("data:");
        url.append(media_type);
        url.append(";base64,");
        url.append(data);
        ImageUrl { url, detail: None }
    }

    /// Set the detail level.
    pub fn with_detail(self, detail: &str) -> (r: Self)
        ensures
            r.url == self.url,
            r.detail matches Some(d) && d@ == detail@,
    {
        ImageUrl { url: self.url, detail: Some(String::from_str(detail)) }
    }

    /// Whether this is a `data:` URL.
    pub fn is_base64(&self) -> (b: bool)
        ensures
            b == starts_with(self.url@, "data:"@),
    {
        str_starts_with(self.url.as_str(), "data:")
    }

    /// The media type and data of a `data:<media_type>;base64,<data>` URL.
    pub fn parse_base64(&self) -> (r: Option<(&str, &str)>)
        ensures
            r matches Some((m, d)) ==> base64_parts(self.url@) == Some((m@, d@)),
            r is None ==> base64_parts(self.url@) is None,
    {
        proof {
            reveal_strlit("data:");
            reveal_strlit(";base64,");
        }
        if !self.is_base64() {
            return None;
        }
        let url = self.url.as_str();
        let uv = chars_of(url);
        let n = uv.len();
        let after = url.substring_char(5, n);
        let av = chars_of(after);
        let semi = match find_char(&av, ';') {
            Some(k) => k,
            None => return None,
        };
        let media_type = after.substring_char(0, semi);
        let tail = chars_of(";base64,");
        let mut head = chars_of(media_type);
        let mut j: usize = 0;
        while j < tail.len()
            invariant
                j <= tail.len(),
                tail@ == ";base64,"@,
                head@ == media_type@ + tail@.take(j as int),
            decreases tail.len() - j,
        {
            assert(tail@.take(j + 1) =~= tail@.take(j as int).push(tail@[j as int]));
            head.push(tail[j]);
            j = j + 1;
        }
        assert(tail@.take(tail@.len() as int) =~= tail@);
        if !matches_at(&av, &head, 0) {
            return None;
        }
        let hl = head.len();
        let data = after.substring_char(hl, av.len());
        Some((media_type, data))
    }
}

impl Message {
    /// A message with the given role and content.
    pub fn new(role: Role, content: Content) -> (r: Self)
        ensures
            r.role == role,
            r.content == Some(content),
            r.name is None,
            r.tool_calls is None,
            r.tool_call_id is None,
    {
        Message { role, content: Some(content), name: None, tool_calls: None, tool_call_id: None }
    }

    /// A system message.
    pub fn system(content: &str) -> (r: Self)
        ensures
            r.role == Role::System,
            r.content matches Some(Content::Text(t)) && t@ == content@,
            r.name is None,
            r.tool_calls is None,
            r.tool_call_id is None,
    {
        Self::new(Role::System, Content::text(content))
    }

    /// A user message.
    pub fn user(content: &str) -> (r: Self)
        ensures
            r.role == Role::User,
            r.content matches Some(Content::Text(t)) && t@ == content@,
            r.name is None,
            r.tool_calls is None,
            r.tool_call_id is None,
    {
        Self::new(Role::User, Content::text(content))
    }

    /// An assistant message.
    pub fn assistant(content: &str) -> (r: Self)
        ensures
            r.role == Role::Assistant,
            r.content matches Some(Content::Text(t)) && t@ == content@,
            r.name is None,
            r.tool_calls is None,
            r.tool_call_id is None,
    {
        Self::new(Role::Assistant, Content::text(content))
    }

    /// An assistant message carrying tool calls and no content.
    pub fn assistant_with_tool_calls(tool_calls: Vec<ToolCall>) -> (r: Self)
        ensures
            r.role == Role::Assistant,
            r.content is None,
            r.name is None,
            r.tool_calls == Some(tool_calls),
            r.tool_call_id is None,
    {
        Message {
            role: Role::Assistant,
            content: None,
            name: None,
            tool_calls: Some(tool_calls),
            tool_call_id: None,
        }
    }

    /// A tool-result message answering the tool call `tool_call_id`.
    pub fn tool(tool_call_id: &str, content: &str) -> (r: Self)
        ensures
            r.role == Role::Tool,
            r.content matches Some(Content::Text(t)) && t@ == content@,
            r.name is None,
            r.tool_calls is None,
            r.tool_call_id matches Some(id) && id@ == tool_call_id@,
    {
        Message {
            role: Role::Tool,
            content: Some(Content::text(content)),
            name: None,
            tool_calls: None,
            tool_call_id: Some(String::from_str(tool_call_id)),
        }
    }

    /// A user message with multiple content parts.
    pub fn user_with_parts(parts: Vec<ContentPart>) -> (r: Self)
        ensures
            r.role == Role::User,
            r.content == Some(Content::Parts(parts)),
            r.name is None,
            r.tool_calls is None,
            r.tool_call_id is None,
    {
        Self::new(Role::User, Content::parts(parts))
    }

    /// Set the name of the message author.
    pub fn with_name(self, name: &str) -> (r: Self)
        ensures
            r.role == self.role,
            r.content == self.content,
            r.name matches Some(n) && n@ == name@,
            r.tool_calls == self.tool_calls,
            r.tool_call_id == self.tool_call_id,
    {
        Message { name: Some(String::from_str(name)), ..self }
    }

    /// The text of the message's content, if it has content.
    pub fn text_content(&self) -> (r: Option<String>)
        ensures
            self.content matches Some(c) ==> r matches Some(t) && t@ == content_text(c),
            self.content is None ==> r is None,
    {
        match &self.content {
            Some(c) => Some(c.extract_text()),
            None => None,
        }
    }

    /// A user message with no content (the default message).
    pub fn default_message() -> (r: Self)
        ensures
            r.role == Role::User,
            r.content is None,
            r.name is None,
            r.tool_calls is None,
            r.tool_call_id is None,
    {
        Message { role: Role::User, content: None, name: None, tool_calls: None, tool_call_id: None }
    }
}

impl Default for Message {
    fn default() -> (r: Self)
        ensures
            r.role == Role::User,
            r.content is None,
            r.name is None,
            r.tool_calls is None,
            r.tool_call_id is None,
    {
        Self::default_message()
    }
}

/// A `data:` URL built from a media type and base64 data gives them back when
/// parsed, provided the media type holds no `;`.
pub proof fn law_base64_round_trip(media_type: Seq<char>, data: Seq<char>)
    requires
        !media_type.contains(';'),
    ensures
        base64_parts(data_url(media_type, data)) == Some((media_type, data)),
{
    reveal_strlit("data:");
    reveal_strlit(";base64,");
    let url = data_url(media_type, data);
    let scheme = "data:"@;
    let tail = ";base64,"@;
    assert(url.subrange(0, 5) =~= scheme);
    let after = url.subrange(5, url.len() as int);
    assert(after =~= media_type + tail + data);
    assert(after[media_type.len() as int] == ';');
    assert forall|j: int| 0 <= j < media_type.len() implies !crate::text::occurs_at(after, seq![';'], j) by {
        assert(after[j] == media_type[j]);
        if crate::text::occurs_at(after, seq![';'], j) {
            assert(after.subrange(j, j + 1)[0] == ';');
            assert(media_type.contains(';'));
        }
    }
    assert(after.subrange(media_type.len() as int, media_type.len() as int + 1) =~= seq![';']);
    crate::text::lemma_first_match(after, seq![';']);
    assert(crate::text::occurs_at(after, seq![';'], media_type.len() as int));
    assert(crate::text::has_substring(after, seq![';']));
    let k = first_char(after, ';')->0;
    if k > media_type.len() {
        assert(!crate::text::occurs_at(after, seq![';'], media_type.len() as int));
    }
    assert(k == media_type.len());
    assert(after.subrange(0, k) =~= media_type);
    assert(after.subrange(0, (media_type + tail).len() as int) =~= media_type + tail);
    assert(after.subrange((media_type + tail).len() as int, after.len() as int) =~= data);
}

} // verus!
