//! A JSON document model: the payloads the gateway and the providers exchange.
//!
//! Numbers are kept as their JSON text, so that no value is rounded on its way
//! through the library.

use vstd::prelude::*;

verus! {

/// A JSON value.
#[derive(Debug)]
pub enum JsonValue {
    /// `null`.
    Null,
    /// `true` or `false`.
    Bool(bool),
    /// A number, as its JSON text (for example `42` or `0.5`).
    Number(String),
    /// A string.
    Str(String),
    /// An array.
    Array(Vec<JsonValue>),
    /// An object: its members in order.
    Object(Vec<(String, JsonValue)>),
}

/// The mathematical model of a JSON value.
pub enum JsonView {
    Null,
    Bool(bool),
    Number(Seq<char>),
    Str(Seq<char>),
    Array(Seq<JsonView>),
    Object(Seq<(Seq<char>, JsonView)>),
}

/// The model of a JSON value.
pub open spec fn json_view(v: JsonValue) -> JsonView
    decreases v,
{
    match v {
        JsonValue::Null => JsonView::Null,
        JsonValue::Bool(b) => JsonView::Bool(b),
        JsonValue::Number(n) => JsonView::Number(n@),
        JsonValue::Str(s) => JsonView::Str(s@),
        JsonValue::Array(items) => JsonView::Array(items_view(items@)),
        JsonValue::Object(fields) => JsonView::Object(fields_view(fields@)),
    }
}

/// The models of a sequence of JSON values.
pub open spec fn items_view(s: Seq<JsonValue>) -> Seq<JsonView>
    decreases s,
{
    if s.len() == 0 {
        Seq::empty()
    } else {
        seq![json_view(s[0])] + items_view(s.subrange(1, s.len() as int))
    }
}

/// The models of a sequence of object members.
pub open spec fn fields_view(s: Seq<(String, JsonValue)>) -> Seq<(Seq<char>, JsonView)>
    decreases s,
{
    if s.len() == 0 {
        Seq::empty()
    } else {
        seq![(s[0].0@, json_view(s[0].1))] + fields_view(s.subrange(1, s.len() as int))
    }
}

impl View for JsonValue {
    type V = JsonView;

    open spec fn view(&self) -> JsonView {
        json_view(*self)
    }
}

/// `items_view` keeps the length and maps each element to its model.
pub proof fn lemma_items_view(s: Seq<JsonValue>)
    ensures
        items_view(s).len() == s.len(),
        forall|i: int| 0 <= i < s.len() ==> #[trigger] items_view(s)[i] == json_view(s[i]),
    decreases s.len(),
{
    if s.len() > 0 {
        let t = s.subrange(1, s.len() as int);
        lemma_items_view(t);
        assert forall|i: int| 0 <= i < s.len() implies #[trigger] items_view(s)[i] == json_view(
            s[i],
        ) by {
            if i > 0 {
                assert(t[i - 1] == s[i]);
            }
        }
    }
}

/// `fields_view` keeps the length and maps each member to its model.
pub proof fn lemma_fields_view(s: Seq<(String, JsonValue)>)
    ensures
        fields_view(s).len() == s.len(),
        forall|i: int|
            0 <= i < s.len() ==> #[trigger] fields_view(s)[i] == (s[i].0@, json_view(s[i].1)),
    decreases s.len(),
{
    if s.len() > 0 {
        let t = s.subrange(1, s.len() as int);
        lemma_fields_view(t);
        assert forall|i: int| 0 <= i < s.len() implies #[trigger] fields_view(s)[i] == (
            s[i].0@,
            json_view(s[i].1),
        ) by {
            if i > 0 {
                assert(t[i - 1] == s[i]);
            }
        }
    }
}

/// The value of the first member named `key`, if any.
pub open spec fn member(fields: Seq<(Seq<char>, JsonView)>, key: Seq<char>) -> Option<JsonView>
    decreases fields.len(),
{
    if fields.len() == 0 {
        None
    } else if fields[0].0 == key {
        Some(fields[0].1)
    } else {
        member(fields.subrange(1, fields.len() as int), key)
    }
}

/// `v["key"]` where `v` is an object; `None` for a missing member or a non-object.
pub open spec fn get_member(v: JsonView, key: Seq<char>) -> Option<JsonView> {
    match v {
        JsonView::Object(fields) => member(fields, key),
        _ => None,
    }
}

/// The text of a string value.
pub open spec fn str_of(v: JsonView) -> Option<Seq<char>> {
    match v {
        JsonView::Str(s) => Some(s),
        _ => None,
    }
}

/// `v["key"]` when it is a string.
pub open spec fn str_member(v: JsonView, key: Seq<char>) -> Option<Seq<char>> {
    match get_member(v, key) {
        Some(m) => str_of(m),
        None => None,
    }
}

/// The members of `fields` with `key` set to `value`: replaced in place where the
/// key is present, appended where it is not.
pub open spec fn set_member(
    fields: Seq<(Seq<char>, JsonView)>,
    key: Seq<char>,
    value: JsonView,
) -> Seq<(Seq<char>, JsonView)>
    decreases fields.len(),
{
    if fields.len() == 0 {
        seq![(key, value)]
    } else if fields[0].0 == key {
        seq![(key, value)] + fields.subrange(1, fields.len() as int)
    } else {
        seq![fields[0]] + set_member(fields.subrange(1, fields.len() as int), key, value)
    }
}

impl Clone for JsonValue {
    /// A deep copy, with the same model.
    fn clone(&self) -> (r: Self)
        ensures
            r@ == self@,
        decreases self,
    {
        match self {
            JsonValue::Null => JsonValue::Null,
            JsonValue::Bool(b) => JsonValue::Bool(*b),
            JsonValue::Number(n) => JsonValue::Number(n.clone()),
            JsonValue::Str(s) => JsonValue::Str(s.clone()),
            JsonValue::Array(items) => {
                let mut out: Vec<JsonValue> = Vec::new();
                let mut i: usize = 0;
                proof {
                    lemma_items_view(items@);
                }
                while i < items.len()
                    invariant
                        i <= items.len(),
                        *self == JsonValue::Array(*items),
                        out@.len() == i,
                        items_view(items@).len() == items@.len(),
                        forall|j: int| 0 <= j < i ==> #[trigger] json_view(out@[j]) == json_view(
                            items@[j],
                        ),
                    decreases items.len() - i,
                {
                    proof {
                        assert(decreases_to!(*self => self->Array_0));
                        assert(decreases_to!(self->Array_0 => self->Array_0@));
                        assert(decreases_to!(self->Array_0@ => items@[i as int]));
                    }
                    let c = items[i].clone();
                    out.push(c);
                    i = i + 1;
                }
                proof {
                    lemma_items_view(items@);
                    lemma_items_view(out@);
                    assert(items_view(out@) =~= items_view(items@));
                }
                JsonValue::Array(out)
            },
            JsonValue::Object(fields) => {
                let mut out: Vec<(String, JsonValue)> = Vec::new();
                let mut i: usize = 0;
                while i < fields.len()
                    invariant
                        i <= fields.len(),
                        *self == JsonValue::Object(*fields),
                        out@.len() == i,
                        forall|j: int|
                            0 <= j < i ==> #[trigger] out@[j].0@ == fields@[j].0@ && json_view(
                                out@[j].1,
                            ) == json_view(fields@[j].1),
                    decreases fields.len() - i,
                {
                    proof {
                        assert(decreases_to!(*self => self->Object_0));
                        assert(decreases_to!(self->Object_0 => self->Object_0@));
                        assert(decreases_to!(self->Object_0@ => fields@[i as int]));
                        assert(decreases_to!(fields@[i as int] => fields@[i as int].1));
                    }
                    let k = fields[i].0.clone();
                    let c = fields[i].1.clone();
                    out.push((k, c));
                    i = i + 1;
                }
                proof {
                    lemma_fields_view(fields@);
                    lemma_fields_view(out@);
                    assert(fields_view(out@) =~= fields_view(fields@));
                }
                JsonValue::Object(out)
            },
        }
    }
}

impl JsonValue {
    /// A string value holding a copy of `s`.
    pub fn string(s: &str) -> (r: JsonValue)
        ensures
            r@ == JsonView::Str(s@),
    {
        JsonValue::Str(String::from_str(s))
    }

    /// An empty object.
    pub fn empty_object() -> (r: JsonValue)
        ensures
            r@ == JsonView::Object(Seq::empty()),
    {
        let fields: Vec<(String, JsonValue)> = Vec::new();
        proof {
            lemma_fields_view(fields@);
        }
        JsonValue::Object(fields)
    }

    /// An object holding the given members, in order.
    pub fn object(fields: Vec<(String, JsonValue)>) -> (r: JsonValue)
        ensures
            r@ == JsonView::Object(fields_view(fields@)),
    {
        JsonValue::Object(fields)
    }

    /// An array holding the given values, in order.
    pub fn array(items: Vec<JsonValue>) -> (r: JsonValue)
        ensures
            r@ == JsonView::Array(items_view(items@)),
    {
        JsonValue::Array(items)
    }

    /// `self["key"]` where `self` is an object.
    pub fn get(&self, key: &str) -> (r: Option<&JsonValue>)
        ensures
            r matches Some(m) ==> get_member(self@, key@) == Some(m@),
            r is None ==> get_member(self@, key@) is None,
    {
        match self {
            JsonValue::Object(fields) => find_member(fields, key),
            _ => None,
        }
    }

    /// The text of a string value.
    pub fn as_str(&self) -> (r: Option<&String>)
        ensures
            r matches Some(s) ==> str_of(self@) == Some(s@),
            r is None ==> str_of(self@) is None,
    {
        match self {
            JsonValue::Str(s) => Some(s),
            _ => None,
        }
    }

    /// `self["key"]` when it is a string.
    pub fn get_str(&self, key: &str) -> (r: Option<&String>)
        ensures
            r matches Some(s) ==> str_member(self@, key@) == Some(s@),
            r is None ==> str_member(self@, key@) is None,
    {
        match self.get(key) {
            Some(m) => m.as_str(),
            None => None,
        }
    }
}

/// The value of the first member of `fields` named `key`.
pub fn find_member<'a>(fields: &'a Vec<(String, JsonValue)>, key: &str) -> (r: Option<&'a JsonValue>)
    ensures
        r matches Some(m) ==> member(fields_view(fields@), key@) == Some(m@),
        r is None ==> member(fields_view(fields@), key@) is None,
{
    let key_s = String::from_str(key);
    let ghost fv = fields_view(fields@);
    proof {
        lemma_fields_view(fields@);
        assert(fv.subrange(0, fv.len() as int) =~= fv);
    }
    let mut i: usize = 0;
    while i < fields.len()
        invariant
            i <= fields.len(),
            key_s@ == key@,
            fv == fields_view(fields@),
            fv.len() == fields@.len(),
            forall|j: int|
                0 <= j < fields@.len() ==> #[trigger] fv[j] == (fields@[j].0@, json_view(fields@[j].1)),
            member(fv, key@) == member(fv.subrange(i as int, fv.len() as int), key@),
        decreases fields.len() - i,
    {
        let ghost rest = fv.subrange(i as int, fv.len() as int);
        assert(rest[0] == fv[i as int]);
        if fields[i].0 == key_s {
            return Some(&fields[i].1);
        }
        assert(rest.subrange(1, rest.len() as int) =~= fv.subrange(i + 1, fv.len() as int));
        i = i + 1;
    }
    None
}

/// Set `fields[key] = value`, replacing the member where the key is present and
/// appending it where it is not.
pub fn set_field(fields: &mut Vec<(String, JsonValue)>, key: &str, value: JsonValue)
    ensures
        fields_view(final(fields)@) == set_member(fields_view(old(fields)@), key@, value@),
{
    let ghost old_fields = fields@;
    proof {
        lemma_fields_view(fields@);
    }
    let key_s = String::from_str(key);
    let mut i: usize = 0;
    while i < fields.len()
        invariant
            i <= fields.len(),
            key_s@ == key@,
            fields@ == old_fields,
            forall|j: int| 0 <= j < i ==> #[trigger] fields@[j].0@ != key@,
        ensures
            i <= fields.len(),
            fields@ == old_fields,
            forall|j: int| 0 <= j < i ==> #[trigger] fields@[j].0@ != key@,
            i < fields.len() ==> fields@[i as int].0@ == key@,
        decreases fields.len() - i,
    {
        if fields[i].0 == key_s {
            break;
        }
        i = i + 1;
    }
    let ghost pre = fields_view(old_fields);
    proof {
        lemma_fields_view(old_fields);
        lemma_set_member_split(pre, key@, value@, i as int);
    }
    if i < fields.len() {
        fields.set(i, (String::from_str(key), value));
    } else {
        fields.push((String::from_str(key), value));
    }
    proof {
        lemma_fields_view(fields@);
        assert(fields_view(fields@) =~= set_member(pre, key@, value@));
    }
}

/// Where the first member named `key` is at `i` (or none is, `i` being the length),
/// `set_member` replaces position `i` (or appends).
proof fn lemma_set_member_split(
    fields: Seq<(Seq<char>, JsonView)>,
    key: Seq<char>,
    value: JsonView,
    i: int,
)
    requires
        0 <= i <= fields.len(),
        forall|j: int| 0 <= j < i ==> #[trigger] fields[j].0 != key,
        i < fields.len() ==> fields[i].0 == key,
    ensures
        i < fields.len() ==> set_member(fields, key, value) == fields.update(i, (key, value)),
        i == fields.len() ==> set_member(fields, key, value) == fields.push((key, value)),
    decreases i,
{
    if fields.len() == 0 {
        assert(seq![(key, value)] =~= fields.push((key, value)));
    } else if i == 0 {
        assert(seq![(key, value)] + fields.subrange(1, fields.len() as int) =~= fields.update(
            0,
            (key, value),
        ));
    } else {
        let rest = fields.subrange(1, fields.len() as int);
        lemma_set_member_split(rest, key, value, i - 1);
        if i < fields.len() {
            assert(seq![fields[0]] + rest.update(i - 1, (key, value)) =~= fields.update(
                i,
                (key, value),
            ));
        } else {
            assert(seq![fields[0]] + rest.push((key, value)) =~= fields.push((key, value)));
        }
    }
}

/// Append the member `key: value` to `fields`.
pub fn push_field(fields: &mut Vec<(String, JsonValue)>, key: &str, value: JsonValue)
    ensures
        fields_view(final(fields)@) == fields_view(old(fields)@).push((key@, value@)),
{
    let ghost before = fields@;
    fields.push((String::from_str(key), value));
    proof {
        lemma_fields_view(before);
        lemma_fields_view(fields@);
        assert(fields_view(fields@) =~= fields_view(before).push((key@, value@)));
    }
}

/// Append `value` to `items`.
pub fn push_item(items: &mut Vec<JsonValue>, value: JsonValue)
    ensures
        items_view(final(items)@) == items_view(old(items)@).push(value@),
{
    let ghost before = items@;
    items.push(value);
    proof {
        lemma_items_view(before);
        lemma_items_view(items@);
        assert(items_view(items@) =~= items_view(before).push(value@));
    }
}

/// No members yet.
pub fn no_fields() -> (r: Vec<(String, JsonValue)>)
    ensures
        fields_view(r@) == Seq::<(Seq<char>, JsonView)>::empty(),
{
    let r: Vec<(String, JsonValue)> = Vec::new();
    proof {
        lemma_fields_view(r@);
    }
    r
}

/// No items yet.
pub fn no_items() -> (r: Vec<JsonValue>)
    ensures
        items_view(r@) == Seq::<JsonView>::empty(),
{
    let r: Vec<JsonValue> = Vec::new();
    proof {
        lemma_items_view(r@);
    }
    r
}

} // verus!

verus! {

#[verifier::external_type_specification]
#[verifier::external_body]
pub struct ExSerdeJsonValue(serde_json::Value);

/// The value that the JSON text `text` denotes, or `None` where it is not JSON.
pub uninterp spec fn json_parse(text: Seq<char>) -> Option<JsonView>;

/// The compact JSON text of a value.
pub uninterp spec fn json_text(v: JsonView) -> Seq<char>;

/// Parse JSON text, keeping the parser's error.
///
/// Trusted: calls `serde_json::from_str::<serde_json::Value>` and converts the
/// value member by member. The contract names the result (`json_parse`): it
/// depends on the text alone, and the call fails exactly where the name gives
/// no value.
#[verifier::external_body]
pub(crate) fn parse_json_text(text: &str) -> (r: Result<JsonValue, serde_json::Error>)
    ensures
        r matches Ok(v) ==> json_parse(text@) == Some(v@),
        r is Err ==> json_parse(text@) is None,
{
    serde_json::from_str::<serde_json::Value>(text).map(from_serde)
}

/// Parse JSON text; `None` where it is not JSON.
pub(crate) fn parse_json(text: &str) -> (r: Option<JsonValue>)
    ensures
        r matches Some(v) ==> json_parse(text@) == Some(v@),
        r is None ==> json_parse(text@) is None,
{
    match parse_json_text(text) {
        Ok(v) => Some(v),
        Err(_) => None,
    }
}

/// The value that the JSON bytes `bytes` denote, or `None` where they are not
/// JSON.
pub uninterp spec fn json_parse_bytes(bytes: Seq<u8>) -> Option<JsonView>;

/// Parse JSON bytes.
///
/// Trusted: calls `serde_json::from_slice::<serde_json::Value>` and converts
/// the value member by member. The contract names the result
/// (`json_parse_bytes`): it depends on the bytes alone, and the call fails
/// exactly where the name gives no value.
#[verifier::external_body]
pub(crate) fn parse_json_bytes(bytes: &[u8]) -> (r: Result<JsonValue, serde_json::Error>)
    ensures
        r matches Ok(v) ==> json_parse_bytes(bytes@) == Some(v@),
        r is Err ==> json_parse_bytes(bytes@) is None,
{
    serde_json::from_slice::<serde_json::Value>(bytes).map(from_serde)
}

/// Render a value as compact JSON text.
///
/// Trusted: converts to `serde_json::Value` and calls its `to_string`
/// (`Display`, compact form). The contract names the result (`json_text`).
#[verifier::external_body]
pub(crate) fn render_json(v: &JsonValue) -> (r: String)
    ensures
        r@ == json_text(v@),
{
    to_serde(v).to_string()
}

/// Variant-by-variant conversion from serde's value; used only by the parsers above.
#[verifier::external_body]
fn from_serde(v: serde_json::Value) -> JsonValue {
    match v {
        serde_json::Value::Null => JsonValue::Null,
        serde_json::Value::Bool(b) => JsonValue::Bool(b),
        serde_json::Value::Number(n) => JsonValue::Number(n.to_string()),
        serde_json::Value::String(s) => JsonValue::Str(s),
        serde_json::Value::Array(a) => JsonValue::Array(a.into_iter().map(from_serde).collect()),
        serde_json::Value::Object(o) => JsonValue::Object(
            o.into_iter().map(|(k, x)| (k, from_serde(x))).collect(),
        ),
    }
}

/// Variant-by-variant conversion to serde's value; used only by `render_json`.
#[verifier::external_body]
fn to_serde(v: &JsonValue) -> serde_json::Value {
    match v {
        JsonValue::Null => serde_json::Value::Null,
        JsonValue::Bool(b) => serde_json::Value::Bool(*b),
        JsonValue::Number(n) => n.parse::<serde_json::Number>().map(serde_json::Value::Number)
            .unwrap_or(serde_json::Value::Null),
        JsonValue::Str(s) => serde_json::Value::String(s.clone()),
        JsonValue::Array(a) => serde_json::Value::Array(a.iter().map(to_serde).collect()),
        JsonValue::Object(o) => serde_json::Value::Object(
            o.iter().map(|(k, x)| (k.clone(), to_serde(x))).collect(),
        ),
    }
}

} // verus!
