//! JSON documents as plain values, and the calls into `serde_json` that read
//! and write them.

use crate::text::optional_view;
use vstd::prelude::*;

verus! {

/// `serde_json::Value`, of which nothing is known but what the functions
/// below say.
#[verifier::external_type_specification]
#[verifier::external_body]
pub struct ExValue(serde_json::Value);

/// `serde_json::Error`, of which nothing is known but its words.
#[verifier::external_type_specification]
#[verifier::external_body]
pub struct ExError(serde_json::Error);

/// A JSON document. A number is held as the text that stands for it; the
/// members of an object are held in order, and the first of a name counts.
#[derive(Debug, PartialEq, Eq)]
pub enum Json {
    Null,
    Bool(bool),
    Number(String),
    Text(String),
    Array(Vec<Json>),
    Object(Vec<Member>),
}

/// A named member of a JSON object.
#[derive(Debug, PartialEq, Eq)]
pub struct Member {
    pub name: String,
    pub value: Json,
}

/// A JSON document with its texts as character sequences.
pub ghost enum JsonValue {
    Null,
    Bool(bool),
    Number(Seq<char>),
    Text(Seq<char>),
    Array(Seq<JsonValue>),
    Object(Seq<(Seq<char>, JsonValue)>),
}

impl View for Json {
    type V = JsonValue;

    open spec fn view(&self) -> JsonValue
        decreases self,
    {
        match self {
            Json::Null => JsonValue::Null,
            Json::Bool(b) => JsonValue::Bool(*b),
            Json::Number(n) => JsonValue::Number(n@),
            Json::Text(s) => JsonValue::Text(s@),
            Json::Array(items) => JsonValue::Array(
                Seq::new(
                    items@.len(),
                    |i: int|
                        if 0 <= i < items@.len() {
                            items@[i]@
                        } else {
                            JsonValue::Null
                        },
                ),
            ),
            Json::Object(entries) => JsonValue::Object(
                Seq::new(
                    entries@.len(),
                    |i: int|
                        if 0 <= i < entries@.len() {
                            member_view(entries@[i])
                        } else {
                            (Seq::empty(), JsonValue::Null)
                        },
                ),
            ),
        }
    }
}

/// A member with its name as a character sequence and its value as a view.
pub open spec fn member_view(member: Member) -> (Seq<char>, JsonValue)
    decreases member,
{
    (member.name@, member.value@)
}

/// The value of the first of `entries` that is named `key`.
pub open spec fn lookup(entries: Seq<(Seq<char>, JsonValue)>, key: Seq<char>) -> Option<
    JsonValue,
>
    decreases entries.len(),
{
    if entries.len() == 0 {
        None
    } else if entries[0].0 == key {
        Some(entries[0].1)
    } else {
        lookup(entries.drop_first(), key)
    }
}

impl JsonValue {
    /// The member named `key`, where this is an object that has one.
    pub open spec fn member(self, key: Seq<char>) -> Option<JsonValue> {
        match self {
            JsonValue::Object(entries) => lookup(entries, key),
            _ => None,
        }
    }

    /// The first element, where this is an array that has one.
    pub open spec fn first_item(self) -> Option<JsonValue> {
        match self {
            JsonValue::Array(items) => if items.len() > 0 {
                Some(items[0])
            } else {
                None
            },
            _ => None,
        }
    }

    /// The text, where this is a string.
    pub open spec fn text(self) -> Option<Seq<char>> {
        match self {
            JsonValue::Text(s) => Some(s),
            _ => None,
        }
    }
}

/// `value.member(key)`, where there is a value.
pub open spec fn member_of(value: Option<JsonValue>, key: Seq<char>) -> Option<JsonValue> {
    match value {
        Some(json) => json.member(key),
        None => None,
    }
}

/// `value.first_item()`, where there is a value.
pub open spec fn first_of(value: Option<JsonValue>) -> Option<JsonValue> {
    match value {
        Some(json) => json.first_item(),
        None => None,
    }
}

/// `value.text()`, where there is a value.
pub open spec fn text_of(value: Option<JsonValue>) -> Option<Seq<char>> {
    match value {
        Some(json) => json.text(),
        None => None,
    }
}

/// The view of a document that may be absent.
pub open spec fn view_of(value: Option<&Json>) -> Option<JsonValue> {
    match value {
        Some(json) => Some(json@),
        None => None,
    }
}

/// The views of the elements of an array.
pub open spec fn items_view(items: Seq<Json>) -> Seq<JsonValue> {
    Seq::new(items.len(), |i: int| items[i]@)
}

/// The views of the members of an object.
pub open spec fn entries_view(entries: Seq<Member>) -> Seq<(Seq<char>, JsonValue)> {
    Seq::new(entries.len(), |i: int| (entries[i].name@, entries[i].value@))
}

impl Member {
    pub fn new(name: &str, value: Json) -> (member: Member)
        ensures
            member.name@ == name@,
            member.value == value,
    {
        Member { name: name.to_owned(), value }
    }
}

impl Json {
    /// The JSON string that holds `text`.
    pub fn text(text: &str) -> (json: Json)
        ensures
            json@ == JsonValue::Text(text@),
    {
        Json::Text(text.to_owned())
    }

    /// The JSON number that `literal` stands for.
    pub fn number(literal: &str) -> (json: Json)
        ensures
            json@ == JsonValue::Number(literal@),
    {
        Json::Number(literal.to_owned())
    }

    /// The JSON array of `items`.
    pub fn array(items: Vec<Json>) -> (json: Json)
        ensures
            json@ == JsonValue::Array(items_view(items@)),
    {
        let json = Json::Array(items);
        assert(json@->Array_0 =~= items_view(items@));
        json
    }

    /// The JSON object of `entries`.
    pub fn object(entries: Vec<Member>) -> (json: Json)
        ensures
            json@ == JsonValue::Object(entries_view(entries@)),
    {
        let json = Json::Object(entries);
        proof {
            assert forall|i: int| 0 <= i < entries@.len() implies json@->Object_0[i]
                == entries_view(entries@)[i] by {
                assert(member_view(entries@[i]) == (entries@[i].name@, entries@[i].value@));
            }
            assert(json@->Object_0 =~= entries_view(entries@));
        }
        json
    }

    /// The member named `key`, where this is an object that has one.
    pub fn get(&self, key: &str) -> (res: Option<&Json>)
        ensures
            view_of(res) == self@.member(key@),
    {
        match self {
            Json::Object(entries) => {
                let wanted = key.to_owned();
                let n: usize = entries.len();
                let mut i: usize = 0;
                let ghost all = self@->Object_0;
                proof {
                    assert(all.skip(0) == all);
                }
                while i < n
                    invariant
                        i <= n,
                        n == entries@.len(),
                        wanted@ == key@,
                        self@ == JsonValue::Object(all),
                        all.len() == n,
                        forall|j: int|
                            0 <= j < n ==> #[trigger] all[j] == member_view(entries@[j]),
                        lookup(all, key@) == lookup(all.skip(i as int), key@),
                    decreases n - i,
                {
                    proof {
                        let rest = all.skip(i as int);
                        assert(rest[0] == all[i as int]);
                        assert(member_view(entries@[i as int]) == (
                            entries@[i as int].name@,
                            entries@[i as int].value@,
                        ));
                        assert(rest.drop_first() == all.skip(i + 1));
                    }
                    if entries[i].name == wanted {
                        return Some(&entries[i].value);
                    }
                    i += 1;
                }
                None
            },
            _ => None,
        }
    }

    /// The first element, where this is an array that has one.
    pub fn first(&self) -> (res: Option<&Json>)
        ensures
            view_of(res) == self@.first_item(),
    {
        match self {
            Json::Array(items) => {
                if items.len() > 0 {
                    Some(&items[0])
                } else {
                    None
                }
            },
            _ => None,
        }
    }

    /// The text, where this is a string.
    pub fn as_str(&self) -> (res: Option<&str>)
        ensures
            optional_view(res) == self@.text(),
    {
        match self {
            Json::Text(s) => Some(s.as_str()),
            _ => None,
        }
    }
}

/// `Json::get` on a document that may be absent.
pub fn get_of<'a>(value: Option<&'a Json>, key: &str) -> (res: Option<&'a Json>)
    ensures
        view_of(res) == member_of(view_of(value), key@),
{
    match value {
        Some(json) => json.get(key),
        None => None,
    }
}

/// `Json::first` on a document that may be absent.
pub fn first_in<'a>(value: Option<&'a Json>) -> (res: Option<&'a Json>)
    ensures
        view_of(res) == first_of(view_of(value)),
{
    match value {
        Some(json) => json.first(),
        None => None,
    }
}

/// `Json::as_str` on a document that may be absent.
pub fn str_of<'a>(value: Option<&'a Json>) -> (res: Option<&'a str>)
    ensures
        optional_view(res) == text_of(view_of(value)),
{
    match value {
        Some(json) => json.as_str(),
        None => None,
    }
}

/// What `serde_json::from_str` makes of `text`: the document that it reads,
/// or the words with which it refuses the text.
pub uninterp spec fn json_document(text: Seq<char>) -> Result<JsonValue, Seq<char>>;

/// The document that a `serde_json::Value` holds: its variants one for one,
/// a number as the text that `serde_json` prints for it, the members of an
/// object in the order in which its map hands them out.
pub uninterp spec fn value_json(value: serde_json::Value) -> JsonValue;

/// The words of a `serde_json::Error`, as its `Display` gives them.
pub uninterp spec fn failure_text(error: serde_json::Error) -> Seq<char>;

/// The compact JSON text that `serde_json` writes for a document.
pub uninterp spec fn compact_text(json: JsonValue) -> Seq<char>;

/// `serde_json::from_str` for a `Value`. Nothing is proved of it. What is
/// taken on trust: reading is a function of the text alone, so the same text
/// gives the same document or the same refusal.
#[verifier::external_body]
fn parse_value(text: &str) -> (res: Result<serde_json::Value, serde_json::Error>)
    ensures
        match res {
            Ok(value) => json_document(text@) == Ok::<JsonValue, Seq<char>>(value_json(value)),
            Err(error) => json_document(text@) == Err::<JsonValue, Seq<char>>(failure_text(error)),
        },
{
    serde_json::from_str::<serde_json::Value>(text)
}

/// Copies a `serde_json::Value` into a `Json`, variant by variant; a number
/// through `Number`'s `Display`, an object's members through `Map::iter`.
/// Nothing is proved of it: what it returns is what `value_json` names.
#[verifier::external_body]
fn json_of_value(value: &serde_json::Value) -> (json: Json)
    ensures
        json@ == value_json(*value),
{
    match value {
        serde_json::Value::Null => Json::Null,
        serde_json::Value::Bool(b) => Json::Bool(*b),
        serde_json::Value::Number(n) => Json::Number(n.to_string()),
        serde_json::Value::String(s) => Json::Text(s.clone()),
        serde_json::Value::Array(a) => Json::Array(a.iter().map(json_of_value).collect()),
        serde_json::Value::Object(m) => Json::Object(
            m.iter().map(|(k, v)| Member { name: k.clone(), value: json_of_value(v) }).collect(),
        ),
    }
}

/// `Display` of `serde_json::Error`. Nothing is proved of it: what it returns
/// is what `failure_text` names.
#[verifier::external_body]
fn error_text(error: &serde_json::Error) -> (res: String)
    ensures
        res@ == failure_text(*error),
{
    error.to_string()
}

/// `serde_json::Value::get` with a name. Nothing is proved of it. What is
/// taken on trust: it hands out the member of that name where the value is an
/// object that has one, and nothing where the value is no object or has no
/// such member.
#[verifier::external_body]
fn value_member<'a>(value: &'a serde_json::Value, key: &str) -> (res: Option<
    &'a serde_json::Value,
>)
    ensures
        match res {
            Some(member) => value_json(*value).member(key@) == Some(value_json(*member)),
            None => value_json(*value).member(key@) is None,
        },
{
    value.get(key)
}

/// `Display` of `serde_json::Value`. Nothing is proved of it. What is taken
/// on trust: the text that it writes depends on the document alone.
#[verifier::external_body]
fn value_text(value: &serde_json::Value) -> (res: String)
    ensures
        res@ == compact_text(value_json(*value)),
{
    value.to_string()
}

/// A reply read as JSON.
pub struct Reply {
    /// The document.
    pub json: Json,
    /// The compact text of the document's member `error`, where it has one.
    pub error_text: Option<String>,
}

/// What a reply holds of the document `json`.
pub open spec fn reply_of(reply: Reply, json: JsonValue) -> bool {
    &&& reply.json@ == json
    &&& match reply.error_text {
        Some(text) => json.member("error"@) matches Some(error) && text@ == compact_text(error),
        None => json.member("error"@) is None,
    }
}

/// Reads `text` as a JSON document.
pub fn read_reply(text: &str) -> (res: Result<Reply, String>)
    ensures
        match res {
            Ok(reply) => json_document(text@) matches Ok(json) && reply_of(reply, json),
            Err(detail) => json_document(text@) == Err::<JsonValue, Seq<char>>(detail@),
        },
{
    match parse_value(text) {
        Ok(value) => {
            let json = json_of_value(&value);
            let error_text = match value_member(&value, "error") {
                Some(member) => Some(value_text(member)),
                None => None,
            };
            Ok(Reply { json, error_text })
        },
        Err(error) => Err(error_text(&error)),
    }
}

} // verus!
