//! The neutral record representation that travels through handlers, router
//! and datasources: a JSON document.
//!
//! Parsing and printing are done by `serde_json`; this module holds the
//! document as plain data, so that the logic that reads it can be verified.

use crate::string_map::{key_index, lemma_key_index_is, lemma_key_index_none, lookup, put};
use crate::text::same_text;
use serde_json::Value;
use vstd::prelude::*;

verus! {

/// A JSON number. Integers are held as integers; every other number is held
/// in the notation in which `serde_json` prints it.
#[derive(Debug, PartialEq, Eq)]
pub enum JsonNumber {
    /// An integer that fits in `i64`.
    Int(i64),
    /// An integer above `i64::MAX`.
    UInt(u64),
    /// A number with a fraction or an exponent.
    Real(String),
}

/// A JSON document.
#[derive(Debug, PartialEq, Eq)]
pub enum JsonValue {
    Null,
    Bool(bool),
    Number(JsonNumber),
    Text(String),
    Array(Vec<JsonValue>),
    /// The members in order. A key is looked up at its first occurrence.
    Object(Vec<(String, JsonValue)>),
}

/// The mathematical content of a [`JsonNumber`].
pub ghost enum NumberModel {
    Int(i64),
    UInt(u64),
    Real(Seq<char>),
}

/// The mathematical content of a [`JsonValue`].
pub ghost enum JsonModel {
    Null,
    Bool(bool),
    Number(NumberModel),
    Text(Seq<char>),
    Array(Seq<JsonModel>),
    Object(Seq<(Seq<char>, JsonModel)>),
}

impl View for JsonNumber {
    type V = NumberModel;

    open spec fn view(&self) -> NumberModel {
        match self {
            JsonNumber::Int(i) => NumberModel::Int(*i),
            JsonNumber::UInt(u) => NumberModel::UInt(*u),
            JsonNumber::Real(t) => NumberModel::Real(t@),
        }
    }
}

/// The mathematical content of a document.
pub open spec fn model_of(document: JsonValue) -> JsonModel
    decreases document,
{
    match document {
        JsonValue::Null => JsonModel::Null,
        JsonValue::Bool(b) => JsonModel::Bool(b),
        JsonValue::Number(n) => JsonModel::Number(n@),
        JsonValue::Text(t) => JsonModel::Text(t@),
        JsonValue::Array(items) => JsonModel::Array(
            Seq::new(
                items@.len(),
                |i: int|
                    if 0 <= i < items@.len() {
                        model_of(items@[i])
                    } else {
                        JsonModel::Null
                    },
            ),
        ),
        JsonValue::Object(members) => JsonModel::Object(
            Seq::new(
                members@.len(),
                |i: int|
                    if 0 <= i < members@.len() {
                        (members@[i].0@, model_of(members@[i].1))
                    } else {
                        (Seq::empty(), JsonModel::Null)
                    },
            ),
        ),
    }
}

impl View for JsonValue {
    type V = JsonModel;

    open spec fn view(&self) -> JsonModel {
        model_of(*self)
    }
}

/// The members of a list of key-value pairs, as the model of an object has them.
pub open spec fn members_view(members: Seq<(String, JsonValue)>) -> Seq<(Seq<char>, JsonModel)> {
    Seq::new(members.len(), |i: int| (members[i].0@, members[i].1@))
}

/// The documents of a list, as the model of an array has them.
pub open spec fn items_view(items: Seq<JsonValue>) -> Seq<JsonModel> {
    Seq::new(items.len(), |i: int| items[i]@)
}

/// The member of an object under `key`; nothing for a document that is no object.
pub open spec fn member_of(document: JsonModel, key: Seq<char>) -> Option<JsonModel> {
    match document {
        JsonModel::Object(members) => lookup(members, key),
        _ => None,
    }
}

/// The view of an object is the view of its members, and that of an array the
/// view of its items.
pub proof fn lemma_view_of_parts(document: JsonValue)
    ensures
        document matches JsonValue::Object(members) ==> document@ == JsonModel::Object(
            members_view(members@),
        ),
        document matches JsonValue::Array(items) ==> document@ == JsonModel::Array(
            items_view(items@),
        ),
{
    match document {
        JsonValue::Object(members) => {
            assert(document@->Object_0 =~= members_view(members@));
        },
        JsonValue::Array(items) => {
            assert(document@->Array_0 =~= items_view(items@));
        },
        _ => {},
    }
}

impl Clone for JsonNumber {
    fn clone(&self) -> (r: Self)
        ensures
            r@ == self@,
    {
        match self {
            JsonNumber::Int(i) => JsonNumber::Int(*i),
            JsonNumber::UInt(u) => JsonNumber::UInt(*u),
            JsonNumber::Real(t) => JsonNumber::Real(t.clone()),
        }
    }
}

impl Clone for JsonValue {
    fn clone(&self) -> (r: Self)
        ensures
            r@ == self@,
        decreases self,
    {
        match self {
            JsonValue::Null => JsonValue::Null,
            JsonValue::Bool(b) => JsonValue::Bool(*b),
            JsonValue::Number(n) => JsonValue::Number(n.clone()),
            JsonValue::Text(t) => JsonValue::Text(t.clone()),
            JsonValue::Array(items) => {
                let mut out: Vec<JsonValue> = Vec::new();
                let mut i: usize = 0;
                while i < items.len()
                    invariant
                        i <= items.len(),
                        out@.len() == i,
                        forall|j: int| 0 <= j < i ==> out@[j]@ == items@[j]@,
                        *self == JsonValue::Array(*items),
                    decreases items.len() - i,
                {
                    proof {
                        assert(self->Array_0 == *items);
                    }
                    out.push(items[i].clone());
                    i = i + 1;
                }
                let r = JsonValue::Array(out);
                proof {
                    lemma_view_of_parts(r);
                    lemma_view_of_parts(*self);
                    assert(items_view(out@) =~= items_view(items@));
                }
                r
            },
            JsonValue::Object(members) => {
                let mut out: Vec<(String, JsonValue)> = Vec::new();
                let mut i: usize = 0;
                while i < members.len()
                    invariant
                        i <= members.len(),
                        out@.len() == i,
                        forall|j: int|
                            0 <= j < i ==> out@[j].0@ == members@[j].0@ && out@[j].1@
                                == members@[j].1@,
                        *self == JsonValue::Object(*members),
                    decreases members.len() - i,
                {
                    proof {
                        assert(self->Object_0 == *members);
                    }
                    out.push((members[i].0.clone(), members[i].1.clone()));
                    i = i + 1;
                }
                let r = JsonValue::Object(out);
                proof {
                    lemma_view_of_parts(r);
                    lemma_view_of_parts(*self);
                    assert(members_view(out@) =~= members_view(members@));
                }
                r
            },
        }
    }
}

/// Position of the first member with the given key.
pub fn member_position(members: &Vec<(String, JsonValue)>, key: &str) -> (r: Option<usize>)
    ensures
        match r {
            Some(i) => key_index(members_view(members@), key@) == Some(i as int) && i
                < members@.len(),
            None => key_index(members_view(members@), key@) is None,
        },
{
    let ghost model = members_view(members@);
    let mut i: usize = 0;
    while i < members.len()
        invariant
            i <= members@.len(),
            model == members_view(members@),
            forall|j: int| 0 <= j < i ==> (#[trigger] model[j]).0 != key@,
        decreases members@.len() - i,
    {
        if same_text(members[i].0.as_str(), key) {
            proof {
                lemma_key_index_is(model, key@, i as int);
            }
            return Some(i);
        }
        i = i + 1;
    }
    proof {
        lemma_key_index_none(model, key@);
    }
    None
}

/// Stores `value` under `key` among the members of an object: an existing
/// member is overwritten where it stands, a new key goes to the end.
pub fn set_member(members: &mut Vec<(String, JsonValue)>, key: String, value: JsonValue)
    ensures
        members_view(final(members)@) == put(members_view(old(members)@), key@, value@),
{
    match member_position(members, key.as_str()) {
        Some(i) => {
            members.set(i, (key, value));
        },
        None => {
            members.push((key, value));
        },
    }
}

impl JsonValue {
    /// The document as it is written: a copy in which every number that is
    /// held as text and is no number is replaced by `null`.
    pub fn to_written_form(&self) -> (r: Self)
        ensures
            r@ == written_form(self@),
            writable(r@),
        decreases self,
    {
        match self {
            JsonValue::Null => JsonValue::Null,
            JsonValue::Bool(b) => JsonValue::Bool(*b),
            JsonValue::Number(JsonNumber::Real(text)) => {
                if is_json_number(text.as_str()) {
                    JsonValue::Number(JsonNumber::Real(text.clone()))
                } else {
                    JsonValue::Null
                }
            },
            JsonValue::Number(n) => JsonValue::Number(n.clone()),
            JsonValue::Text(t) => JsonValue::Text(t.clone()),
            JsonValue::Array(items) => {
                let mut out: Vec<JsonValue> = Vec::new();
                let mut i: usize = 0;
                while i < items.len()
                    invariant
                        i <= items.len(),
                        out@.len() == i,
                        forall|j: int|
                            0 <= j < i ==> out@[j]@ == written_form(items@[j]@) && writable(
                                out@[j]@,
                            ),
                        *self == JsonValue::Array(*items),
                    decreases items.len() - i,
                {
                    proof {
                        assert(self->Array_0 == *items);
                        assert(decreases_to!(*self => self->Array_0));
                    }
                    out.push(items[i].to_written_form());
                    i = i + 1;
                }
                let r = JsonValue::Array(out);
                proof {
                    lemma_view_of_parts(r);
                    lemma_view_of_parts(*self);
                    assert(r@->Array_0 =~= written_form(self@)->Array_0);
                }
                r
            },
            JsonValue::Object(members) => {
                let mut out: Vec<(String, JsonValue)> = Vec::new();
                let mut i: usize = 0;
                while i < members.len()
                    invariant
                        i <= members.len(),
                        out@.len() == i,
                        forall|j: int|
                            0 <= j < i ==> out@[j].0@ == members@[j].0@ && out@[j].1@
                                == written_form(members@[j].1@) && writable(out@[j].1@),
                        *self == JsonValue::Object(*members),
                    decreases members.len() - i,
                {
                    proof {
                        assert(self->Object_0 == *members);
                        assert(decreases_to!(*self => self->Object_0));
                    }
                    out.push((members[i].0.clone(), members[i].1.to_written_form()));
                    i = i + 1;
                }
                let r = JsonValue::Object(out);
                proof {
                    lemma_view_of_parts(r);
                    lemma_view_of_parts(*self);
                    assert(r@->Object_0 =~= written_form(self@)->Object_0);
                }
                r
            },
        }
    }

    /// Whether the document is an object.
    pub fn is_object(&self) -> (r: bool)
        ensures
            r == (self@ is Object),
    {
        match self {
            JsonValue::Object(_) => true,
            _ => false,
        }
    }

    /// The member of an object under `key`.
    pub fn get(&self, key: &str) -> (r: Option<&JsonValue>)
        ensures
            match r {
                Some(v) => member_of(self@, key@) == Some(v@),
                None => member_of(self@, key@) is None,
            },
    {
        proof {
            lemma_view_of_parts(*self);
        }
        match self {
            JsonValue::Object(members) => {
                match member_position(members, key) {
                    Some(i) => Some(&members[i].1),
                    None => None,
                }
            },
            _ => None,
        }
    }
}

#[verifier::external_type_specification]
#[verifier::external_body]
pub struct ExSerdeValue(serde_json::Value);

#[verifier::external_type_specification]
#[verifier::external_body]
pub struct ExSerdeError(serde_json::Error);

/// What `serde_json::from_str` makes of a text.
pub uninterp spec fn serde_parsed(text: Seq<char>) -> Result<serde_json::Value, serde_json::Error>;

/// The document that a `serde_json::Value` holds.
pub uninterp spec fn document_of(value: serde_json::Value) -> JsonModel;

/// The message of a `serde_json::Error`.
pub uninterp spec fn serde_error_text(error: serde_json::Error) -> Seq<char>;

/// The `serde_json::Value` that holds a document.
pub uninterp spec fn serde_form(document: JsonModel) -> serde_json::Value;

/// What `serde_json::to_string` prints for a value.
pub uninterp spec fn serde_printed(value: serde_json::Value) -> Result<
    Seq<char>,
    serde_json::Error,
>;

/// Calls `serde_json::from_str` for a `Value`. The result is a function of the
/// text alone; it is named, not described.
#[verifier::external_body]
fn serde_parse(text: &str) -> (r: Result<serde_json::Value, serde_json::Error>)
    ensures
        r == serde_parsed(text@),
{
    serde_json::from_str::<Value>(text)
}

/// Turns a `serde_json::Value` into a [`JsonValue`], variant by variant. A
/// number becomes `Int` where `Number::as_i64` gives one, `UInt` where
/// `Number::as_u64` does, and else `Real` with the text that the number prints.
#[verifier::external_body]
fn document_from_serde(value: serde_json::Value) -> (r: JsonValue)
    ensures
        r@ == document_of(value),
{
    match value {
        Value::Null => JsonValue::Null,
        Value::Bool(b) => JsonValue::Bool(b),
        Value::Number(n) => JsonValue::Number(match (n.as_i64(), n.as_u64()) {
            (Some(i), _) => JsonNumber::Int(i),
            (_, Some(u)) => JsonNumber::UInt(u),
            _ => JsonNumber::Real(n.to_string()),
        }),
        Value::String(s) => JsonValue::Text(s),
        Value::Array(a) => JsonValue::Array(a.into_iter().map(document_from_serde).collect()),
        Value::Object(m) => JsonValue::Object(
            m.into_iter().map(|(k, v)| (k, document_from_serde(v))).collect(),
        ),
    }
}

/// Renders a `serde_json::Error` with its `Display` impl.
#[verifier::external_body]
fn serde_error_message(error: &serde_json::Error) -> (r: String)
    ensures
        r@ == serde_error_text(*error),
{
    error.to_string()
}

/// Whether `serde_json` reads a text as a number: what `str::parse` says for
/// `serde_json::Number`.
pub uninterp spec fn json_number(text: Seq<char>) -> bool;

/// Asks `serde_json` whether a text is a number, by parsing it as a
/// `serde_json::Number`.
#[verifier::external_body]
fn is_json_number(text: &str) -> (r: bool)
    ensures
        r == json_number(text@),
{
    text.parse::<serde_json::Number>().is_ok()
}

/// Turns a [`JsonValue`] into a `serde_json::Value`, variant by variant. Every
/// `Real` has to hold the text of a number. Of two members with one key the
/// later one stays.
#[verifier::external_body]
fn document_to_serde(document: &JsonValue) -> (r: serde_json::Value)
    requires
        writable(document@),
    ensures
        r == serde_form(document@),
{
    match document {
        JsonValue::Null => Value::Null,
        JsonValue::Bool(b) => Value::Bool(*b),
        JsonValue::Number(JsonNumber::Int(i)) => Value::from(*i),
        JsonValue::Number(JsonNumber::UInt(u)) => Value::from(*u),
        JsonValue::Number(JsonNumber::Real(t)) => Value::Number(t.parse().unwrap()),
        JsonValue::Text(t) => Value::String(t.clone()),
        JsonValue::Array(a) => Value::Array(a.iter().map(document_to_serde).collect()),
        JsonValue::Object(m) => Value::Object(
            m.iter().map(|(k, v)| (k.clone(), document_to_serde(v))).collect(),
        ),
    }
}

/// Calls `serde_json::to_string`. The result is a function of the value
/// alone; it is named, not described.
#[verifier::external_body]
fn serde_print(value: &serde_json::Value) -> (r: Result<String, serde_json::Error>)
    ensures
        match r {
            Ok(text) => serde_printed(*value) == Ok::<Seq<char>, serde_json::Error>(text@),
            Err(e) => serde_printed(*value) == Err::<Seq<char>, serde_json::Error>(e),
        },
{
    serde_json::to_string(value)
}

/// The document that a text holds, or the message that says why it holds none.
pub open spec fn parse_result(text: Seq<char>) -> Result<JsonModel, Seq<char>> {
    match serde_parsed(text) {
        Ok(value) => Ok(document_of(value)),
        Err(error) => Err(serde_error_text(error)),
    }
}

/// Whether a document can be written as it is: every number that is held as
/// text holds the text of a number.
pub open spec fn writable(document: JsonModel) -> bool
    decreases document,
{
    match document {
        JsonModel::Number(NumberModel::Real(text)) => json_number(text),
        JsonModel::Array(items) => forall|i: int|
            0 <= i < items.len() ==> writable(#[trigger] items[i]),
        JsonModel::Object(members) => forall|i: int|
            0 <= i < members.len() ==> writable((#[trigger] members[i]).1),
        _ => true,
    }
}

/// The document as it is written: a number that is held as text and is no
/// number is written as `null`, wherever it stands; everything else is
/// written as it is.
pub open spec fn written_form(document: JsonModel) -> JsonModel
    decreases document,
{
    match document {
        JsonModel::Number(NumberModel::Real(text)) => if json_number(text) {
            document
        } else {
            JsonModel::Null
        },
        JsonModel::Array(items) => JsonModel::Array(
            Seq::new(
                items.len(),
                |i: int|
                    if 0 <= i < items.len() {
                        written_form(items[i])
                    } else {
                        JsonModel::Null
                    },
            ),
        ),
        JsonModel::Object(members) => JsonModel::Object(
            Seq::new(
                members.len(),
                |i: int|
                    if 0 <= i < members.len() {
                        (members[i].0, written_form(members[i].1))
                    } else {
                        (Seq::empty(), JsonModel::Null)
                    },
            ),
        ),
        _ => document,
    }
}

/// The JSON text of a document, or the message that says why it has none.
pub open spec fn render_result(document: JsonModel) -> Result<Seq<char>, Seq<char>> {
    match serde_printed(serde_form(written_form(document))) {
        Ok(text) => Ok(text),
        Err(error) => Err(serde_error_text(error)),
    }
}

/// Reads a JSON document from its text.
pub fn parse(text: &str) -> (r: Result<JsonValue, String>)
    ensures
        match r {
            Ok(document) => parse_result(text@) == Ok::<JsonModel, Seq<char>>(document@),
            Err(message) => parse_result(text@) == Err::<JsonModel, Seq<char>>(message@),
        },
{
    match serde_parse(text) {
        Ok(value) => Ok(document_from_serde(value)),
        Err(error) => Err(serde_error_message(&error)),
    }
}

/// Writes a document as JSON text.
pub fn render(document: &JsonValue) -> (r: Result<String, String>)
    ensures
        match r {
            Ok(text) => render_result(document@) == Ok::<Seq<char>, Seq<char>>(text@),
            Err(message) => render_result(document@) == Err::<Seq<char>, Seq<char>>(message@),
        },
{
    let clean = document.to_written_form();
    let value = document_to_serde(&clean);
    match serde_print(&value) {
        Ok(text) => Ok(text),
        Err(error) => Err(serde_error_message(&error)),
    }
}

} // verus!
