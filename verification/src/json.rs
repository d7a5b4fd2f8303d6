//! A tagged JSON value with a mathematical model.
//!
//! Protocol payloads are structurally open, so the library carries them as
//! [`JsonValue`] trees. Contracts speak of the tree's model, a [`JsonModel`].
//! Text is turned into trees, and trees into text, by `serde_json`.

use crate::text::same_text;
use serde_json::Value;
use vstd::prelude::*;

verus! {

/// The mathematical content of a JSON document.
pub enum JsonModel {
    Null,
    Bool(bool),
    /// A number without fraction or exponent.
    Integer(int),
    /// Any other number, by its literal text.
    Decimal(Seq<char>),
    Text(Seq<char>),
    List(Seq<JsonModel>),
    /// The members of an object, in document order.
    Record(Seq<(Seq<char>, JsonModel)>),
}

/// A JSON number.
#[derive(Debug, Clone, PartialEq, Eq)]
pub enum JsonNumber {
    Unsigned(u64),
    Negative(i64),
    /// A number with a fraction or an exponent, kept as its literal text.
    Decimal(String),
}

/// A JSON document held as a tree.
#[derive(Debug, PartialEq, Eq)]
pub enum JsonValue {
    Null,
    Bool(bool),
    Number(JsonNumber),
    String(String),
    Array(Vec<JsonValue>),
    Object(Vec<(String, JsonValue)>),
}

/// The model of a tree.
pub open spec fn model_of(value: JsonValue) -> JsonModel
    decreases value,
{
    match value {
        JsonValue::Null => JsonModel::Null,
        JsonValue::Bool(b) => JsonModel::Bool(b),
        JsonValue::Number(JsonNumber::Unsigned(u)) => JsonModel::Integer(u as int),
        JsonValue::Number(JsonNumber::Negative(i)) => JsonModel::Integer(i as int),
        JsonValue::Number(JsonNumber::Decimal(t)) => JsonModel::Decimal(t@),
        JsonValue::String(t) => JsonModel::Text(t@),
        JsonValue::Array(items) => JsonModel::List(
            Seq::new(
                items@.len(),
                |i: int|
                    if 0 <= i < items@.len() {
                        model_of(items@[i])
                    } else {
                        JsonModel::Null
                    },
            ),
        ),
        JsonValue::Object(entries) => JsonModel::Record(
            Seq::new(
                entries@.len(),
                |i: int|
                    if 0 <= i < entries@.len() {
                        (entries@[i].0@, model_of(entries@[i].1))
                    } else {
                        (Seq::empty(), JsonModel::Null)
                    },
            ),
        ),
    }
}

impl View for JsonValue {
    type V = JsonModel;

    open spec fn view(&self) -> JsonModel {
        model_of(*self)
    }
}

/// The models of a sequence of values.
pub open spec fn list_model(items: Seq<JsonValue>) -> Seq<JsonModel> {
    Seq::new(items.len(), |i: int| items[i]@)
}

/// The models of a sequence of object members.
pub open spec fn record_model(entries: Seq<(String, JsonValue)>) -> Seq<(Seq<char>, JsonModel)> {
    Seq::new(entries.len(), |i: int| (entries[i].0@, entries[i].1@))
}

/// The value of the first member named `key`, if there is one.
pub open spec fn member(entries: Seq<(Seq<char>, JsonModel)>, key: Seq<char>) -> Option<JsonModel>
    decreases entries.len(),
{
    if entries.len() == 0 {
        None
    } else if entries[0].0 == key {
        Some(entries[0].1)
    } else {
        member(entries.drop_first(), key)
    }
}

impl JsonModel {
    /// The member `key` of an object; `None` for a missing member and for
    /// anything that is no object.
    pub open spec fn field(self, key: Seq<char>) -> Option<JsonModel> {
        match self {
            JsonModel::Record(entries) => member(entries, key),
            _ => None,
        }
    }

    /// The member `key` of an object, where an explicit `null` counts as
    /// absent.
    pub open spec fn present_field(self, key: Seq<char>) -> Option<JsonModel> {
        match self.field(key) {
            Some(JsonModel::Null) => None,
            other => other,
        }
    }

    /// The characters of a string value.
    pub open spec fn text(self) -> Option<Seq<char>> {
        match self {
            JsonModel::Text(t) => Some(t),
            _ => None,
        }
    }

    /// The number, if it is an integer that fits in 64 unsigned bits.
    pub open spec fn unsigned(self) -> Option<u64> {
        match self {
            JsonModel::Integer(n) => if 0 <= n <= u64::MAX {
                Some(n as u64)
            } else {
                None
            },
            _ => None,
        }
    }

    /// The number, if it is an integer that fits in 64 signed bits.
    pub open spec fn signed(self) -> Option<i64> {
        match self {
            JsonModel::Integer(n) => if i64::MIN <= n <= i64::MAX {
                Some(n as i64)
            } else {
                None
            },
            _ => None,
        }
    }

    /// The elements of an array.
    pub open spec fn items(self) -> Option<Seq<JsonModel>> {
        match self {
            JsonModel::List(items) => Some(items),
            _ => None,
        }
    }
}

/// An array's model is the list of its elements' models.
pub proof fn lemma_array_model(items: Vec<JsonValue>)
    ensures
        JsonValue::Array(items)@ == JsonModel::List(list_model(items@)),
{
    assert(JsonValue::Array(items)@->List_0 =~= list_model(items@));
}

/// An object's model is the list of its members' models.
pub proof fn lemma_object_model(entries: Vec<(String, JsonValue)>)
    ensures
        JsonValue::Object(entries)@ == JsonModel::Record(record_model(entries@)),
{
    assert(JsonValue::Object(entries)@->Record_0 =~= record_model(entries@));
}

/// Looking a key up in a list of members skips the members before the first
/// one of that name.
proof fn lemma_member_skip(entries: Seq<(Seq<char>, JsonModel)>, key: Seq<char>, i: int)
    requires
        0 <= i < entries.len(),
        forall|k: int| 0 <= k < i ==> entries[k].0 != key,
    ensures
        member(entries, key) == if entries[i].0 == key {
            Some(entries[i].1)
        } else {
            member(entries.skip(i + 1), key)
        },
    decreases i,
{
    if i == 0 {
        assert(entries.drop_first() =~= entries.skip(1));
    } else {
        let rest = entries.drop_first();
        assert(entries[0].0 != key);
        assert forall|k: int| 0 <= k < i - 1 implies rest[k].0 != key by {
            assert(rest[k] == entries[k + 1]);
        }
        lemma_member_skip(rest, key, i - 1);
        assert(rest.skip(i) =~= entries.skip(i + 1));
    }
}

impl JsonValue {
    /// The value `null`.
    pub fn null() -> (out: JsonValue)
        ensures
            out@ == JsonModel::Null,
    {
        JsonValue::Null
    }

    /// A boolean value.
    pub fn boolean(b: bool) -> (out: JsonValue)
        ensures
            out@ == JsonModel::Bool(b),
    {
        JsonValue::Bool(b)
    }

    /// A non-negative integer.
    pub fn unsigned(n: u64) -> (out: JsonValue)
        ensures
            out@ == JsonModel::Integer(n as int),
    {
        JsonValue::Number(JsonNumber::Unsigned(n))
    }

    /// An integer of either sign.
    pub fn signed(n: i64) -> (out: JsonValue)
        ensures
            out@ == JsonModel::Integer(n as int),
    {
        if n >= 0 {
            JsonValue::Number(JsonNumber::Unsigned(n as u64))
        } else {
            JsonValue::Number(JsonNumber::Negative(n))
        }
    }

    /// A string value.
    pub fn text(s: &str) -> (out: JsonValue)
        ensures
            out@ == JsonModel::Text(s@),
    {
        JsonValue::String(s.to_owned())
    }

    /// An array of the given elements.
    pub fn array(items: Vec<JsonValue>) -> (out: JsonValue)
        ensures
            out@ == JsonModel::List(list_model(items@)),
    {
        proof {
            lemma_array_model(items);
        }
        JsonValue::Array(items)
    }

    /// An object of the given members, in the given order.
    pub fn object(entries: Vec<(String, JsonValue)>) -> (out: JsonValue)
        ensures
            out@ == JsonModel::Record(record_model(entries@)),
    {
        proof {
            lemma_object_model(entries);
        }
        JsonValue::Object(entries)
    }

    /// Whether this is an object.
    pub fn is_object(&self) -> (out: bool)
        ensures
            out == (self@ is Record),
    {
        match self {
            JsonValue::Object(_) => true,
            _ => false,
        }
    }

    /// Whether this is `null`.
    pub fn is_null(&self) -> (out: bool)
        ensures
            out == (self@ == JsonModel::Null),
    {
        match self {
            JsonValue::Null => true,
            _ => false,
        }
    }

    /// The text of a string value.
    pub fn as_text(&self) -> (out: Option<&String>)
        ensures
            match out {
                Some(t) => self@.text() == Some(t@),
                None => self@.text() is None,
            },
    {
        match self {
            JsonValue::String(t) => Some(t),
            _ => None,
        }
    }

    /// The number as `u64`, where it is a non-negative integer.
    pub fn as_u64(&self) -> (out: Option<u64>)
        ensures
            out == self@.unsigned(),
    {
        match self {
            JsonValue::Number(JsonNumber::Unsigned(u)) => Some(*u),
            JsonValue::Number(JsonNumber::Negative(i)) => if *i >= 0 {
                Some(*i as u64)
            } else {
                None
            },
            _ => None,
        }
    }

    /// The number as `i64`, where it is an integer in that range.
    pub fn as_i64(&self) -> (out: Option<i64>)
        ensures
            out == self@.signed(),
    {
        match self {
            JsonValue::Number(JsonNumber::Unsigned(u)) => if *u <= 0x7fff_ffff_ffff_ffffu64 {
                Some(*u as i64)
            } else {
                None
            },
            JsonValue::Number(JsonNumber::Negative(i)) => Some(*i),
            _ => None,
        }
    }

    /// The elements of an array.
    pub fn as_array(&self) -> (out: Option<&Vec<JsonValue>>)
        ensures
            match out {
                Some(items) => self@.items() == Some(list_model(items@)),
                None => self@.items() is None,
            },
    {
        match self {
            JsonValue::Array(items) => {
                proof {
                    lemma_array_model(*items);
                }
                Some(items)
            },
            _ => None,
        }
    }

    /// The first member named `key` of an object.
    pub fn get(&self, key: &str) -> (out: Option<&JsonValue>)
        ensures
            match out {
                Some(v) => self@.field(key@) == Some(v@),
                None => self@.field(key@) is None,
            },
    {
        match self {
            JsonValue::Object(entries) => {
                proof {
                    lemma_object_model(*entries);
                }
                let ghost all = record_model(entries@);
                let mut i: usize = 0;
                while i < entries.len()
                    invariant
                        i <= entries.len(),
                        all == record_model(entries@),
                        self@ == JsonModel::Record(all),
                        forall|k: int| 0 <= k < i ==> all[k].0 != key@,
                    decreases entries.len() - i,
                {
                    if same_text(entries[i].0.as_str(), key) {
                        proof {
                            lemma_member_skip(all, key@, i as int);
                        }
                        return Some(&entries[i].1);
                    }
                    i += 1;
                }
                proof {
                    if all.len() > 0 {
                        lemma_member_skip(all, key@, all.len() - 1);
                        assert(all.skip(all.len() as int).len() == 0);
                    }
                }
                None
            },
            _ => None,
        }
    }

    /// The first member named `key`, unless it is missing or `null`.
    pub fn get_present(&self, key: &str) -> (out: Option<&JsonValue>)
        ensures
            match out {
                Some(v) => self@.present_field(key@) == Some(v@),
                None => self@.present_field(key@) is None,
            },
    {
        match self.get(key) {
            Some(v) => if v.is_null() {
                None
            } else {
                Some(v)
            },
            None => None,
        }
    }

    /// A deep copy with the same model.
    pub fn duplicate(&self) -> (out: JsonValue)
        ensures
            out@ == self@,
        decreases self,
    {
        match self {
            JsonValue::Null => JsonValue::Null,
            JsonValue::Bool(b) => JsonValue::Bool(*b),
            JsonValue::Number(JsonNumber::Unsigned(u)) => JsonValue::Number(
                JsonNumber::Unsigned(*u),
            ),
            JsonValue::Number(JsonNumber::Negative(i)) => JsonValue::Number(
                JsonNumber::Negative(*i),
            ),
            JsonValue::Number(JsonNumber::Decimal(t)) => JsonValue::Number(
                JsonNumber::Decimal(t.clone()),
            ),
            JsonValue::String(t) => JsonValue::String(t.clone()),
            JsonValue::Array(items) => {
                let mut copy: Vec<JsonValue> = Vec::new();
                let mut i: usize = 0;
                while i < items.len()
                    invariant
                        i <= items.len(),
                        copy.len() == i,
                        *self == JsonValue::Array(*items),
                        forall|k: int| 0 <= k < i ==> copy@[k]@ == items@[k]@,
                    decreases items.len() - i,
                {
                    assert(decreases_to!(*self => self->Array_0));
                    assert(decreases_to!(*items => items[i as int]));
                    let item = items[i].duplicate();
                    copy.push(item);
                    i += 1;
                }
                proof {
                    lemma_array_model(*items);
                    lemma_array_model(copy);
                    assert(list_model(copy@) =~= list_model(items@));
                }
                JsonValue::Array(copy)
            },
            JsonValue::Object(entries) => {
                let mut copy: Vec<(String, JsonValue)> = Vec::new();
                let mut i: usize = 0;
                while i < entries.len()
                    invariant
                        i <= entries.len(),
                        copy.len() == i,
                        *self == JsonValue::Object(*entries),
                        forall|k: int|
                            0 <= k < i ==> copy@[k].0@ == entries@[k].0@ && copy@[k].1@
                                == entries@[k].1@,
                    decreases entries.len() - i,
                {
                    assert(decreases_to!(*self => self->Object_0));
                    assert(decreases_to!(*entries => entries[i as int]));
                    let value = entries[i].1.duplicate();
                    copy.push((entries[i].0.clone(), value));
                    i += 1;
                }
                proof {
                    lemma_object_model(*entries);
                    lemma_object_model(copy);
                    assert(record_model(copy@) =~= record_model(entries@));
                }
                JsonValue::Object(copy)
            },
        }
    }
}

impl Clone for JsonValue {
    fn clone(&self) -> (out: JsonValue)
        ensures
            out@ == self@,
    {
        self.duplicate()
    }
}

/// Appends the member `key: value` to a list of object members.
pub fn push_member(entries: &mut Vec<(String, JsonValue)>, key: &str, value: JsonValue)
    ensures
        record_model(final(entries)@) == record_model(old(entries)@).push((key@, value@)),
{
    entries.push((key.to_owned(), value));
    assert(record_model(entries@) =~= record_model(old(entries)@).push((key@, value@)));
}

/// What `serde_json` reads from a text: the document, or nothing where the
/// text is no JSON document.
pub uninterp spec fn json_parse(text: Seq<char>) -> Option<JsonModel>;

/// The compact text that `serde_json` writes for a document. A decimal
/// number is written as `serde_json` reads its text back; where the text
/// is no JSON number, `null` is written in its place.
pub uninterp spec fn json_render(value: JsonModel) -> Seq<char>;

/// The indented text that `serde_json` writes for a document, with the
/// same rule for decimal numbers.
pub uninterp spec fn json_render_pretty(value: JsonModel) -> Seq<char>;

#[verifier::external_type_specification]
#[verifier::external_body]
pub struct ExSerdeJsonError(serde_json::Error);

#[verifier::external_type_specification]
#[verifier::external_body]
pub struct ExSerdeJsonValue(Value);

/// Turns a `serde_json::Value` into the library's tree, variant by variant.
/// A number becomes `Unsigned` where `as_u64` has it, else `Negative` where
/// `as_i64` has it, else `Decimal` with the number's own text.
#[verifier::external_body]
fn tree_from_serde(raw: Value) -> JsonValue {
    match raw {
        Value::Null => JsonValue::Null,
        Value::Bool(b) => JsonValue::Bool(b),
        Value::Number(n) => JsonValue::Number(match (n.as_u64(), n.as_i64()) {
            (Some(u), _) => JsonNumber::Unsigned(u),
            (None, Some(i)) => JsonNumber::Negative(i),
            (None, None) => JsonNumber::Decimal(n.to_string()),
        }),
        Value::String(s) => JsonValue::String(s),
        Value::Array(a) => JsonValue::Array(a.into_iter().map(tree_from_serde).collect()),
        Value::Object(o) => JsonValue::Object(o.into_iter().map(|(k, v)| (k, tree_from_serde(v))).collect()),
    }
}

/// Turns the library's tree into a `serde_json::Value`, variant by variant.
/// A `Decimal` is read back by `serde_json`'s number parser, and is `null`
/// where that parser refuses it.
#[verifier::external_body]
fn tree_to_serde(value: &JsonValue) -> Value {
    match value {
        JsonValue::Null => Value::Null,
        JsonValue::Bool(b) => Value::Bool(*b),
        JsonValue::Number(JsonNumber::Unsigned(u)) => Value::from(*u),
        JsonValue::Number(JsonNumber::Negative(i)) => Value::from(*i),
        JsonValue::Number(JsonNumber::Decimal(t)) => t.parse().map_or(Value::Null, Value::Number),
        JsonValue::String(s) => Value::String(s.clone()),
        JsonValue::Array(a) => Value::Array(a.iter().map(tree_to_serde).collect()),
        JsonValue::Object(o) => Value::Object(o.iter().map(|(k, v)| (k.clone(), tree_to_serde(v))).collect()),
    }
}

/// Calls `serde_json::from_str` for a `serde_json::Value` and hands the
/// document on as a tree. The outcome is a function of the text alone.
#[verifier::external_body]
fn read_document(text: &str) -> (out: Result<JsonValue, serde_json::Error>)
    ensures
        out matches Ok(v) ==> json_parse(text@) == Some(v@),
        out is Err ==> json_parse(text@) is None,
{
    serde_json::from_str::<Value>(text).map(tree_from_serde)
}

/// Formats the document with `serde_json`'s `Display` for `Value`: the
/// compact form.
#[verifier::external_body]
fn write_document(value: &JsonValue) -> (out: String)
    ensures
        out@ == json_render(value@),
{
    format!("{}", tree_to_serde(value))
}

/// Formats the document with `serde_json`'s alternate `Display` for
/// `Value`: the indented form.
#[verifier::external_body]
fn write_document_pretty(value: &JsonValue) -> (out: String)
    ensures
        out@ == json_render_pretty(value@),
{
    format!("{:#}", tree_to_serde(value))
}

/// Reads a JSON document from text.
pub fn parse_json(text: &str) -> (out: Option<JsonValue>)
    ensures
        match out {
            Some(v) => json_parse(text@) == Some(v@),
            None => json_parse(text@) is None,
        },
{
    match read_document(text) {
        Ok(v) => Some(v),
        Err(_) => None,
    }
}

/// The compact JSON text of a document. A decimal number whose text is no
/// JSON number is written as `null`.
pub fn to_json_text(value: &JsonValue) -> (out: String)
    ensures
        out@ == json_render(value@),
{
    write_document(value)
}

/// The indented JSON text of a document. A decimal number whose text is no
/// JSON number is written as `null`.
pub fn to_pretty_json_text(value: &JsonValue) -> (out: String)
    ensures
        out@ == json_render_pretty(value@),
{
    write_document_pretty(value)
}

} // verus!
