//! JSON documents as plain values.

use crate::text;
use crate::text::same_text;
use vstd::prelude::*;

verus! {

/// `serde_json::Value`, a JSON document.
#[verifier::external_type_specification]
#[verifier::external_body]
pub struct ExJsonValue(serde_json::Value);

/// `serde_json::Map`, the members of a JSON object.
#[verifier::external_type_specification]
#[verifier::external_body]
#[verifier::reject_recursive_types(K)]
#[verifier::reject_recursive_types(V)]
pub struct ExJsonMap<K, V>(serde_json::Map<K, V>);

/// `serde_json::Error`, what a failed parse reports.
#[verifier::external_type_specification]
#[verifier::external_body]
pub struct ExJsonError(serde_json::Error);

/// What a JSON value is, for specifications. A number is its text.
pub enum JsonModel {
    Null,
    Bool(bool),
    Number(Seq<char>),
    String(Seq<char>),
    Array(Seq<JsonModel>),
    Object(Map<Seq<char>, JsonModel>),
}

/// A JSON value. A number is kept as its text.
#[derive(Debug)]
pub enum JsonValue {
    Null,
    Bool(bool),
    Number(String),
    String(String),
    Array(Vec<JsonValue>),
    Object(Vec<(String, JsonValue)>),
}

/// The members that a list of entries gives; a later entry replaces an earlier one.
pub open spec fn members(entries: Seq<(Seq<char>, JsonModel)>) -> Map<Seq<char>, JsonModel>
    decreases entries.len(),
{
    if entries.len() == 0 {
        Map::empty()
    } else {
        members(entries.drop_last()).insert(entries.last().0, entries.last().1)
    }
}

/// The model of a JSON value.
pub open spec fn json_model(value: JsonValue) -> JsonModel
    decreases value,
{
    match value {
        JsonValue::Null => JsonModel::Null,
        JsonValue::Bool(truth) => JsonModel::Bool(truth),
        JsonValue::Number(text) => JsonModel::Number(text@),
        JsonValue::String(text) => JsonModel::String(text@),
        JsonValue::Array(items) => JsonModel::Array(
            Seq::new(
                items@.len(),
                |i: int|
                    if 0 <= i < items@.len() {
                        json_model(items@[i])
                    } else {
                        JsonModel::Null
                    },
            ),
        ),
        JsonValue::Object(entries) => JsonModel::Object(members(listed_models(entries))),
    }
}

/// The models of an object's entries, in their order.
pub open spec fn listed_models(entries: Vec<(String, JsonValue)>) -> Seq<(Seq<char>, JsonModel)>
    decreases entries,
{
    Seq::new(
        entries@.len(),
        |i: int|
            if 0 <= i < entries@.len() {
                (entries@[i].0@, json_model(entries@[i].1))
            } else {
                (Seq::empty(), JsonModel::Null)
            },
    )
}

impl View for JsonValue {
    type V = JsonModel;

    open spec fn view(&self) -> JsonModel {
        json_model(*self)
    }
}

/// The models of a list of entries.
pub open spec fn entry_models(entries: Seq<(String, JsonValue)>) -> Seq<(Seq<char>, JsonModel)> {
    entries.map_values(|entry: (String, JsonValue)| (entry.0@, entry.1@))
}

impl JsonModel {
    /// The member of that name, where the value is an object that has it.
    pub open spec fn member(self, key: Seq<char>) -> Option<JsonModel> {
        match self {
            JsonModel::Object(members) => if members.contains_key(key) {
                Some(members[key])
            } else {
                None
            },
            _ => None,
        }
    }

    /// The text, where the value is a string.
    pub open spec fn text(self) -> Option<Seq<char>> {
        match self {
            JsonModel::String(text) => Some(text),
            _ => None,
        }
    }

    /// The first item, where the value is an array that has one.
    pub open spec fn first(self) -> Option<JsonModel> {
        match self {
            JsonModel::Array(items) => if items.len() > 0 {
                Some(items[0])
            } else {
                None
            },
            _ => None,
        }
    }
}

/// What a `serde_json::Value` holds.
pub uninterp spec fn outside_json(value: serde_json::Value) -> JsonModel;

/// What a `serde_json::Map` holds.
pub uninterp spec fn outside_members(map: serde_json::Map<String, serde_json::Value>) -> Map<
    Seq<char>,
    JsonModel,
>;

/// What `serde_json::from_str` reads from a text; nothing where the text is no JSON document.
pub uninterp spec fn parsed_json(text: Seq<char>) -> Option<JsonModel>;

/// The compact JSON text that `serde_json` prints for a document.
pub uninterp spec fn json_text(model: JsonModel) -> Seq<char>;

/// The outermost layer of a `serde_json::Value`.
pub enum JsonShape {
    Null,
    Bool(bool),
    Number(String),
    String(String),
    Array(Vec<serde_json::Value>),
    Object(serde_json::Map<String, serde_json::Value>),
}

/// The model of the outermost layer over what it encloses.
pub open spec fn json_shape_model(shape: JsonShape) -> JsonModel {
    match shape {
        JsonShape::Null => JsonModel::Null,
        JsonShape::Bool(truth) => JsonModel::Bool(truth),
        JsonShape::Number(text) => JsonModel::Number(text@),
        JsonShape::String(text) => JsonModel::String(text@),
        JsonShape::Array(items) => JsonModel::Array(
            items@.map_values(|item: serde_json::Value| outside_json(item)),
        ),
        JsonShape::Object(map) => JsonModel::Object(outside_members(map)),
    }
}

/// The models of a list of entries taken from a `serde_json::Map`.
pub open spec fn outside_entry_models(entries: Seq<(String, serde_json::Value)>) -> Seq<
    (Seq<char>, JsonModel),
> {
    entries.map_values(|entry: (String, serde_json::Value)| (entry.0@, outside_json(entry.1)))
}

/// No two entries have the same key.
pub open spec fn distinct_keys(entries: Seq<(Seq<char>, JsonModel)>) -> bool {
    forall|i: int, j: int|
        0 <= i < j < entries.len() ==> (#[trigger] entries[i]).0 != (#[trigger] entries[j]).0
}

/// Tells the variants of `serde_json::Value` apart: what each holds is handed on as it is, a
/// number by the text that its `to_string` gives.
#[verifier::external_body]
fn json_shape(value: serde_json::Value) -> (shape: JsonShape)
    ensures
        outside_json(value) == json_shape_model(shape),
{
    match value {
        serde_json::Value::Null => JsonShape::Null,
        serde_json::Value::Bool(truth) => JsonShape::Bool(truth),
        serde_json::Value::Number(number) => JsonShape::Number(number.to_string()),
        serde_json::Value::String(text) => JsonShape::String(text),
        serde_json::Value::Array(items) => JsonShape::Array(items),
        serde_json::Value::Object(map) => JsonShape::Object(map),
    }
}

/// Hands out the entries of a `serde_json::Map` through its `into_iter`: each member once.
#[verifier::external_body]
fn map_entries(map: serde_json::Map<String, serde_json::Value>) -> (entries: Vec<
    (String, serde_json::Value),
>)
    ensures
        outside_members(map) == members(outside_entry_models(entries@)),
        distinct_keys(outside_entry_models(entries@)),
{
    map.into_iter().collect()
}

/// Calls `serde_json::from_str` for a `serde_json::Value`: the document that the text holds, or an
/// error where it holds none.
#[verifier::external_body]
pub(crate) fn read_json(text: &str) -> (parsed: Result<serde_json::Value, serde_json::Error>)
    ensures
        match parsed {
            Ok(value) => parsed_json(text@) == Some(outside_json(value)),
            Err(_) => parsed_json(text@) is None,
        },
{
    serde_json::from_str(text)
}

/// Calls `get` of `serde_json::Value` and copies what it finds: the member of that name, where the
/// value is an object that has it.
#[verifier::external_body]
pub(crate) fn json_member(value: &serde_json::Value, key: &str) -> (found: Option<
    serde_json::Value,
>)
    ensures
        match found {
            Some(member) => outside_json(*value).member(key@) == Some(outside_json(member)),
            None => outside_json(*value).member(key@) is None,
        },
{
    value.get(key).cloned()
}

/// Calls the `Display` of `serde_json::Value` through `to_string`: the compact text of the
/// document.
#[verifier::external_body]
pub(crate) fn write_json(value: &serde_json::Value) -> (text: String)
    ensures
        text@ == json_text(outside_json(*value)),
{
    value.to_string()
}

/// Makes a JSON string, `serde_json::Value::String`.
#[verifier::external_body]
pub(crate) fn json_string(text: String) -> (value: serde_json::Value)
    ensures
        outside_json(value) == JsonModel::String(text@),
{
    serde_json::Value::String(text)
}

/// Makes a JSON number by `serde_json::Value::from`: its text is the decimal notation.
#[verifier::external_body]
pub(crate) fn json_number(number: u32) -> (value: serde_json::Value)
    ensures
        outside_json(value) == JsonModel::Number(text::decimal(number as nat)),
{
    serde_json::Value::from(number)
}

/// Makes a JSON object by collecting entries with distinct keys into a `serde_json::Map`: each
/// becomes a member.
#[verifier::external_body]
pub(crate) fn json_object(entries: Vec<(String, serde_json::Value)>) -> (value: serde_json::Value)
    requires
        distinct_keys(outside_entry_models(entries@)),
    ensures
        outside_json(value) == JsonModel::Object(members(outside_entry_models(entries@))),
{
    serde_json::Value::Object(entries.into_iter().collect())
}

/// Entries with distinct keys are all among the members.
proof fn lemma_members_hold(entries: Seq<(Seq<char>, JsonModel)>, i: int)
    requires
        distinct_keys(entries),
        0 <= i < entries.len(),
    ensures
        members(entries).contains_key(entries[i].0),
        members(entries)[entries[i].0] == entries[i].1,
    decreases entries.len(),
{
    if i < entries.len() - 1 {
        let rest = entries.drop_last();
        assert forall|a: int, b: int| 0 <= a < b < rest.len() implies (#[trigger] rest[a]).0 != (
        #[trigger] rest[b]).0 by {
            assert(entries[a].0 != entries[b].0);
        }
        assert(rest[i] == entries[i]);
        assert(entries[i].0 != entries[entries.len() - 1].0);
        lemma_members_hold(rest, i);
    }
}

proof fn lemma_members_finite(entries: Seq<(Seq<char>, JsonModel)>)
    ensures
        members(entries).dom().finite(),
    decreases entries.len(),
{
    if entries.len() > 0 {
        lemma_members_finite(entries.drop_last());
    }
}

/// An array's model lists the models of its items.
proof fn lemma_array_model(items: Vec<JsonValue>, models: Seq<JsonModel>)
    requires
        items@.len() == models.len(),
        forall|i: int| 0 <= i < models.len() ==> (#[trigger] items@[i])@ == models[i],
    ensures
        JsonValue::Array(items)@ == JsonModel::Array(models),
{
    assert(JsonValue::Array(items)@->Array_0 =~= models);
}

/// An object's model is the members that its entries give.
proof fn lemma_object_model(entries: Vec<(String, JsonValue)>)
    ensures
        JsonValue::Object(entries)@ == JsonModel::Object(members(entry_models(entries@))),
{
    assert(listed_models(entries) =~= entry_models(entries@));
}

impl JsonValue {
    /// Takes a `serde_json::Value` apart into plain values.
    pub fn from_outside(value: serde_json::Value) -> (converted: JsonValue)
        ensures
            converted@ == outside_json(value),
        decreases outside_json(value),
    {
        match json_shape(value) {
            JsonShape::Null => JsonValue::Null,
            JsonShape::Bool(truth) => JsonValue::Bool(truth),
            JsonShape::Number(text) => JsonValue::Number(text),
            JsonShape::String(text) => JsonValue::String(text),
            JsonShape::Array(items) => {
                let ghost models = items@.map_values(|item: serde_json::Value| outside_json(item));
                let mut converted: Vec<JsonValue> = Vec::new();
                for item in iter: items
                    invariant
                        converted@.len() == iter.index(),
                        iter.seq() == items@,
                        models == items@.map_values(
                            |item: serde_json::Value| outside_json(item),
                        ),
                        outside_json(value) == JsonModel::Array(models),
                        forall|i: int|
                            0 <= i < converted@.len() ==> (#[trigger] converted@[i])@ == models[i],
                {
                    proof {
                        let i = iter.index() as int;
                        assert(models[i] == outside_json(item));
                        assert(decreases_to!(outside_json(value) => outside_json(value)->Array_0));
                        assert(decreases_to!(models => models[i]));
                    }
                    converted.push(JsonValue::from_outside(item));
                }
                proof {
                    lemma_array_model(converted, models);
                }
                JsonValue::Array(converted)
            },
            JsonShape::Object(map) => {
                let ghost held = outside_members(map);
                let entries = map_entries(map);
                let ghost models = outside_entry_models(entries@);
                let mut converted: Vec<(String, JsonValue)> = Vec::new();
                for entry in iter: entries
                    invariant
                        converted@.len() == iter.index(),
                        iter.seq() == entries@,
                        models == outside_entry_models(entries@),
                        distinct_keys(models),
                        held == members(models),
                        outside_json(value) == JsonModel::Object(held),
                        forall|i: int|
                            0 <= i < converted@.len() ==> ((#[trigger] converted@[i]).0@,
                                converted@[i].1@) == models[i],
                {
                    proof {
                        let i = iter.index() as int;
                        assert(models[i].1 == outside_json(entry.1));
                        lemma_members_hold(models, i);
                        lemma_members_finite(models);
                        assert(decreases_to!(outside_json(value) => outside_json(value)->Object_0));
                        assert(decreases_to!(held => held[models[i].0]));
                    }
                    converted.push((entry.0, JsonValue::from_outside(entry.1)));
                }
                proof {
                    assert(entry_models(converted@) =~= models);
                    lemma_object_model(converted);
                }
                JsonValue::Object(converted)
            },
        }
    }

    /// The member of that name, where this is an object that has it.
    pub fn get(&self, key: &str) -> (found: Option<&JsonValue>)
        ensures
            match found {
                Some(value) => self@.member(key@) == Some(value@),
                None => self@.member(key@) is None,
            },
    {
        match self {
            JsonValue::Object(entries) => {
                let ghost models = entry_models(entries@);
                proof {
                    lemma_object_model(*entries);
                }
                let mut found: Option<&JsonValue> = None;
                let mut i: usize = 0;
                while i < entries.len()
                    invariant
                        i <= entries@.len(),
                        models == entry_models(entries@),
                        match found {
                            Some(value) => members(models.take(i as int)).contains_key(key@)
                                && members(models.take(i as int))[key@] == value@,
                            None => !members(models.take(i as int)).contains_key(key@),
                        },
                    decreases entries@.len() - i,
                {
                    proof {
                        assert(models.take(i as int + 1).drop_last() =~= models.take(i as int));
                        assert(models.take(i as int + 1).last() == models[i as int]);
                    }
                    if same_text(entries[i].0.as_str(), key) {
                        found = Some(&entries[i].1);
                    }
                    i = i + 1;
                }
                assert(models.take(entries@.len() as int) =~= models);
                found
            },
            _ => None,
        }
    }

    /// The text, where this is a string.
    pub fn as_str(&self) -> (found: Option<&str>)
        ensures
            match found {
                Some(text) => self@.text() == Some(text@),
                None => self@.text() is None,
            },
    {
        match self {
            JsonValue::String(text) => Some(text.as_str()),
            _ => None,
        }
    }

    /// The first item, where this is an array that has one.
    pub fn first(&self) -> (found: Option<&JsonValue>)
        ensures
            match found {
                Some(value) => self@.first() == Some(value@),
                None => self@.first() is None,
            },
    {
        match self {
            JsonValue::Array(items) => {
                if items.len() > 0 {
                    Some(&items[0])
                } else {
                    None
                }
            },
            _ => None,
        }
    }
}

/// Reads a JSON document.
pub fn parse_json(text: &str) -> (parsed: Option<JsonValue>)
    ensures
        match parsed {
            Some(value) => parsed_json(text@) == Some(value@),
            None => parsed_json(text@) is None,
        },
{
    match read_json(text) {
        Ok(value) => Some(JsonValue::from_outside(value)),
        Err(_) => None,
    }
}

} // verus!
