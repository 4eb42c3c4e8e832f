//! Property lists as plain values.

use crate::error::{AccountError, EntryKind, ErrorModel};
use crate::text::same_text;
use crate::xml_dates;
use crate::xml_dates::find_late_date;
use vstd::prelude::*;

verus! {

/// `plist::Value`, carried through unread.
#[verifier::external_type_specification]
#[verifier::external_body]
pub struct ExPlistValue(plist::Value);

/// `plist::Dictionary`, the ordered map of a property list.
#[verifier::external_type_specification]
#[verifier::external_body]
pub struct ExPlistDictionary(plist::Dictionary);

/// `plist::Error`, what a failed parse reports.
#[verifier::external_type_specification]
#[verifier::external_body]
pub struct ExPlistError(plist::Error);

/// What a property list value is, for specifications. A dictionary lists its entries in order.
pub enum PlistModel {
    String(Seq<char>),
    Data(Seq<u8>),
    Integer(i64),
    Array(Seq<PlistModel>),
    Dictionary(Seq<(Seq<char>, PlistModel)>),
    Opaque(plist::Value),
}

/// What a property list dictionary is, for specifications: its entries in order.
pub type EntriesModel = Seq<(Seq<char>, PlistModel)>;

/// A property list value. What nothing here reads (a date, a number with a fraction) stays as it
/// came.
#[derive(Debug)]
pub enum PlistValue {
    String(String),
    Data(Vec<u8>),
    Integer(i64),
    Array(Vec<PlistValue>),
    Dictionary(PlistDictionary),
    Opaque(plist::Value),
}

/// A property list dictionary: its entries in order.
#[derive(Debug)]
pub struct PlistDictionary {
    pub entries: Vec<(String, PlistValue)>,
}

/// The model of a property list value.
pub open spec fn value_model(value: PlistValue) -> PlistModel
    decreases value,
{
    match value {
        PlistValue::String(text) => PlistModel::String(text@),
        PlistValue::Data(bytes) => PlistModel::Data(bytes@),
        PlistValue::Integer(number) => PlistModel::Integer(number),
        PlistValue::Array(items) => PlistModel::Array(
            Seq::new(
                items@.len(),
                |i: int|
                    if 0 <= i < items@.len() {
                        value_model(items@[i])
                    } else {
                        arbitrary()
                    },
            ),
        ),
        PlistValue::Dictionary(dictionary) => PlistModel::Dictionary(
            Seq::new(
                dictionary.entries@.len(),
                |i: int|
                    if 0 <= i < dictionary.entries@.len() {
                        (dictionary.entries@[i].0@, value_model(dictionary.entries@[i].1))
                    } else {
                        arbitrary()
                    },
            ),
        ),
        PlistValue::Opaque(outside) => PlistModel::Opaque(outside),
    }
}

impl View for PlistValue {
    type V = PlistModel;

    open spec fn view(&self) -> PlistModel {
        value_model(*self)
    }
}

impl View for PlistDictionary {
    type V = EntriesModel;

    open spec fn view(&self) -> EntriesModel {
        self.entries@.map_values(|entry: (String, PlistValue)| (entry.0@, entry.1@))
    }
}

/// The first entry of that key.
pub open spec fn lookup(entries: EntriesModel, key: Seq<char>) -> Option<PlistModel>
    decreases entries.len(),
{
    if entries.len() == 0 {
        None
    } else if entries[0].0 == key {
        Some(entries[0].1)
    } else {
        lookup(entries.skip(1), key)
    }
}

/// The string under a key.
pub open spec fn string_at(entries: EntriesModel, key: Seq<char>) -> Result<
    Seq<char>,
    ErrorModel,
> {
    match lookup(entries, key) {
        Some(PlistModel::String(text)) => Ok(text),
        _ => Err(ErrorModel::MissingEntry(EntryKind::Text, key)),
    }
}

/// The data under a key.
pub open spec fn data_at(entries: EntriesModel, key: Seq<char>) -> Result<
    Seq<u8>,
    ErrorModel,
> {
    match lookup(entries, key) {
        Some(PlistModel::Data(bytes)) => Ok(bytes),
        _ => Err(ErrorModel::MissingEntry(EntryKind::Data, key)),
    }
}

/// The integer under a key.
pub open spec fn integer_at(entries: EntriesModel, key: Seq<char>) -> Result<
    i64,
    ErrorModel,
> {
    match lookup(entries, key) {
        Some(PlistModel::Integer(number)) => Ok(number),
        _ => Err(ErrorModel::MissingEntry(EntryKind::Integer, key)),
    }
}

/// The dictionary under a key.
pub open spec fn dictionary_at(entries: EntriesModel, key: Seq<char>) -> Result<
    EntriesModel,
    ErrorModel,
> {
    match lookup(entries, key) {
        Some(PlistModel::Dictionary(dictionary)) => Ok(dictionary),
        _ => Err(ErrorModel::MissingEntry(EntryKind::Dictionary, key)),
    }
}

/// What a `plist::Value` holds.
pub uninterp spec fn outside_value(value: plist::Value) -> PlistModel;

/// What a `plist::Dictionary` holds, in its order.
pub uninterp spec fn outside_dictionary(dictionary: plist::Dictionary) -> EntriesModel;

/// What `plist::Value::from_reader` reads from a document; nothing where it is no property list.
pub uninterp spec fn parsed_value(bytes: Seq<u8>) -> Option<PlistModel>;

/// The dictionary at the root of a property list. A document that may hold a date beyond the year
/// 9999 counts as none.
pub open spec fn parsed_plist(bytes: Seq<u8>) -> Option<EntriesModel> {
    if xml_dates::has_late_date(bytes) {
        None
    } else {
        match parsed_value(bytes) {
            Some(PlistModel::Dictionary(entries)) => Some(entries),
            _ => None,
        }
    }
}

/// The outermost layer of a `plist::Value`.
pub enum PlistShape {
    String(String),
    Data(Vec<u8>),
    Integer(Option<i64>, plist::Value),
    Array(Vec<plist::Value>),
    Dictionary(plist::Dictionary),
    Opaque(plist::Value),
}

/// The model of the outermost layer over what it encloses.
pub open spec fn shape_model(shape: PlistShape) -> PlistModel {
    match shape {
        PlistShape::String(text) => PlistModel::String(text@),
        PlistShape::Data(bytes) => PlistModel::Data(bytes@),
        PlistShape::Integer(Some(number), _) => PlistModel::Integer(number),
        PlistShape::Integer(None, outside) => PlistModel::Opaque(outside),
        PlistShape::Array(items) => PlistModel::Array(
            items@.map_values(|item: plist::Value| outside_value(item)),
        ),
        PlistShape::Dictionary(dictionary) => PlistModel::Dictionary(
            outside_dictionary(dictionary),
        ),
        PlistShape::Opaque(outside) => PlistModel::Opaque(outside),
    }
}

/// Tells the variants of `plist::Value` apart: what each holds is handed on as it is, an integer
/// also as what its `as_signed` gives.
#[verifier::external_body]
fn plist_shape(value: plist::Value) -> (shape: PlistShape)
    ensures
        outside_value(value) == shape_model(shape),
{
    match value {
        plist::Value::String(text) => PlistShape::String(text),
        plist::Value::Data(bytes) => PlistShape::Data(bytes),
        plist::Value::Integer(n) => PlistShape::Integer(n.as_signed(), plist::Value::Integer(n)),
        plist::Value::Array(items) => PlistShape::Array(items),
        plist::Value::Dictionary(dictionary) => PlistShape::Dictionary(dictionary),
        other => PlistShape::Opaque(other),
    }
}

/// Hands out the entries of a `plist::Dictionary` through its `into_iter`, in their order.
#[verifier::external_body]
fn dictionary_entries(dictionary: plist::Dictionary) -> (entries: Vec<(String, plist::Value)>)
    ensures
        outside_dictionary(dictionary) == entries@.map_values(
            |entry: (String, plist::Value)| (entry.0@, outside_value(entry.1)),
        ),
{
    dictionary.into_iter().collect()
}

/// Calls `plist::Value::from_reader`: the value that the document holds, or an error where it holds
/// none. A date that lies beyond the year 9999 in universal time is outside what it handles.
#[verifier::external_body]
fn parse_value(bytes: &[u8]) -> (parsed: Result<plist::Value, plist::Error>)
    requires
        !xml_dates::has_late_date(bytes@),
    ensures
        match parsed {
            Ok(value) => parsed_value(bytes@) == Some(outside_value(value)),
            Err(_) => parsed_value(bytes@) is None,
        },
{
    plist::Value::from_reader(std::io::Cursor::new(bytes))
}

/// An array's model lists the models of its items.
proof fn lemma_array_model(items: Vec<PlistValue>, models: Seq<PlistModel>)
    requires
        items@.len() == models.len(),
        forall|i: int| 0 <= i < models.len() ==> (#[trigger] items@[i])@ == models[i],
    ensures
        PlistValue::Array(items)@ == PlistModel::Array(models),
{
    assert(PlistValue::Array(items)@->Array_0 =~= models);
}

/// A dictionary's model lists its entries in order.
proof fn lemma_dictionary_model(dictionary: PlistDictionary)
    ensures
        PlistValue::Dictionary(dictionary)@ == PlistModel::Dictionary(dictionary@),
{
    assert(PlistValue::Dictionary(dictionary)@->Dictionary_0 =~= dictionary@);
}

impl PlistValue {
    /// A string value.
    pub fn text(text: &str) -> (value: PlistValue)
        ensures
            value@ == PlistModel::String(text@),
    {
        PlistValue::String(text.to_owned())
    }

    /// A value that is a dictionary.
    pub fn dictionary(dictionary: PlistDictionary) -> (value: PlistValue)
        ensures
            value@ == PlistModel::Dictionary(dictionary@),
    {
        proof {
            lemma_dictionary_model(dictionary);
        }
        PlistValue::Dictionary(dictionary)
    }

    /// A value that is an array of strings.
    pub fn texts(texts: Vec<String>) -> (value: PlistValue)
        ensures
            value@ == PlistModel::Array(texts@.map_values(|text: String| PlistModel::String(text@))),
    {
        let ghost models = texts@.map_values(|text: String| PlistModel::String(text@));
        let mut items: Vec<PlistValue> = Vec::new();
        let mut i: usize = 0;
        while i < texts.len()
            invariant
                i <= texts@.len(),
                items@.len() == i,
                models == texts@.map_values(|text: String| PlistModel::String(text@)),
                forall|j: int| 0 <= j < i ==> (#[trigger] items@[j])@ == models[j],
            decreases texts@.len() - i,
        {
            items.push(PlistValue::text(texts[i].as_str()));
            i = i + 1;
        }
        proof {
            lemma_array_model(items, models);
        }
        PlistValue::Array(items)
    }

    /// Takes a `plist::Value` apart into plain values.
    pub fn from_outside(value: plist::Value) -> (converted: PlistValue)
        ensures
            converted@ == outside_value(value),
        decreases outside_value(value),
    {
        match plist_shape(value) {
            PlistShape::String(text) => PlistValue::String(text),
            PlistShape::Data(bytes) => PlistValue::Data(bytes),
            PlistShape::Integer(number, outside) => match number {
                Some(number) => PlistValue::Integer(number),
                None => PlistValue::Opaque(outside),
            },
            PlistShape::Array(items) => {
                let ghost models = items@.map_values(|item: plist::Value| outside_value(item));
                let mut converted: Vec<PlistValue> = Vec::new();
                for item in iter: items
                    invariant
                        converted@.len() == iter.index(),
                        iter.seq() == items@,
                        models == items@.map_values(|item: plist::Value| outside_value(item)),
                        outside_value(value) == PlistModel::Array(models),
                        forall|i: int|
                            0 <= i < converted@.len() ==> (#[trigger] converted@[i])@ == models[i],
                {
                    proof {
                        let i = iter.index() as int;
                        assert(models[i] == outside_value(item));
                        assert(decreases_to!(outside_value(value) => outside_value(value)->Array_0));
                        assert(decreases_to!(models => models[i]));
                    }
                    converted.push(PlistValue::from_outside(item));
                }
                proof {
                    lemma_array_model(converted, models);
                }
                PlistValue::Array(converted)
            },
            PlistShape::Dictionary(dictionary) => {
                proof {
                    assert(decreases_to!(outside_value(value) => outside_value(value)->Dictionary_0));
                }
                let converted = PlistDictionary::from_outside(dictionary);
                proof {
                    lemma_dictionary_model(converted);
                }
                PlistValue::Dictionary(converted)
            },
            PlistShape::Opaque(outside) => PlistValue::Opaque(outside),
        }
    }
}

impl PlistDictionary {
    /// A dictionary without entries.
    pub fn new() -> (dictionary: PlistDictionary)
        ensures
            dictionary@ == Seq::<(Seq<char>, PlistModel)>::empty(),
    {
        let dictionary = PlistDictionary { entries: Vec::new() };
        assert(dictionary@ =~= Seq::<(Seq<char>, PlistModel)>::empty());
        dictionary
    }

    /// The dictionary with one more entry at its end.
    pub fn with(self, key: &str, value: PlistValue) -> (extended: PlistDictionary)
        ensures
            extended@ == self@.push((key@, value@)),
    {
        let ghost before = self@;
        let ghost model = value@;
        let mut entries = self.entries;
        entries.push((key.to_owned(), value));
        let extended = PlistDictionary { entries };
        assert(extended@ =~= before.push((key@, model)));
        extended
    }

    /// Takes a `plist::Dictionary` apart into plain values.
    pub fn from_outside(dictionary: plist::Dictionary) -> (converted: PlistDictionary)
        ensures
            converted@ == outside_dictionary(dictionary),
        decreases outside_dictionary(dictionary),
    {
        let ghost models = outside_dictionary(dictionary);
        let entries = dictionary_entries(dictionary);
        let mut converted: Vec<(String, PlistValue)> = Vec::new();
        for entry in iter: entries
            invariant
                converted@.len() == iter.index(),
                iter.seq() == entries@,
                models == entries@.map_values(
                    |entry: (String, plist::Value)| (entry.0@, outside_value(entry.1)),
                ),
                outside_dictionary(dictionary) == models,
                forall|i: int|
                    0 <= i < converted@.len() ==> ((#[trigger] converted@[i]).0@, converted@[i].1@)
                        == models[i],
        {
            proof {
                let i = iter.index() as int;
                assert(models[i].1 == outside_value(entry.1));
                assert(decreases_to!(models => models[i]));
                assert(decreases_to!(models[i] => models[i].1));
            }
            converted.push((entry.0, PlistValue::from_outside(entry.1)));
        }
        let result = PlistDictionary { entries: converted };
        assert(result@ =~= models);
        result
    }

    /// The first entry of that key.
    pub fn get(&self, key: &str) -> (found: Option<&PlistValue>)
        ensures
            match found {
                Some(value) => lookup(self@, key@) == Some(value@),
                None => lookup(self@, key@) is None,
            },
    {
        let mut i: usize = 0;
        assert(self@.skip(0) =~= self@);
        while i < self.entries.len()
            invariant
                i <= self.entries@.len(),
                lookup(self@, key@) == lookup(self@.skip(i as int), key@),
            decreases self.entries@.len() - i,
        {
            assert(self@.skip(i as int)[0] == self@[i as int]);
            assert(self@.skip(i as int).skip(1) =~= self@.skip(i as int + 1));
            if same_text(self.entries[i].0.as_str(), key) {
                return Some(&self.entries[i].1);
            }
            i = i + 1;
        }
        None
    }

    /// The string under a key.
    pub fn get_str(&self, key: &str) -> (found: Result<&str, AccountError>)
        ensures
            match found {
                Ok(text) => string_at(self@, key@) == Ok::<Seq<char>, ErrorModel>(text@),
                Err(error) => string_at(self@, key@) == Err::<Seq<char>, ErrorModel>(error@),
            },
    {
        match self.get(key) {
            Some(PlistValue::String(text)) => Ok(text.as_str()),
            _ => Err(AccountError::MissingEntry(EntryKind::Text, key.to_owned())),
        }
    }

    /// The data under a key.
    pub fn get_data(&self, key: &str) -> (found: Result<&[u8], AccountError>)
        ensures
            match found {
                Ok(bytes) => data_at(self@, key@) == Ok::<Seq<u8>, ErrorModel>(bytes@),
                Err(error) => data_at(self@, key@) == Err::<Seq<u8>, ErrorModel>(error@),
            },
    {
        match self.get(key) {
            Some(PlistValue::Data(bytes)) => Ok(bytes.as_slice()),
            _ => Err(AccountError::MissingEntry(EntryKind::Data, key.to_owned())),
        }
    }

    /// The integer under a key.
    pub fn get_signed_integer(&self, key: &str) -> (found: Result<i64, AccountError>)
        ensures
            match found {
                Ok(number) => integer_at(self@, key@) == Ok::<i64, ErrorModel>(number),
                Err(error) => integer_at(self@, key@) == Err::<i64, ErrorModel>(error@),
            },
    {
        match self.get(key) {
            Some(PlistValue::Integer(number)) => Ok(*number),
            _ => Err(AccountError::MissingEntry(EntryKind::Integer, key.to_owned())),
        }
    }

    /// The dictionary under a key.
    pub fn get_dict(&self, key: &str) -> (found: Result<&PlistDictionary, AccountError>)
        ensures
            match found {
                Ok(dictionary) => dictionary_at(self@, key@) == Ok::<EntriesModel, ErrorModel>(
                    dictionary@,
                ),
                Err(error) => dictionary_at(self@, key@) == Err::<EntriesModel, ErrorModel>(error@),
            },
    {
        match self.get(key) {
            Some(PlistValue::Dictionary(dictionary)) => {
                proof {
                    lemma_dictionary_model(*dictionary);
                }
                Ok(dictionary)
            },
            _ => Err(AccountError::MissingEntry(EntryKind::Dictionary, key.to_owned())),
        }
    }
}

/// Reads a property list whose root is a dictionary.
pub fn parse_plist(bytes: &[u8]) -> (parsed: Option<PlistDictionary>)
    ensures
        match parsed {
            Some(dictionary) => parsed_plist(bytes@) == Some(dictionary@),
            None => parsed_plist(bytes@) is None,
        },
{
    if find_late_date(bytes) {
        return None;
    }
    match parse_value(bytes) {
        Ok(value) => match plist_shape(value) {
            PlistShape::Dictionary(dictionary) => Some(PlistDictionary::from_outside(dictionary)),
            _ => None,
        },
        Err(_) => None,
    }
}

} // verus!
