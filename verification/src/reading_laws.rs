//! What is read from property lists, JSON documents and numbers, and how plain values stand for
//! them.

use crate::error::{EntryKind, ErrorModel};
use crate::json_tree;
use crate::json_tree::{JsonModel, JsonShape, JsonValue};
use crate::plist_tree;
use crate::plist_tree::{EntriesModel, PlistDictionary, PlistModel, PlistShape, PlistValue};
use crate::text;
use crate::xml_dates;
use vstd::prelude::*;
use vstd::utf8::*;

verus! {

/// The first of several entries with the same key is found, and what is found is its value.
pub proof fn law_first_entry_is_found(entries: EntriesModel, i: int)
    requires
        0 <= i < entries.len(),
        forall|j: int| 0 <= j < i ==> (#[trigger] entries[j]).0 != entries[i].0,
    ensures
        plist_tree::lookup(entries, entries[i].0) == Some(entries[i].1),
    decreases entries.len(),
{
    if i > 0 {
        assert(entries[0].0 != entries[i].0);
        let rest = entries.skip(1);
        assert forall|j: int| 0 <= j < i - 1 implies (#[trigger] rest[j]).0 != rest[i - 1].0 by {
            assert(entries[j + 1].0 != entries[i].0);
        }
        law_first_entry_is_found(rest, i - 1);
    }
}

/// Nothing is found under a key that no entry has.
pub proof fn law_missing_entries_are_not_found(entries: EntriesModel, key: Seq<char>)
    requires
        forall|j: int| 0 <= j < entries.len() ==> (#[trigger] entries[j]).0 != key,
    ensures
        plist_tree::lookup(entries, key) is None,
    decreases entries.len(),
{
    if entries.len() > 0 {
        assert(entries[0].0 != key);
        let rest = entries.skip(1);
        assert forall|j: int| 0 <= j < rest.len() implies (#[trigger] rest[j]).0 != key by {
            assert(entries[j + 1].0 != key);
        }
        law_missing_entries_are_not_found(rest, key);
    }
}

/// An entry added at the end of a dictionary is found unless one of its key was there, and changes
/// nothing that is found under other keys.
pub proof fn law_added_entries_are_found(
    entries: EntriesModel,
    key: Seq<char>,
    value: PlistModel,
    other: Seq<char>,
)
    ensures
        plist_tree::lookup(entries, key) is None ==> plist_tree::lookup(
            entries.push((key, value)),
            key,
        ) == Some(value),
        other != key || plist_tree::lookup(entries, key) is Some ==> plist_tree::lookup(
            entries.push((key, value)),
            other,
        ) == plist_tree::lookup(entries, other),
    decreases entries.len(),
{
    let longer = entries.push((key, value));
    if entries.len() > 0 {
        let rest = entries.skip(1);
        assert(longer.skip(1) =~= rest.push((key, value)));
        if entries[0].0 != key || entries[0].0 != other {
            law_added_entries_are_found(rest, key, value, other);
        }
    } else {
        assert(longer.skip(1) =~= Seq::<(Seq<char>, PlistModel)>::empty());
        assert(plist_tree::lookup(longer.skip(1), other) is None);
    }
}

/// A value is read as what it is: a read of one kind gives exactly the value of that kind under the
/// key, and else an error that names the kind and the key.
pub proof fn law_entries_are_read_by_kind(entries: EntriesModel, key: Seq<char>)
    ensures
        match plist_tree::lookup(entries, key) {
            Some(PlistModel::String(text)) => plist_tree::string_at(entries, key) == Ok::<
                Seq<char>,
                ErrorModel,
            >(text),
            _ => plist_tree::string_at(entries, key) == Err::<Seq<char>, ErrorModel>(
                ErrorModel::MissingEntry(EntryKind::Text, key),
            ),
        },
        match plist_tree::lookup(entries, key) {
            Some(PlistModel::Data(bytes)) => plist_tree::data_at(entries, key) == Ok::<
                Seq<u8>,
                ErrorModel,
            >(bytes),
            _ => plist_tree::data_at(entries, key) == Err::<Seq<u8>, ErrorModel>(
                ErrorModel::MissingEntry(EntryKind::Data, key),
            ),
        },
        match plist_tree::lookup(entries, key) {
            Some(PlistModel::Integer(number)) => plist_tree::integer_at(entries, key) == Ok::<
                i64,
                ErrorModel,
            >(number),
            _ => plist_tree::integer_at(entries, key) == Err::<i64, ErrorModel>(
                ErrorModel::MissingEntry(EntryKind::Integer, key),
            ),
        },
        match plist_tree::lookup(entries, key) {
            Some(PlistModel::Dictionary(inner)) => plist_tree::dictionary_at(entries, key) == Ok::<
                EntriesModel,
                ErrorModel,
            >(inner),
            _ => plist_tree::dictionary_at(entries, key) == Err::<EntriesModel, ErrorModel>(
                ErrorModel::MissingEntry(EntryKind::Dictionary, key),
            ),
        },
{
}

/// A property list is what its document holds: all entries of the dictionary at its root. A
/// document with another root, or none, holds no property list.
pub proof fn law_property_lists_are_read_whole(bytes: Seq<u8>, entries: EntriesModel)
    ensures
        plist_tree::parsed_plist(bytes) == Some(entries) <==> {
            &&& plist_tree::parsed_value(bytes) == Some(PlistModel::Dictionary(entries))
            &&& !xml_dates::has_late_date(bytes)
        },
{
}

/// A plain value stands for the value that it holds, and a list of values for as many.
pub proof fn law_plain_values_stand_for_themselves(
    text: String,
    bytes: Vec<u8>,
    number: i64,
    items: Vec<PlistValue>,
    dictionary: PlistDictionary,
    outside: plist::Value,
)
    ensures
        PlistValue::String(text)@ == PlistModel::String(text@),
        PlistValue::Data(bytes)@ == PlistModel::Data(bytes@),
        PlistValue::Integer(number)@ == PlistModel::Integer(number),
        PlistValue::Opaque(outside)@ == PlistModel::Opaque(outside),
        PlistValue::Array(items)@ matches PlistModel::Array(models) && models.len()
            == items@.len() && forall|i: int|
            0 <= i < items@.len() ==> #[trigger] models[i] == items@[i]@,
        PlistValue::Dictionary(dictionary)@ == PlistModel::Dictionary(dictionary@),
        dictionary@.len() == dictionary.entries@.len(),
        forall|i: int|
            0 <= i < dictionary@.len() ==> #[trigger] dictionary@[i] == (
                dictionary.entries@[i].0@,
                dictionary.entries@[i].1@,
            ),
{
    assert(PlistValue::Dictionary(dictionary)@->Dictionary_0 =~= dictionary@);
}

/// The outermost layer of a value stands for the value: an integer beyond the signed range stays as
/// it came.
pub proof fn law_layers_stand_for_values(
    text: String,
    bytes: Vec<u8>,
    number: Option<i64>,
    outside: plist::Value,
    items: Vec<plist::Value>,
    dictionary: plist::Dictionary,
)
    ensures
        plist_tree::shape_model(PlistShape::String(text)) == PlistModel::String(text@),
        plist_tree::shape_model(PlistShape::Data(bytes)) == PlistModel::Data(bytes@),
        plist_tree::shape_model(PlistShape::Integer(number, outside)) == (if number is Some {
            PlistModel::Integer(number->0)
        } else {
            PlistModel::Opaque(outside)
        }),
        plist_tree::shape_model(PlistShape::Dictionary(dictionary)) == PlistModel::Dictionary(
            plist_tree::outside_dictionary(dictionary),
        ),
        plist_tree::shape_model(PlistShape::Opaque(outside)) == PlistModel::Opaque(outside),
        plist_tree::shape_model(PlistShape::Array(items)) matches PlistModel::Array(models)
            && models.len() == items@.len() && forall|i: int|
            0 <= i < items@.len() ==> #[trigger] models[i] == plist_tree::outside_value(items@[i]),
{
}

/// The last of several entries with the same key is the member of an object, and entries with other
/// keys do not touch it.
pub proof fn law_last_entry_is_the_member(entries: Seq<(Seq<char>, JsonModel)>, i: int)
    requires
        0 <= i < entries.len(),
        forall|j: int| i < j < entries.len() ==> (#[trigger] entries[j]).0 != entries[i].0,
    ensures
        JsonModel::Object(json_tree::members(entries)).member(entries[i].0) == Some(entries[i].1),
    decreases entries.len(),
{
    if i < entries.len() - 1 {
        let rest = entries.drop_last();
        assert(entries[entries.len() - 1].0 != entries[i].0);
        assert forall|j: int| i < j < rest.len() implies (#[trigger] rest[j]).0 != rest[i].0 by {
            assert(entries[j].0 != entries[i].0);
        }
        law_last_entry_is_the_member(rest, i);
    }
}

/// An object has no member that no entry names.
pub proof fn law_objects_have_no_other_members(
    entries: Seq<(Seq<char>, JsonModel)>,
    key: Seq<char>,
)
    requires
        forall|j: int| 0 <= j < entries.len() ==> (#[trigger] entries[j]).0 != key,
    ensures
        JsonModel::Object(json_tree::members(entries)).member(key) is None,
    decreases entries.len(),
{
    if entries.len() > 0 {
        let rest = entries.drop_last();
        assert(entries[entries.len() - 1].0 != key);
        assert forall|j: int| 0 <= j < rest.len() implies (#[trigger] rest[j]).0 != key by {
            assert(entries[j].0 != key);
        }
        law_objects_have_no_other_members(rest, key);
    }
}

/// Only an object has members, only an array has a first item, and only a string has a text.
pub proof fn law_json_is_read_by_kind(
    value: JsonModel,
    held: Map<Seq<char>, JsonModel>,
    items: Seq<JsonModel>,
    key: Seq<char>,
    text: Seq<char>,
)
    ensures
        !(value is Object) ==> value.member(key) is None,
        !(value is Array) ==> value.first() is None,
        !(value is String) ==> value.text() is None,
        held.contains_key(key) ==> JsonModel::Object(held).member(key) == Some(held[key]),
        !held.contains_key(key) ==> JsonModel::Object(held).member(key) is None,
        items.len() > 0 ==> JsonModel::Array(items).first() == Some(items[0]),
        items.len() == 0 ==> JsonModel::Array(items).first() is None,
        JsonModel::String(text).text() == Some(text),
{
}

/// A plain JSON value stands for the value that it holds, and a list of values for as many.
pub proof fn law_plain_json_stands_for_itself(
    truth: bool,
    text: String,
    items: Vec<JsonValue>,
    entries: Vec<(String, JsonValue)>,
)
    ensures
        JsonValue::Null@ == JsonModel::Null,
        JsonValue::Bool(truth)@ == JsonModel::Bool(truth),
        JsonValue::Number(text)@ == JsonModel::Number(text@),
        JsonValue::String(text)@ == JsonModel::String(text@),
        JsonValue::Array(items)@ matches JsonModel::Array(models) && models.len() == items@.len()
            && forall|i: int| 0 <= i < items@.len() ==> #[trigger] models[i] == items@[i]@,
        JsonValue::Object(entries)@ == JsonModel::Object(
            json_tree::members(
                Seq::new(entries@.len(), |i: int| (entries@[i].0@, entries@[i].1@)),
            ),
        ),
{
    assert(json_tree::listed_models(entries) =~= Seq::new(
        entries@.len(),
        |i: int| (entries@[i].0@, entries@[i].1@),
    ));
}

/// The outermost layer of a JSON value stands for the value.
pub proof fn law_json_layers_stand_for_values(
    truth: bool,
    text: String,
    items: Vec<serde_json::Value>,
    map: serde_json::Map<String, serde_json::Value>,
)
    ensures
        json_tree::json_shape_model(JsonShape::Null) == JsonModel::Null,
        json_tree::json_shape_model(JsonShape::Bool(truth)) == JsonModel::Bool(truth),
        json_tree::json_shape_model(JsonShape::Number(text)) == JsonModel::Number(text@),
        json_tree::json_shape_model(JsonShape::String(text)) == JsonModel::String(text@),
        json_tree::json_shape_model(JsonShape::Object(map)) == JsonModel::Object(
            json_tree::outside_members(map),
        ),
        json_tree::json_shape_model(JsonShape::Array(items)) matches JsonModel::Array(models)
            && models.len() == items@.len() && forall|i: int|
            0 <= i < items@.len() ==> #[trigger] models[i] == json_tree::outside_json(items@[i]),
{
}

/// The number that some decimal digits stand for.
pub open spec fn decimal_value(digits: Seq<char>) -> nat
    decreases digits.len(),
{
    if digits.len() == 0 {
        0
    } else {
        decimal_value(digits.drop_last()) * 10 + (digits.last() as u32 - '0' as u32) as nat
    }
}

/// A number is written in decimal digits that stand for it, without leading zeros.
pub proof fn law_decimals_stand_for_their_number(n: nat)
    ensures
        decimal_value(text::decimal(n)) == n,
        text::decimal(n).len() >= 1,
        forall|i: int|
            0 <= i < text::decimal(n).len() ==> '0' <= #[trigger] text::decimal(n)[i] <= '9',
        n > 0 ==> text::decimal(n)[0] != '0',
    decreases n,
{
    let digits = text::decimal(n);
    if n < 10 {
        reveal_with_fuel(decimal_value, 2);
    } else {
        law_decimals_stand_for_their_number(n / 10);
        assert(digits.drop_last() =~= text::decimal(n / 10));
    }
}

/// Different numbers are written differently, also where they are signed.
pub proof fn law_decimals_tell_numbers_apart(left: int, right: int)
    ensures
        text::signed_decimal(left) == text::signed_decimal(right) ==> left == right,
        left >= 0 ==> text::signed_decimal(left) == text::decimal(left as nat),
        left < 0 ==> text::signed_decimal(left) == seq!['-'] + text::decimal((-left) as nat),
{
    let a = text::decimal((if left < 0 {
        -left
    } else {
        left
    }) as nat);
    let b = text::decimal((if right < 0 {
        -right
    } else {
        right
    }) as nat);
    law_decimals_stand_for_their_number((if left < 0 {
        -left
    } else {
        left
    }) as nat);
    law_decimals_stand_for_their_number((if right < 0 {
        -right
    } else {
        right
    }) as nat);
    if text::signed_decimal(left) == text::signed_decimal(right) {
        assert('0' <= a[0] && '0' <= b[0]);
        assert((left < 0) == (text::signed_decimal(left)[0] == '-'));
        assert((right < 0) == (text::signed_decimal(right)[0] == '-'));
        if left < 0 {
            assert(text::signed_decimal(left).skip(1) =~= a);
            assert(text::signed_decimal(right).skip(1) =~= b);
        }
    }
}

/// A text contains another exactly where it is that text with something before and behind it.
pub proof fn law_contained_texts_stand_within(whole: Seq<char>, part: Seq<char>)
    ensures
        text::contains_text(whole, part) <==> exists|before: Seq<char>, after: Seq<char>|
            whole == #[trigger] (before + part + after),
{
    if text::contains_text(whole, part) {
        let start = choose|start: int| text::occurs_at(whole, part, start);
        let before = whole.take(start);
        let after = whole.skip(start + part.len());
        assert forall|i: int| 0 <= i < part.len() implies whole[start + i] == part[i] by {
            assert(whole.subrange(start, start + part.len())[i] == whole[start + i]);
        }
        assert(whole =~= before + part + after);
    }
    if exists|before: Seq<char>, after: Seq<char>| whole == #[trigger] (before + part + after) {
        let (before, after) = choose|before: Seq<char>, after: Seq<char>|
            whole == #[trigger] (before + part + after);
        let start = before.len() as int;
        assert(whole.subrange(start, start + part.len()) =~= part);
        assert(text::occurs_at(whole, part, start));
    }
}

/// The bytes of a text are the bytes of its parts, one after the other.
pub proof fn law_texts_are_encoded_in_order(left: Seq<char>, right: Seq<char>)
    ensures
        encode_utf8(left + right) == encode_utf8(left) + encode_utf8(right),
    decreases left.len(),
{
    if left.len() == 0 {
        assert(left + right =~= right);
        assert(encode_utf8(left) + encode_utf8(right) =~= encode_utf8(right));
    } else {
        let rest = left.drop_first();
        assert((left + right).drop_first() =~= rest + right);
        law_texts_are_encoded_in_order(rest, right);
        assert(encode_utf8(left + right) =~= encode_utf8(left) + encode_utf8(right));
    }
}

} // verus!
