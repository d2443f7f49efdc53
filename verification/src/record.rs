//! Decoding the fields of a record from JSON.
//!
//! A record is an object with a member for each field, or an array with the fields in their order.
//! In an object an optional field may be missing; in an array every field without a default has
//! to be there. Unknown members are ignored.
use crate::json::{int_json, texts_json, uint_json, Json, JsonView};
use crate::json::lemma_array_view;
use crate::text::{opt_view, views, views_opt};
use vstd::prelude::*;

verus! {

// ---------------------------------------------------------------------------------------------
// Records
// ---------------------------------------------------------------------------------------------
/// Whether a value can be read as a record of so many fields.
pub open spec fn record(json: JsonView, fields: nat) -> bool {
    match json {
        JsonView::Object(_) => true,
        JsonView::Array(items) => items.len() <= fields,
        _ => false,
    }
}

/// What a record holds for a field, given by its position and by its name.
pub open spec fn field(json: JsonView, index: int, name: Seq<char>) -> Option<JsonView> {
    match json {
        JsonView::Object(_) => json.get(name),
        JsonView::Array(items) => if 0 <= index < items.len() {
            Some(items[index])
        } else {
            None
        },
        _ => None,
    }
}

/// Whether a value can be read as a record of so many fields.
pub fn is_record(json: &Json, fields: usize) -> (r: bool)
    ensures
        r == record(json@, fields as nat),
{
    match json {
        Json::Object(_) => true,
        Json::Array(items) => {
            proof {
                lemma_array_view(*items);
            }
            items.len() <= fields
        },
        _ => false,
    }
}

/// What a record holds for a field.
pub fn field_of<'a>(json: &'a Json, index: usize, name: &str) -> (r: Option<&'a Json>)
    ensures
        opt_view(r) == field(json@, index as int, name@),
{
    match json {
        Json::Object(_) => json.get(name),
        Json::Array(items) => {
            proof {
                lemma_array_view(*items);
            }
            if index < items.len() {
                Some(&items[index])
            } else {
                None
            }
        },
        _ => None,
    }
}

// ---------------------------------------------------------------------------------------------
// Values of fields
// ---------------------------------------------------------------------------------------------
/// A boolean.
pub open spec fn flag_value(json: JsonView) -> Option<bool> {
    match json {
        JsonView::Bool(b) => Some(b),
        _ => None,
    }
}

/// An integer from -2^63 up to 2^63 - 1.
pub open spec fn i64_value(json: JsonView) -> Option<i64> {
    match json {
        JsonView::Number(n) => n.signed,
        _ => None,
    }
}

/// An integer from -2^31 up to 2^31 - 1.
pub open spec fn i32_value(json: JsonView) -> Option<i32> {
    match i64_value(json) {
        Some(n) => if i32::MIN <= n <= i32::MAX {
            Some(n as i32)
        } else {
            None
        },
        None => None,
    }
}

/// An integer from 0 up to 2^32 - 1.
pub open spec fn u32_value(json: JsonView) -> Option<u32> {
    match json.as_u64() {
        Some(n) => if n <= u32::MAX {
            Some(n as u32)
        } else {
            None
        },
        None => None,
    }
}

/// An index of a list.
pub open spec fn usize_value(json: JsonView) -> Option<usize> {
    match json.as_u64() {
        Some(n) => if n <= usize::MAX {
            Some(n as usize)
        } else {
            None
        },
        None => None,
    }
}

/// A list, each of whose items is decoded.
pub open spec fn list_value<T>(json: JsonView, decode: spec_fn(JsonView) -> Option<T>) -> Option<
    Seq<T>,
> {
    match json {
        JsonView::Array(items) => decoded(items, decode),
        _ => None,
    }
}

/// The values of some items, where every one has a value.
pub open spec fn decoded<T>(items: Seq<JsonView>, decode: spec_fn(JsonView) -> Option<T>) -> Option<
    Seq<T>,
> {
    if forall|i: int| 0 <= i < items.len() ==> (#[trigger] decode(items[i])) is Some {
        Some(Seq::new(items.len(), |i: int| decode(items[i])->0))
    } else {
        None
    }
}

/// A list of texts.
pub open spec fn texts_value(json: JsonView) -> Option<Seq<Seq<char>>> {
    list_value(json, |item: JsonView| item.as_str())
}

/// A boolean.
pub fn flag_of(json: &Json) -> (r: Option<bool>)
    ensures
        r == flag_value(json@),
{
    match json {
        Json::Bool(b) => Some(*b),
        _ => None,
    }
}

/// An integer of 64 bits.
pub fn i64_of(json: &Json) -> (r: Option<i64>)
    ensures
        r == i64_value(json@),
{
    match json {
        Json::Number(n) => n.signed,
        _ => None,
    }
}

/// An integer of 32 bits.
pub fn i32_of(json: &Json) -> (r: Option<i32>)
    ensures
        r == i32_value(json@),
{
    match i64_of(json) {
        Some(n) => if i32::MIN as i64 <= n && n <= i32::MAX as i64 {
            Some(n as i32)
        } else {
            None
        },
        None => None,
    }
}

/// An unsigned integer of 32 bits.
pub fn u32_of(json: &Json) -> (r: Option<u32>)
    ensures
        r == u32_value(json@),
{
    match json.as_u64() {
        Some(n) => if n <= u32::MAX as u64 {
            Some(n as u32)
        } else {
            None
        },
        None => None,
    }
}

/// An index of a list.
pub fn usize_of(json: &Json) -> (r: Option<usize>)
    ensures
        r == usize_value(json@),
{
    match json.as_u64() {
        Some(n) => if n <= usize::MAX as u64 {
            Some(n as usize)
        } else {
            None
        },
        None => None,
    }
}

/// A list of texts.
pub fn texts_of(json: &Json) -> (r: Option<Vec<String>>)
    ensures
        views_opt(r) == texts_value(json@),
{
    match json.as_array() {
        Some(items) => {
            let ghost models = views(items@);
            let mut r: Vec<String> = Vec::new();
            let mut i: usize = 0;
            while i < items.len()
                invariant
                    i <= items.len(),
                    models == views(items@),
                    json@ == JsonView::Array(models),
                    r.len() == i,
                    forall|k: int| 0 <= k < i ==> (#[trigger] models[k].as_str()) == Some(r@[k]@),
                decreases items.len() - i,
            {
                match items[i].as_str() {
                    Some(s) => {
                        assert(models[i as int].as_str() == Some(s@));
                        r.push(s.to_owned());
                    },
                    None => {
                        let ghost decode = |item: JsonView| item.as_str();
                        assert(decode(models[i as int]) is None);
                        return None;
                    },
                }
                i += 1;
            }
            assert(texts_value(json@)->0 =~= views(r@));
            Some(r)
        },
        None => None,
    }
}

// ---------------------------------------------------------------------------------------------
// Fields that have to be there
// ---------------------------------------------------------------------------------------------
/// A field that has to be there.
pub open spec fn required<T>(
    json: JsonView,
    index: int,
    name: Seq<char>,
    decode: spec_fn(JsonView) -> Option<T>,
) -> Option<T> {
    match field(json, index, name) {
        Some(value) => decode(value),
        None => None,
    }
}

/// A field that may be missing or null.
pub open spec fn optional<T>(
    json: JsonView,
    index: int,
    name: Seq<char>,
    decode: spec_fn(JsonView) -> Option<T>,
) -> Option<Option<T>> {
    match field(json, index, name) {
        Some(JsonView::Null) => Some(None),
        Some(value) => match decode(value) {
            Some(v) => Some(Some(v)),
            None => None,
        },
        None => if json is Object {
            Some(None)
        } else {
            None
        },
    }
}

/// A field that may be missing or null, also in an array.
pub open spec fn optional_or_absent<T>(
    json: JsonView,
    index: int,
    name: Seq<char>,
    decode: spec_fn(JsonView) -> Option<T>,
) -> Option<Option<T>> {
    match field(json, index, name) {
        None => Some(None),
        _ => optional(json, index, name, decode),
    }
}

/// A field that has a value of its own where it is missing.
pub open spec fn defaulted<T>(
    json: JsonView,
    index: int,
    name: Seq<char>,
    decode: spec_fn(JsonView) -> Option<T>,
    default: T,
) -> Option<T> {
    match field(json, index, name) {
        Some(value) => decode(value),
        None => Some(default),
    }
}

/// A text that has to be there.
pub open spec fn text_field(json: JsonView, index: int, name: Seq<char>) -> Option<Seq<char>> {
    required(json, index, name, |v: JsonView| v.as_str())
}

/// A text that may be missing.
pub open spec fn opt_text_field(json: JsonView, index: int, name: Seq<char>) -> Option<
    Option<Seq<char>>,
> {
    optional(json, index, name, |v: JsonView| v.as_str())
}

/// A text, empty where it is missing.
pub open spec fn text_or_empty_field(json: JsonView, index: int, name: Seq<char>) -> Option<
    Seq<char>,
> {
    defaulted(json, index, name, |v: JsonView| v.as_str(), Seq::empty())
}

/// An integer of 32 bits that has to be there.
pub open spec fn i32_field(json: JsonView, index: int, name: Seq<char>) -> Option<i32> {
    required(json, index, name, |v: JsonView| i32_value(v))
}

/// Any value that may be missing.
pub open spec fn opt_json_field(json: JsonView, index: int, name: Seq<char>) -> Option<
    Option<JsonView>,
> {
    optional(json, index, name, |v: JsonView| Some(v))
}

/// A boolean, false where it is missing.
pub open spec fn flag_field(json: JsonView, index: int, name: Seq<char>) -> Option<bool> {
    defaulted(json, index, name, |v: JsonView| flag_value(v), false)
}

/// A boolean that may be missing.
pub open spec fn opt_flag_field(json: JsonView, index: int, name: Seq<char>) -> Option<
    Option<bool>,
> {
    optional(json, index, name, |v: JsonView| flag_value(v))
}

/// An integer of 64 bits that may be missing.
pub open spec fn opt_i64_field(json: JsonView, index: int, name: Seq<char>) -> Option<Option<i64>> {
    optional(json, index, name, |v: JsonView| i64_value(v))
}

/// An integer of 32 bits that may be missing.
pub open spec fn opt_i32_field(json: JsonView, index: int, name: Seq<char>) -> Option<Option<i32>> {
    optional(json, index, name, |v: JsonView| i32_value(v))
}

/// An unsigned integer of 32 bits that has to be there.
pub open spec fn u32_field(json: JsonView, index: int, name: Seq<char>) -> Option<u32> {
    required(json, index, name, |v: JsonView| u32_value(v))
}

/// An index, 0 where it is missing.
pub open spec fn index_field(json: JsonView, index: int, name: Seq<char>) -> Option<usize> {
    defaulted(json, index, name, |v: JsonView| usize_value(v), 0)
}

/// A list of texts that has to be there.
pub open spec fn texts_field(json: JsonView, index: int, name: Seq<char>) -> Option<
    Seq<Seq<char>>,
> {
    required(json, index, name, |v: JsonView| texts_value(v))
}

/// A list of texts, empty where it is missing.
pub open spec fn texts_or_empty_field(json: JsonView, index: int, name: Seq<char>) -> Option<
    Seq<Seq<char>>,
> {
    defaulted(json, index, name, |v: JsonView| texts_value(v), Seq::empty())
}

/// Whether an optional field holds a value.
fn non_null<'a>(value: &'a Json) -> (r: bool)
    ensures
        r == (value@ !is Null),
{
    match value {
        Json::Null => false,
        _ => true,
    }
}

/// Decodes a text that has to be there.
pub fn text_at(json: &Json, index: usize, name: &str) -> (r: Option<String>)
    ensures
        opt_view(r) == text_field(json@, index as int, name@),
{
    match field_of(json, index, name) {
        Some(value) => match value.as_str() {
            Some(s) => Some(s.to_owned()),
            None => None,
        },
        None => None,
    }
}

/// Decodes a text that may be missing.
pub fn opt_text_at(json: &Json, index: usize, name: &str) -> (r: Option<Option<String>>)
    ensures
        r is Some <==> opt_text_field(json@, index as int, name@) is Some,
        r matches Some(v) ==> opt_text_field(json@, index as int, name@) == Some(opt_view(v)),
{
    match field_of(json, index, name) {
        Some(value) => if non_null(value) {
            match value.as_str() {
                Some(s) => Some(Some(s.to_owned())),
                None => None,
            }
        } else {
            Some(None)
        },
        None => match json {
            Json::Object(_) => Some(None),
            _ => None,
        },
    }
}

/// Decodes a text, empty where it is missing.
pub fn text_or_empty_at(json: &Json, index: usize, name: &str) -> (r: Option<String>)
    ensures
        opt_view(r) == text_or_empty_field(json@, index as int, name@),
{
    match field_of(json, index, name) {
        Some(value) => match value.as_str() {
            Some(s) => Some(s.to_owned()),
            None => None,
        },
        None => Some(String::new()),
    }
}

/// Decodes any value that may be missing.
pub fn opt_json_at(json: &Json, index: usize, name: &str) -> (r: Option<Option<Json>>)
    ensures
        r is Some <==> opt_json_field(json@, index as int, name@) is Some,
        r matches Some(v) ==> opt_json_field(json@, index as int, name@) == Some(opt_view(v)),
{
    match field_of(json, index, name) {
        Some(value) => if non_null(value) {
            Some(Some(value.copy()))
        } else {
            Some(None)
        },
        None => match json {
            Json::Object(_) => Some(None),
            _ => None,
        },
    }
}

/// Decodes a boolean that may be missing.
pub fn opt_flag_at(json: &Json, index: usize, name: &str) -> (r: Option<Option<bool>>)
    ensures
        r == opt_flag_field(json@, index as int, name@),
{
    match field_of(json, index, name) {
        Some(value) => if non_null(value) {
            match flag_of(value) {
                Some(v) => Some(Some(v)),
                None => None,
            }
        } else {
            Some(None)
        },
        None => match json {
            Json::Object(_) => Some(None),
            _ => None,
        },
    }
}

/// Decodes an integer of 64 bits that may be missing.
pub fn opt_i64_at(json: &Json, index: usize, name: &str) -> (r: Option<Option<i64>>)
    ensures
        r == opt_i64_field(json@, index as int, name@),
{
    match field_of(json, index, name) {
        Some(value) => if non_null(value) {
            match i64_of(value) {
                Some(v) => Some(Some(v)),
                None => None,
            }
        } else {
            Some(None)
        },
        None => match json {
            Json::Object(_) => Some(None),
            _ => None,
        },
    }
}

/// Decodes an integer of 32 bits that may be missing.
pub fn opt_i32_at(json: &Json, index: usize, name: &str) -> (r: Option<Option<i32>>)
    ensures
        r == opt_i32_field(json@, index as int, name@),
{
    match field_of(json, index, name) {
        Some(value) => if non_null(value) {
            match i32_of(value) {
                Some(v) => Some(Some(v)),
                None => None,
            }
        } else {
            Some(None)
        },
        None => match json {
            Json::Object(_) => Some(None),
            _ => None,
        },
    }
}

/// Decodes a boolean, false where it is missing.
pub fn flag_at(json: &Json, index: usize, name: &str) -> (r: Option<bool>)
    ensures
        r == flag_field(json@, index as int, name@),
{
    match field_of(json, index, name) {
        Some(value) => flag_of(value),
        None => Some(false),
    }
}

/// Decodes an unsigned integer of 32 bits that has to be there.
pub fn u32_at(json: &Json, index: usize, name: &str) -> (r: Option<u32>)
    ensures
        r == u32_field(json@, index as int, name@),
{
    match field_of(json, index, name) {
        Some(value) => u32_of(value),
        None => None,
    }
}

/// Decodes an integer of 32 bits that has to be there.
pub fn i32_at(json: &Json, index: usize, name: &str) -> (r: Option<i32>)
    ensures
        r == i32_field(json@, index as int, name@),
{
    match field_of(json, index, name) {
        Some(value) => i32_of(value),
        None => None,
    }
}

/// Decodes an index, 0 where it is missing.
pub fn index_at(json: &Json, index: usize, name: &str) -> (r: Option<usize>)
    ensures
        r == index_field(json@, index as int, name@),
{
    match field_of(json, index, name) {
        Some(value) => usize_of(value),
        None => Some(0),
    }
}

/// Decodes a list of texts that has to be there.
pub fn texts_at(json: &Json, index: usize, name: &str) -> (r: Option<Vec<String>>)
    ensures
        views_opt(r) == texts_field(json@, index as int, name@),
{
    match field_of(json, index, name) {
        Some(value) => texts_of(value),
        None => None,
    }
}

/// Decodes a list of texts, empty where it is missing.
pub fn texts_or_empty_at(json: &Json, index: usize, name: &str) -> (r: Option<Vec<String>>)
    ensures
        views_opt(r) == texts_or_empty_field(json@, index as int, name@),
{
    match field_of(json, index, name) {
        Some(value) => texts_of(value),
        None => Some(Vec::new()),
    }
}

// ---------------------------------------------------------------------------------------------
// What fields hold
// ---------------------------------------------------------------------------------------------
/// A field of an object is its member of that name; a field of a list is the item at its place.
pub proof fn lemma_where_fields_stand(
    members: Seq<(Seq<char>, JsonView)>,
    items: Seq<JsonView>,
    index: int,
    name: Seq<char>,
    text: Seq<char>,
)
    ensures
        JsonView::Object(members).get(name) == Some(JsonView::Str(text)) ==> text_field(
            JsonView::Object(members),
            index,
            name,
        ) == Some(text) && opt_text_field(JsonView::Object(members), index, name) == Some(
            Some(text),
        ) && text_or_empty_field(JsonView::Object(members), index, name) == Some(text),
        0 <= index < items.len() && items[index] == JsonView::Str(text) ==> text_field(
            JsonView::Array(items),
            index,
            name,
        ) == Some(text) && opt_text_field(JsonView::Array(items), index, name) == Some(Some(text)),
        index >= items.len() ==> text_field(JsonView::Array(items), index, name) is None
            && opt_text_field(JsonView::Array(items), index, name) is None && text_or_empty_field(
            JsonView::Array(items),
            index,
            name,
        ) == Some(Seq::<char>::empty()),
        JsonView::Object(members).get(name) is None ==> text_field(
            JsonView::Object(members),
            index,
            name,
        ) is None && opt_text_field(JsonView::Object(members), index, name) == Some(
            None::<Seq<char>>,
        ) && text_or_empty_field(JsonView::Object(members), index, name) == Some(
            Seq::<char>::empty(),
        ),
        JsonView::Object(members).get(name) == Some(JsonView::Null) ==> text_field(
            JsonView::Object(members),
            index,
            name,
        ) is None && opt_text_field(JsonView::Object(members), index, name) == Some(
            None::<Seq<char>>,
        ) && text_or_empty_field(JsonView::Object(members), index, name) is None,
{
}

/// Which values can be records: objects, and lists that are not longer than the record.
pub proof fn lemma_which_values_are_records(json: JsonView, fields: nat)
    ensures
        json is Object ==> record(json, fields),
        json is Array ==> (record(json, fields) <==> json->Array_0.len() <= fields),
        !(json is Object) && !(json is Array) ==> !record(json, fields),
{
}

/// Numbers are read where they fit, and flags where they are flags.
pub proof fn lemma_which_numbers_fit(n: i64, m: u64, flag: bool, text: Seq<char>)
    ensures
        i64_value(int_json(n)) == Some(n),
        i32::MIN <= n <= i32::MAX ==> (i32_value(int_json(n)) matches Some(k) && k as int == n),
        n < i32::MIN || n > i32::MAX ==> i32_value(int_json(n)) is None,
        m <= u32::MAX ==> (u32_value(uint_json(m)) matches Some(k) && k as int == m),
        m > u32::MAX ==> u32_value(uint_json(m)) is None,
        m <= u32::MAX ==> (usize_value(uint_json(m)) matches Some(k) && k as int == m),
        n < 0 ==> u32_value(int_json(n)) is None && usize_value(int_json(n)) is None,
        flag_value(JsonView::Bool(flag)) == Some(flag),
        flag_value(JsonView::Str(text)) is None,
        i64_value(JsonView::Str(text)) is None,
        u32_value(JsonView::Null) is None,
{
}

/// A list of texts is read item by item, and only where every item is a text.
pub proof fn lemma_lists_of_texts(texts: Seq<Seq<char>>, items: Seq<JsonView>, i: int)
    ensures
        texts_value(texts_json(texts)) == Some(texts),
        0 <= i < items.len() && !(items[i] is Str) ==> texts_value(JsonView::Array(items)) is None,
        texts_value(JsonView::Null) is None,
{
    let all = texts_json(texts)->Array_0;
    let decode = |item: JsonView| item.as_str();
    assert forall|k: int| 0 <= k < all.len() implies (#[trigger] decode(all[k])) is Some by {}
    assert(texts_value(texts_json(texts))->0 =~= texts);
    if 0 <= i < items.len() && !(items[i] is Str) {
        assert(decode(items[i]) is None);
    }
}

/// Fields that may be missing, in objects and in lists.
pub proof fn lemma_missing_fields(
    members: Seq<(Seq<char>, JsonView)>,
    items: Seq<JsonView>,
    index: int,
    name: Seq<char>,
    flag: bool,
)
    ensures
        ({
            let decode = |v: JsonView| flag_value(v);
            let object = JsonView::Object(members);
            let list = JsonView::Array(items);
            &&& object.get(name) is None ==> optional(object, index, name, decode) == Some(
                None::<bool>,
            ) && optional_or_absent(object, index, name, decode) == Some(None::<bool>)
                && defaulted(object, index, name, decode, flag) == Some(flag) && required(
                object,
                index,
                name,
                decode,
            ) is None
            &&& object.get(name) == Some(JsonView::Bool(flag)) ==> optional(
                object,
                index,
                name,
                decode,
            ) == Some(Some(flag)) && optional_or_absent(object, index, name, decode) == Some(
                Some(flag),
            ) && defaulted(object, index, name, decode, !flag) == Some(flag) && required(
                object,
                index,
                name,
                decode,
            ) == Some(flag)
            &&& object.get(name) == Some(JsonView::Null) ==> optional(object, index, name, decode)
                == Some(None::<bool>) && defaulted(object, index, name, decode, flag) is None
            &&& index >= items.len() ==> optional(list, index, name, decode) is None
                && optional_or_absent(list, index, name, decode) == Some(None::<bool>)
                && defaulted(list, index, name, decode, flag) == Some(flag)
        }),
{
}

} // verus!
