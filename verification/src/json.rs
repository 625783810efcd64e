//! JSON values, as the settings of Zed hand them to the extension.

use vstd::prelude::*;

verus! {

/// A JSON value. A number is kept as the text that writes it; the entries
/// of an object are kept in order.
#[derive(Debug)]
pub enum JsonValue {
    Null,
    Bool(bool),
    Number(String),
    Str(String),
    Array(Vec<JsonValue>),
    Object(Vec<(String, JsonValue)>),
}

/// No two entries of an object share a name, as in a `serde_json` map.
pub open spec fn keys_distinct(entries: Seq<(String, JsonValue)>) -> bool {
    forall|i: int, j: int| 0 <= i < j < entries.len() ==> entries[i].0@ != entries[j].0@
}

/// The position of the first entry named `key`, or the number of entries
/// when there is none.
pub open spec fn entry_index(entries: Seq<(String, JsonValue)>, key: Seq<char>) -> int
    decreases entries.len(),
{
    if entries.len() == 0 {
        0
    } else if entries[0].0@ == key {
        0
    } else {
        1 + entry_index(entries.drop_first(), key)
    }
}

pub proof fn lemma_entry_index(entries: Seq<(String, JsonValue)>, key: Seq<char>, k: int)
    requires
        0 <= k <= entries.len(),
        k < entries.len() ==> entries[k].0@ == key,
        forall|i: int| 0 <= i < k ==> entries[i].0@ != key,
    ensures
        entry_index(entries, key) == k,
    decreases k,
{
    if k > 0 {
        lemma_entry_index(entries.drop_first(), key, k - 1);
    }
}

pub proof fn lemma_entry_index_bounds(entries: Seq<(String, JsonValue)>, key: Seq<char>)
    ensures
        0 <= entry_index(entries, key) <= entries.len(),
        entry_index(entries, key) < entries.len() ==> entries[entry_index(entries, key)].0@ == key,
        forall|i: int| 0 <= i < entry_index(entries, key) ==> entries[i].0@ != key,
    decreases entries.len(),
{
    if entries.len() > 0 && entries[0].0@ != key {
        lemma_entry_index_bounds(entries.drop_first(), key);
        assert forall|i: int| 0 <= i < entry_index(entries, key) implies entries[i].0@ != key by {
            if i > 0 {
                assert(entries[i] == entries.drop_first()[i - 1]);
            }
        }
    }
}

/// Finds the first entry named `key`.
pub fn find_entry(entries: &Vec<(String, JsonValue)>, key: &String) -> (res: usize)
    ensures
        res == entry_index(entries@, key@),
{
    let n = entries.len();
    let mut i: usize = 0;
    while i < n && !(entries[i].0 == *key)
        invariant
            n == entries@.len(),
            i <= n,
            forall|j: int| 0 <= j < i ==> entries@[j].0@ != key@,
        decreases n - i,
    {
        i = i + 1;
    }
    proof {
        lemma_entry_index(entries@, key@, i as int);
    }
    i
}

/// The value is an array that holds one string, `text`.
pub open spec fn is_single_string_array(v: JsonValue, text: Seq<char>) -> bool {
    v matches JsonValue::Array(items) && items@.len() == 1 && (items@[0] matches JsonValue::Str(s) && s@ == text)
}

/// The value is an object without entries.
pub open spec fn is_empty_object(v: JsonValue) -> bool {
    v matches JsonValue::Object(entries) && entries@.len() == 0
}

/// An array that holds one string.
pub fn single_string_array(text: String) -> (res: JsonValue)
    ensures
        is_single_string_array(res, text@),
{
    let mut items: Vec<JsonValue> = Vec::new();
    items.push(JsonValue::Str(text));
    JsonValue::Array(items)
}

} // verus!
