//! A JSON document as plain values, and the summary of a request body that
//! is logged in place of the body itself.
//!
//! The summary names every leaf of the document by its path and gives, in
//! place of each string and number, only its length, so that no payload data
//! reaches the log.

use vstd::prelude::*;
use vstd::utf8::encode_utf8;

use crate::text::{bool_text, bool_to_string, decimal_digits, u64_to_string};

verus! {

/// A JSON document. A number is held as the text it is written as.
#[derive(Debug)]
pub enum JsonValue {
    Null,
    Bool(bool),
    Number(String),
    String(String),
    Array(Vec<JsonValue>),
    Object(Vec<(String, JsonValue)>),
}

/// The number of bytes of a text in UTF-8, in decimal.
pub open spec fn byte_length_digits(text: Seq<char>) -> Seq<char> {
    decimal_digits(encode_utf8(text).len())
}

/// The path of an element of an array.
pub open spec fn element_key(parent_key: Seq<char>, index: nat) -> Seq<char> {
    parent_key + "["@ + decimal_digits(index) + "]"@
}

/// The path of a member of an object.
pub open spec fn member_key(parent_key: Seq<char>, name: Seq<char>) -> Seq<char> {
    parent_key + "["@ + name + "]"@
}

/// The summary of a document under a path. A leaf is written as its path, a
/// colon and a space, and then `null`, the truth value, or the length of the
/// number or string. An array or object is the summaries of its children,
/// separated by a comma and a space.
pub open spec fn request_details(value: JsonValue, parent_key: Seq<char>) -> Seq<char>
    decreases value, 1nat, 0nat,
{
    match value {
        JsonValue::Null => parent_key + ": null"@,
        JsonValue::Bool(b) => parent_key + ": "@ + bool_text(b),
        JsonValue::Number(num) => parent_key + ": "@ + byte_length_digits(num@),
        JsonValue::String(s) => parent_key + ": "@ + byte_length_digits(s@),
        JsonValue::Array(arr) => children_details(value, parent_key, arr@.len()),
        JsonValue::Object(obj) => children_details(value, parent_key, obj@.len()),
    }
}

/// The summaries of the first `count` children of an array or object,
/// separated by a comma and a space.
pub open spec fn children_details(value: JsonValue, parent_key: Seq<char>, count: nat) -> Seq<char>
    decreases value, 0nat, count,
{
    if count == 0 {
        Seq::empty()
    } else {
        let index = (count - 1) as nat;
        let last = match value {
            JsonValue::Array(arr) => if index < arr@.len() {
                request_details(arr@[index as int], element_key(parent_key, index))
            } else {
                Seq::empty()
            },
            JsonValue::Object(obj) => if index < obj@.len() {
                request_details(obj@[index as int].1, member_key(parent_key, obj@[index as int].0@))
            } else {
                Seq::empty()
            },
            _ => Seq::empty(),
        };
        if index == 0 {
            last
        } else {
            children_details(value, parent_key, index) + ", "@ + last
        }
    }
}

fn leaf(parent_key: &str, text: &str) -> (res: String)
    ensures
        res@ == parent_key@ + ": "@ + text@,
{
    String::from_str(parent_key).concat(": ").concat(text)
}

fn child_key(parent_key: &str, name: &str) -> (res: String)
    ensures
        res@ == member_key(parent_key@, name@),
{
    String::from_str(parent_key).concat("[").concat(name).concat("]")
}

fn byte_length(text: &str) -> (res: String)
    ensures
        res@ == byte_length_digits(text@),
{
    u64_to_string(text.as_bytes().len() as u64)
}

/// Summarises a document under a path.
pub fn get_request_details_from_value(json_value: &JsonValue, parent_key: &str) -> (res: String)
    ensures
        res@ == request_details(*json_value, parent_key@),
    decreases json_value,
{
    match json_value {
        JsonValue::Null => {
            proof {
                reveal_strlit(": null");
                reveal_strlit(": ");
                reveal_strlit("null");
                assert(": null"@ =~= ": "@ + "null"@);
            }
            leaf(parent_key, "null")
        },
        JsonValue::Bool(b) => leaf(parent_key, bool_to_string(*b).as_str()),
        JsonValue::Number(num) => leaf(parent_key, byte_length(num.as_str()).as_str()),
        JsonValue::String(s) => leaf(parent_key, byte_length(s.as_str()).as_str()),
        JsonValue::Array(arr) => {
            let mut result = String::new();
            let mut index: usize = 0;
            while index < arr.len()
                invariant
                    index <= arr.len(),
                    *json_value == JsonValue::Array(*arr),
                    result@ == children_details(*json_value, parent_key@, index as nat),
                decreases arr.len() - index,
            {
                let number = u64_to_string(index as u64);
                let key = child_key(parent_key, number.as_str());
                proof {
                    assert(decreases_to!(*json_value => *arr));
                    assert(decreases_to!(*arr => arr[index as int]));
                }
                let details = get_request_details_from_value(&arr[index], key.as_str());
                if index > 0 {
                    result.append(", ");
                }
                result.append(details.as_str());
                proof {
                    assert(key@ == element_key(parent_key@, index as nat));
                    assert(result@ =~= children_details(
                        *json_value,
                        parent_key@,
                        (index + 1) as nat,
                    ));
                }
                index += 1;
            }
            result
        },
        JsonValue::Object(obj) => {
            let mut result = String::new();
            let mut index: usize = 0;
            while index < obj.len()
                invariant
                    index <= obj.len(),
                    *json_value == JsonValue::Object(*obj),
                    result@ == children_details(*json_value, parent_key@, index as nat),
                decreases obj.len() - index,
            {
                let key = child_key(parent_key, obj[index].0.as_str());
                proof {
                    assert(decreases_to!(*json_value => *obj));
                    assert(decreases_to!(*obj => obj[index as int]));
                    assert(decreases_to!(obj[index as int] => obj[index as int].1));
                }
                let details = get_request_details_from_value(&obj[index].1, key.as_str());
                if index > 0 {
                    result.append(", ");
                }
                result.append(details.as_str());
                proof {
                    assert(result@ =~= children_details(
                        *json_value,
                        parent_key@,
                        (index + 1) as nat,
                    ));
                }
                index += 1;
            }
            result
        },
    }
}

} // verus!
