use vstd::prelude::*;

verus! {

#[verifier::external_type_specification]
#[verifier::external_body]
pub struct ExJsonValue(serde_json::Value);

/// A JSON document as values; a number keeps the text serde_json gives it.
#[derive(Debug)]
pub enum Json {
    Null,
    Bool(bool),
    Number(String),
    Str(String),
    Array(Vec<Json>),
    Object(Vec<(String, Json)>),
}

/// The document that `text` holds, or `None` where `text` is not JSON.
pub uninterp spec fn json_of(text: Seq<char>) -> Option<Json>;

pub open spec fn hex_digit(n: int) -> char {
    seq!['0', '1', '2', '3', '4', '5', '6', '7', '8', '9', 'a', 'b', 'c', 'd', 'e', 'f'][n]
}

/// How one character is written inside a JSON string literal.
pub open spec fn escaped_char(c: char) -> Seq<char> {
    if c == '"' {
        seq!['\\', '"']
    } else if c == '\\' {
        seq!['\\', '\\']
    } else if c == '\u{8}' {
        seq!['\\', 'b']
    } else if c == '\t' {
        seq!['\\', 't']
    } else if c == '\n' {
        seq!['\\', 'n']
    } else if c == '\u{c}' {
        seq!['\\', 'f']
    } else if c == '\r' {
        seq!['\\', 'r']
    } else if (c as u32) < 0x20 {
        seq!['\\', 'u', '0', '0', hex_digit((c as u32) as int / 16), hex_digit((c as u32) as int % 16)]
    } else {
        seq![c]
    }
}

pub open spec fn escaped(s: Seq<char>) -> Seq<char>
    decreases s.len(),
{
    if s.len() == 0 {
        Seq::empty()
    } else {
        escaped(s.drop_last()) + escaped_char(s.last())
    }
}

/// The JSON string literal that encodes `s`, quotes included.
pub open spec fn json_string_of(s: Seq<char>) -> Seq<char> {
    seq!['"'] + escaped(s) + seq!['"']
}

/// The value under `key` in an object's members, the first one listed.
pub open spec fn member_of(fields: Seq<(String, Json)>, key: Seq<char>) -> Option<Json>
    decreases fields.len(),
{
    if fields.len() == 0 {
        None
    } else {
        match member_of(fields.drop_last(), key) {
            Some(v) => Some(v),
            None => if fields.last().0@ == key {
                Some(fields.last().1)
            } else {
                None
            },
        }
    }
}

pub open spec fn field_of(j: Json, key: Seq<char>) -> Option<Json> {
    match j {
        Json::Object(fields) => member_of(fields@, key),
        _ => None,
    }
}

/// The text under `key`, where `j` is an object and that member is a string.
pub open spec fn text_field(j: Json, key: Seq<char>) -> Option<Seq<char>> {
    match field_of(j, key) {
        Some(Json::Str(s)) => Some(s@),
        _ => None,
    }
}

/// The entries of the array under `result`, as the provider's listings hold them.
pub open spec fn result_items(doc: Option<Json>) -> Option<Seq<Json>> {
    match doc {
        Some(d) => match field_of(d, "result"@) {
            Some(Json::Array(items)) => Some(items@),
            _ => None,
        },
        None => None,
    }
}

/// Relies on serde_json::to_string on a `str`: it writes the string literal
/// with the escapes of `escaped_char` into an in-memory buffer, which cannot fail.
#[verifier::external_body]
pub(crate) fn json_string(s: &str) -> (r: String)
    ensures
        r@ == json_string_of(s@),
{
    serde_json::to_string(s).unwrap_or_default()
}

/// Relies on serde_json::from_str into a `serde_json::Value`: the document, or
/// `None` where `text` is not JSON.
#[verifier::external_body]
pub(crate) fn parse_json(text: &str) -> (r: Option<Json>)
    ensures
        r == json_of(text@),
{
    serde_json::from_str::<serde_json::Value>(text).ok().map(json_from_value)
}

/// Converts a `serde_json::Value`, variant by variant.
#[verifier::external_body]
fn json_from_value(v: serde_json::Value) -> Json {
    match v {
        serde_json::Value::Null => Json::Null,
        serde_json::Value::Bool(b) => Json::Bool(b),
        serde_json::Value::Number(n) => Json::Number(n.to_string()),
        serde_json::Value::String(s) => Json::Str(s),
        serde_json::Value::Array(a) => Json::Array(a.into_iter().map(json_from_value).collect()),
        serde_json::Value::Object(m) => Json::Object(
            m.into_iter().map(|(k, v)| (k, json_from_value(v))).collect(),
        ),
    }
}

proof fn lemma_member_prefix(fields: Seq<(String, Json)>, key: Seq<char>, k: int)
    requires
        0 <= k <= fields.len(),
        member_of(fields.take(k), key) is Some,
    ensures
        member_of(fields, key) == member_of(fields.take(k), key),
    decreases fields.len() - k,
{
    if k < fields.len() {
        assert(fields.take(k + 1).drop_last() =~= fields.take(k));
        lemma_member_prefix(fields, key, k + 1);
    } else {
        assert(fields.take(k) =~= fields);
    }
}

/// The value under `key`, where `j` is an object that has it.
pub fn field<'a>(j: &'a Json, key: &str) -> (r: Option<&'a Json>)
    ensures
        r matches Some(v) ==> field_of(*j, key@) == Some(*v),
        r is None ==> field_of(*j, key@) is None,
{
    match j {
        Json::Object(fields) => {
            let mut i: usize = 0;
            while i < fields.len()
                invariant
                    i <= fields.len(),
                    member_of(fields@.take(i as int), key@) is None,
                    field_of(*j, key@) == member_of(fields@, key@),
                decreases fields.len() - i,
            {
                proof {
                    assert(fields@.take(i + 1).drop_last() =~= fields@.take(i as int));
                }
                if same_chars(fields[i].0.as_str(), key) {
                    proof {
                        assert(member_of(fields@.take(i + 1), key@) == Some(fields@[i as int].1));
                        lemma_member_prefix(fields@, key@, i + 1);
                        assert(field_of(*j, key@) == Some(fields@[i as int].1));
                    }
                    return Some(&fields[i].1);
                }
                i = i + 1;
            }
            assert(fields@.take(fields@.len() as int) =~= fields@);
            None
        },
        _ => None,
    }
}

/// Whether `a` and `b` hold the same characters.
pub fn same_chars(a: &str, b: &str) -> (r: bool)
    ensures
        r == (a@ == b@),
{
    let n = a.unicode_len();
    if n != b.unicode_len() {
        return false;
    }
    let mut i: usize = 0;
    while i < n
        invariant
            n == a@.len(),
            n == b@.len(),
            i <= n,
            forall|j: int| 0 <= j < i ==> a@[j] == b@[j],
        decreases n - i,
    {
        if a.get_char(i) != b.get_char(i) {
            return false;
        }
        i = i + 1;
    }
    assert(a@ =~= b@);
    true
}

/// The text under `key`, where `j` is an object and that member is a string.
pub fn text_member(j: &Json, key: &str) -> (r: Option<String>)
    ensures
        r matches Some(s) ==> text_field(*j, key@) == Some(s@),
        r is None ==> text_field(*j, key@) is None,
{
    match field(j, key) {
        Some(Json::Str(s)) => Some(s.clone()),
        _ => None,
    }
}

/// The entries of the array under `result`.
pub fn result_array(doc: &Json) -> (r: Option<&Vec<Json>>)
    ensures
        r matches Some(items) ==> result_items(Some(*doc)) == Some(items@),
        r is None ==> result_items(Some(*doc)) is None,
{
    match field(doc, "result") {
        Some(Json::Array(items)) => Some(items),
        _ => None,
    }
}

} // verus!
