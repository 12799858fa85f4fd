//! JSON as this library sees it. Reading and escaping are done by
//! `serde_json`, behind the declarations below; what a value holds is spoken
//! of as its compact text; the assembling of objects is done here.

use vstd::prelude::*;
use vstd::string::StringExecFns;

verus! {

/// A JSON value of `serde_json`. Nothing of its inside is known here but
/// what the functions below say of it.
#[verifier::external_type_specification]
#[verifier::external_body]
pub struct ExValue(serde_json::Value);

/// What a JSON value holds, as its compact text: the text that `serde_json`
/// writes for it, without white space.
pub uninterp spec fn value_text(v: serde_json::Value) -> Seq<char>;

/// The JSON text of the string `s`: quoted and escaped, as `serde_json`
/// writes a string.
pub uninterp spec fn json_string(s: Seq<char>) -> Seq<char>;

/// The JSON text of the integer `n`, as `serde_json` writes an `i64`.
pub uninterp spec fn json_integer(n: i64) -> Seq<char>;

/// The compact text of the JSON value that `serde_json` reads from `text`;
/// `None` where it reads none.
pub uninterp spec fn json_parse(text: Seq<char>) -> Option<Seq<char>>;

/// The compact text of the member `key` of the value whose compact text is
/// `t`; `None` where the value is no object or has no such member.
pub uninterp spec fn json_member(t: Seq<char>, key: Seq<char>) -> Option<Seq<char>>;

/// The string that the value with the compact text `t` is; `None` where it
/// is no string.
pub uninterp spec fn json_str(t: Seq<char>) -> Option<Seq<char>>;

/// The integer that the value with the compact text `t` is; `None` where
/// it is no number, or a number that is no `i64`.
pub uninterp spec fn json_i64(t: Seq<char>) -> Option<i64>;

/// The boolean that the value with the compact text `t` is; `None` where
/// it is no boolean.
pub uninterp spec fn json_bool(t: Seq<char>) -> Option<bool>;

/// Whether the value with the compact text `t` is `null`.
pub uninterp spec fn json_is_null(t: Seq<char>) -> bool;

/// The members of the object with the compact text `t`, each as its key
/// and the compact text of its value, in the order in which `serde_json`
/// walks them; `None` where the value is no object.
pub uninterp spec fn json_entries(t: Seq<char>) -> Option<Seq<(Seq<char>, Seq<char>)>>;

/// The compact texts of the items of the array with the compact text `t`,
/// in order; `None` where the value is no array.
pub uninterp spec fn json_items(t: Seq<char>) -> Option<Seq<Seq<char>>>;

/// The views of a sequence of key and value pairs.
pub open spec fn pair_texts(pairs: Seq<(String, String)>) -> Seq<(Seq<char>, Seq<char>)> {
    pairs.map_values(|p: (String, String)| (p.0@, p.1@))
}

/// The compact texts of a sequence of values.
pub open spec fn value_texts(values: Seq<serde_json::Value>) -> Seq<Seq<char>> {
    values.map_values(|v: serde_json::Value| value_text(v))
}

/// The compact text of a value that may be absent.
pub open spec fn optional_value_text(o: Option<&serde_json::Value>) -> Option<Seq<char>> {
    match o {
        Some(v) => Some(value_text(*v)),
        None => None,
    }
}

/// Calls `serde_json::to_string` on a `str`. The contract names the text
/// that it writes; writing a string into memory does not fail.
#[verifier::external_body]
pub(crate) fn quote(s: &str) -> (r: String)
    ensures
        r@ == json_string(s@),
{
    match serde_json::to_string(s) {
        Ok(t) => t,
        Err(_) => String::new(),
    }
}

/// Calls `serde_json::to_string` on an `i64`. The contract names the text
/// that it writes; writing an integer into memory does not fail.
#[verifier::external_body]
pub(crate) fn integer(n: i64) -> (r: String)
    ensures
        r@ == json_integer(n),
{
    match serde_json::to_string(&n) {
        Ok(t) => t,
        Err(_) => String::new(),
    }
}

/// Calls `serde_json::from_str` for a `Value`. The contract names the
/// compact text of the value read, and says that none is returned exactly
/// where the call fails.
#[verifier::external_body]
pub(crate) fn parse(text: &str) -> (r: Option<serde_json::Value>)
    ensures
        match r {
            Some(v) => json_parse(text@) == Some(value_text(v)),
            None => json_parse(text@).is_none(),
        },
{
    match serde_json::from_str::<serde_json::Value>(text) {
        Ok(v) => Some(v),
        Err(_) => None,
    }
}

/// Calls `Value::get` with a key. The contract names the member found.
#[verifier::external_body]
pub(crate) fn member<'a>(v: &'a serde_json::Value, key: &str) -> (r: Option<&'a serde_json::Value>)
    ensures
        optional_value_text(r) == json_member(value_text(*v), key@),
{
    v.get(key)
}

/// Calls `Value::as_str`. The contract names the string found.
#[verifier::external_body]
pub(crate) fn as_string<'a>(v: &'a serde_json::Value) -> (r: Option<&'a str>)
    ensures
        match r {
            Some(s) => json_str(value_text(*v)) == Some(s@),
            None => json_str(value_text(*v)).is_none(),
        },
{
    v.as_str()
}

/// Calls `Value::as_i64`. The contract names the integer found.
#[verifier::external_body]
pub(crate) fn as_i64(v: &serde_json::Value) -> (r: Option<i64>)
    ensures
        r == json_i64(value_text(*v)),
{
    v.as_i64()
}

/// Calls `Value::as_bool`. The contract names the boolean found.
#[verifier::external_body]
pub(crate) fn as_bool(v: &serde_json::Value) -> (r: Option<bool>)
    ensures
        r == json_bool(value_text(*v)),
{
    v.as_bool()
}

/// Calls `Value::is_null`. The contract names the answer.
#[verifier::external_body]
pub(crate) fn is_null(v: &serde_json::Value) -> (r: bool)
    ensures
        r == json_is_null(value_text(*v)),
{
    v.is_null()
}

/// Calls `Value::as_object` and walks the members with `Map::iter`. The
/// contract names the members found, each value as the text that its
/// `to_string` writes.
#[verifier::external_body]
pub(crate) fn entries(v: &serde_json::Value) -> (r: Option<Vec<(String, String)>>)
    ensures
        match r {
            Some(list) => json_entries(value_text(*v)) == Some(pair_texts(list@)),
            None => json_entries(value_text(*v)).is_none(),
        },
{
    match v.as_object() {
        Some(map) => {
            let mut out = Vec::new();
            for (k, item) in map.iter() {
                out.push((k.clone(), item.to_string()));
            }
            Some(out)
        },
        None => None,
    }
}

/// Calls `Value::as_array`. The contract names the items found.
#[verifier::external_body]
pub(crate) fn items<'a>(v: &'a serde_json::Value) -> (r: Option<&'a Vec<serde_json::Value>>)
    ensures
        match r {
            Some(list) => json_items(value_text(*v)) == Some(value_texts(list@)),
            None => json_items(value_text(*v)).is_none(),
        },
{
    v.as_array()
}

/// The text of the members `fields` from the first `n` on, each written as
/// its key, a colon and its value, with a comma before each but the first
/// of all.
pub open spec fn members_text(fields: Seq<(Seq<char>, Seq<char>)>, n: int) -> Seq<char>
    decreases n,
{
    if n <= 0 || n > fields.len() {
        Seq::empty()
    } else {
        members_text(fields, n - 1) + (if n == 1 {
            Seq::<char>::empty()
        } else {
            ","@
        }) + fields[n - 1].0 + ":"@ + fields[n - 1].1
    }
}

/// The text of the JSON object with the members `fields`, in their order.
/// Each key is a JSON string already, each value a JSON text.
pub open spec fn object_text(fields: Seq<(Seq<char>, Seq<char>)>) -> Seq<char> {
    "{"@ + members_text(fields, fields.len() as int) + "}"@
}

/// Writes the JSON object with the members `fields`, in their order. Each
/// key is a JSON string already, each value a JSON text.
pub fn object(fields: &Vec<(String, String)>) -> (r: String)
    ensures
        r@ == object_text(pair_texts(fields@)),
{
    let ghost pairs = pair_texts(fields@);
    let mut out = String::from_str("{");
    let n = fields.len();
    let mut i: usize = 0;
    assert(out@ =~= "{"@ + members_text(pairs, 0));
    while i < n
        invariant
            n == fields.len(),
            pairs == pair_texts(fields@),
            i <= n,
            out@ == "{"@ + members_text(pairs, i as int),
        decreases n - i,
    {
        let ghost before = out@;
        if i > 0 {
            out.append(",");
        }
        out.append(fields[i].0.as_str());
        out.append(":");
        out.append(fields[i].1.as_str());
        proof {
            assert(pairs[i as int] == (fields[i as int].0@, fields[i as int].1@));
            assert(out@ =~= "{"@ + members_text(pairs, i + 1));
        }
        i += 1;
    }
    out.append("}");
    out
}

} // verus!
