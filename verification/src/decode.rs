//! Decoding of inbound frames: from the text of a frame to an event.

use vstd::prelude::*;
use crate::events::PayloadCoordinates;
use crate::json::{
    as_bool, as_i64, as_string, entries, is_null, json_bool, json_entries, json_i64,
    json_is_null, json_member, json_parse, json_str, member, optional_value_text, pair_texts,
    parse, value_text,
};
use crate::settings::SettingsMap;

verus! {

/// Whether two pieces of text are the same.
pub fn same_text(a: &str, b: &str) -> (r: bool)
    ensures
        r == (a@ == b@),
{
    a.to_owned() == b.to_owned()
}

/// The compact text of the member `key` of the object with the compact
/// text `obj`, where the member is there and not `null`.
pub open spec fn present(obj: Seq<char>, key: Seq<char>) -> Option<Seq<char>> {
    match json_member(obj, key) {
        Some(t) => if json_is_null(t) {
            None
        } else {
            Some(t)
        },
        None => None,
    }
}

/// The `i32` that the value with the compact text `text` is.
pub open spec fn text_i32(text: Seq<char>) -> Option<i32> {
    match json_i64(text) {
        Some(n) => if i32::MIN <= n <= i32::MAX {
            Some(n as i32)
        } else {
            None
        },
        None => None,
    }
}

/// The string member `key` of `obj`.
pub open spec fn field_str(obj: Seq<char>, key: Seq<char>) -> Option<Seq<char>> {
    match json_member(obj, key) {
        Some(t) => json_str(t),
        None => None,
    }
}

/// The boolean member `key` of `obj`.
pub open spec fn field_bool(obj: Seq<char>, key: Seq<char>) -> Option<bool> {
    match json_member(obj, key) {
        Some(t) => json_bool(t),
        None => None,
    }
}

/// The `i32` member `key` of `obj`.
pub open spec fn field_i32(obj: Seq<char>, key: Seq<char>) -> Option<i32> {
    match json_member(obj, key) {
        Some(t) => text_i32(t),
        None => None,
    }
}

/// The member `key` of `obj` as an optional `i32`: absent or `null` is
/// `Some(None)`, anything that is no `i32` is `None`.
pub open spec fn field_opt_i32(obj: Seq<char>, key: Seq<char>) -> Option<Option<i32>> {
    match present(obj, key) {
        None => Some(None),
        Some(t) => match text_i32(t) {
            Some(n) => Some(Some(n)),
            None => None,
        },
    }
}

/// The member `key` of `obj` as an optional boolean.
pub open spec fn field_opt_bool(obj: Seq<char>, key: Seq<char>) -> Option<Option<bool>> {
    match present(obj, key) {
        None => Some(None),
        Some(t) => match json_bool(t) {
            Some(b) => Some(Some(b)),
            None => None,
        },
    }
}

/// The member `key` of `obj` as an optional string.
pub open spec fn field_opt_str(obj: Seq<char>, key: Seq<char>) -> Option<Option<Seq<char>>> {
    match present(obj, key) {
        None => Some(None),
        Some(t) => match json_str(t) {
            Some(s) => Some(Some(s)),
            None => None,
        },
    }
}

/// The coordinates that the object `text` holds.
pub open spec fn text_coordinates(text: Seq<char>) -> Option<PayloadCoordinates> {
    match (field_i32(text, "column"@), field_i32(text, "row"@)) {
        (Some(column), Some(row)) => Some(PayloadCoordinates { column, row }),
        _ => None,
    }
}

/// The member `key` of `obj` as optional coordinates.
pub open spec fn field_opt_coordinates(obj: Seq<char>, key: Seq<char>) -> Option<
    Option<PayloadCoordinates>,
> {
    match present(obj, key) {
        None => Some(None),
        Some(t) => match text_coordinates(t) {
            Some(c) => Some(Some(c)),
            None => None,
        },
    }
}

/// The map that holds `entries`: of two entries with one key the later stays.
pub open spec fn entries_map(entries: Seq<(Seq<char>, Seq<char>)>) -> Map<Seq<char>, Seq<char>>
    decreases entries.len(),
{
    if entries.len() == 0 {
        Map::empty()
    } else {
        entries_map(entries.drop_last()).insert(entries.last().0, entries.last().1)
    }
}

/// The settings that the value with the compact text `t` holds, which
/// must be an object.
pub open spec fn value_settings(t: Seq<char>) -> Option<Map<Seq<char>, Seq<char>>> {
    match json_entries(t) {
        Some(e) => Some(entries_map(e)),
        None => None,
    }
}

/// The settings that the JSON text `text` holds, which must be an object.
pub open spec fn text_settings(text: Seq<char>) -> Option<Map<Seq<char>, Seq<char>>> {
    match json_parse(text) {
        Some(t) => value_settings(t),
        None => None,
    }
}

/// The settings that the member `key` of `obj` holds, which must be an object.
pub open spec fn field_settings(obj: Seq<char>, key: Seq<char>) -> Option<
    Map<Seq<char>, Seq<char>>,
> {
    match json_member(obj, key) {
        Some(t) => value_settings(t),
        None => None,
    }
}

/// The members of a settings blob, each key with its value.
pub open spec fn members_of(keys: Seq<Seq<char>>, values: Seq<Seq<char>>) -> Seq<
    (Seq<char>, Seq<char>),
> {
    Seq::new(keys.len(), |i: int| (keys[i], values[i]))
}

/// What `entries_map` holds where no key occurs twice: the keys of the
/// entries, each with the value of its entry.
pub proof fn lemma_entries_map(entries: Seq<(Seq<char>, Seq<char>)>)
    requires
        forall|i: int, j: int|
            0 <= i < j < entries.len() ==> (#[trigger] entries[i]).0 != (#[trigger] entries[j]).0,
    ensures
        forall|k: Seq<char>|
            entries_map(entries).contains_key(k) ==> exists|j: int|
                0 <= j < entries.len() && (#[trigger] entries[j]).0 == k,
        forall|j: int|
            0 <= j < entries.len() ==> entries_map(entries).contains_key(
                (#[trigger] entries[j]).0,
            ) && entries_map(entries)[entries[j].0] == entries[j].1,
    decreases entries.len(),
{
    if entries.len() > 0 {
        let rest = entries.drop_last();
        assert forall|i: int, j: int| 0 <= i < j < rest.len() implies (#[trigger] rest[i]).0 != (
        #[trigger] rest[j]).0 by {
            assert(entries[i].0 != entries[j].0);
        }
        lemma_entries_map(rest);
        assert forall|k: Seq<char>| entries_map(entries).contains_key(k) implies exists|j: int|
            0 <= j < entries.len() && (#[trigger] entries[j]).0 == k by {
            if k == entries.last().0 {
                assert(entries[entries.len() - 1].0 == k);
            } else {
                assert(entries_map(rest).contains_key(k));
                let j = choose|j: int| 0 <= j < rest.len() && (#[trigger] rest[j]).0 == k;
                assert(entries[j].0 == k);
            }
        }
        assert forall|j: int| 0 <= j < entries.len() implies entries_map(entries).contains_key(
            (#[trigger] entries[j]).0,
        ) && entries_map(entries)[entries[j].0] == entries[j].1 by {
            if j < entries.len() - 1 {
                assert(rest[j] == entries[j]);
                assert(entries[j].0 != entries[entries.len() - 1].0);
            }
        }
    }
}

/// Reading the members of a settings blob gives the blob back: what the
/// library does with the members of an object loses and adds nothing.
pub proof fn lemma_members_give_map_back(m: &SettingsMap)
    requires
        m.wf(),
    ensures
        entries_map(members_of(m.keys(), m.values())) == m@,
{
    m.lemma_entries();
    let entries = members_of(m.keys(), m.values());
    lemma_entries_map(entries);
    assert forall|k: Seq<char>| #[trigger] m@.contains_key(k) implies entries_map(
        entries,
    ).contains_key(k) && entries_map(entries)[k] == m@[k] by {
        assert(m.keys().contains(k));
        let j = m.keys().index_of(k);
        assert(0 <= j < m.keys().len() && m.keys()[j] == k);
        assert(entries[j].0 == k);
        assert(m@[m.keys()[j]] == m.values()[j]);
    }
    assert forall|k: Seq<char>| #[trigger] entries_map(entries).contains_key(k) implies m@.contains_key(
        k,
    ) by {
        let j = choose|j: int| 0 <= j < entries.len() && (#[trigger] entries[j]).0 == k;
        assert(m.keys()[j] == k);
        assert(m@.contains_key(m.keys()[j]));
    }
    assert(entries_map(entries) =~= m@);
}

/// The view of an optional string.
pub open spec fn string_view(o: Option<String>) -> Option<Seq<char>> {
    match o {
        Some(s) => Some(s@),
        None => None,
    }
}

/// The view of an optional optional string.
pub open spec fn optional_string_view(o: Option<Option<String>>) -> Option<Option<Seq<char>>> {
    match o {
        Some(s) => Some(string_view(s)),
        None => None,
    }
}

/// The view of optional settings.
pub open spec fn settings_view(o: Option<SettingsMap>) -> Option<Map<Seq<char>, Seq<char>>> {
    match o {
        Some(m) => Some(m@),
        None => None,
    }
}

/// Builds a settings blob from the members of an object, in their order.
pub fn settings_from_entries(entries: &Vec<(String, String)>) -> (r: SettingsMap)
    ensures
        r.wf(),
        r@ == entries_map(pair_texts(entries@)),
{
    let ghost all = pair_texts(entries@);
    let mut out = SettingsMap::new();
    let n = entries.len();
    let mut i: usize = 0;
    assert(all.take(0) =~= Seq::empty());
    while i < n
        invariant
            n == entries.len(),
            all == pair_texts(entries@),
            i <= n,
            out.wf(),
            out@ == entries_map(all.take(i as int)),
        decreases n - i,
    {
        let ghost step = all.take(i + 1);
        assert(step.drop_last() =~= all.take(i as int));
        assert(step.last() == (entries[i as int].0@, entries[i as int].1@));
        out.insert(entries[i].0.clone(), entries[i].1.clone());
        i += 1;
    }
    assert(all.take(n as int) =~= all);
    out
}

pub(crate) fn read_present<'a>(obj: &'a serde_json::Value, key: &str) -> (r: Option<
    &'a serde_json::Value,
>)
    ensures
        optional_value_text(r) == present(value_text(*obj), key@),
{
    match member(obj, key) {
        Some(v) => if is_null(v) {
            None
        } else {
            Some(v)
        },
        None => None,
    }
}

pub(crate) fn read_value_i32(v: &serde_json::Value) -> (r: Option<i32>)
    ensures
        r == text_i32(value_text(*v)),
{
    match as_i64(v) {
        Some(n) => if -2147483648 <= n && n <= 2147483647 {
            Some(n as i32)
        } else {
            None
        },
        None => None,
    }
}

pub(crate) fn read_value_str(v: &serde_json::Value) -> (r: Option<String>)
    ensures
        string_view(r) == json_str(value_text(*v)),
{
    match as_string(v) {
        Some(s) => Some(s.to_owned()),
        None => None,
    }
}

pub(crate) fn read_str(obj: &serde_json::Value, key: &str) -> (r: Option<String>)
    ensures
        string_view(r) == field_str(value_text(*obj), key@),
{
    match member(obj, key) {
        Some(v) => read_value_str(v),
        None => None,
    }
}

pub(crate) fn read_bool(obj: &serde_json::Value, key: &str) -> (r: Option<bool>)
    ensures
        r == field_bool(value_text(*obj), key@),
{
    match member(obj, key) {
        Some(v) => as_bool(v),
        None => None,
    }
}

pub(crate) fn read_i32(obj: &serde_json::Value, key: &str) -> (r: Option<i32>)
    ensures
        r == field_i32(value_text(*obj), key@),
{
    match member(obj, key) {
        Some(v) => read_value_i32(v),
        None => None,
    }
}

pub(crate) fn read_opt_i32(obj: &serde_json::Value, key: &str) -> (r: Option<Option<i32>>)
    ensures
        r == field_opt_i32(value_text(*obj), key@),
{
    match read_present(obj, key) {
        None => Some(None),
        Some(v) => match read_value_i32(v) {
            Some(n) => Some(Some(n)),
            None => None,
        },
    }
}

pub(crate) fn read_opt_bool(obj: &serde_json::Value, key: &str) -> (r: Option<Option<bool>>)
    ensures
        r == field_opt_bool(value_text(*obj), key@),
{
    match read_present(obj, key) {
        None => Some(None),
        Some(v) => match as_bool(v) {
            Some(b) => Some(Some(b)),
            None => None,
        },
    }
}

pub(crate) fn read_opt_str(obj: &serde_json::Value, key: &str) -> (r: Option<Option<String>>)
    ensures
        optional_string_view(r) == field_opt_str(value_text(*obj), key@),
{
    match read_present(obj, key) {
        None => Some(None),
        Some(v) => match read_value_str(v) {
            Some(s) => Some(Some(s)),
            None => None,
        },
    }
}

pub(crate) fn read_value_coordinates(v: &serde_json::Value) -> (r: Option<PayloadCoordinates>)
    ensures
        r == text_coordinates(value_text(*v)),
{
    match read_i32(v, "column") {
        Some(column) => match read_i32(v, "row") {
            Some(row) => Some(PayloadCoordinates { column, row }),
            None => None,
        },
        None => None,
    }
}

pub(crate) fn read_opt_coordinates(obj: &serde_json::Value, key: &str) -> (r: Option<
    Option<PayloadCoordinates>,
>)
    ensures
        r == field_opt_coordinates(value_text(*obj), key@),
{
    match read_present(obj, key) {
        None => Some(None),
        Some(v) => match read_value_coordinates(v) {
            Some(c) => Some(Some(c)),
            None => None,
        },
    }
}

pub(crate) fn read_value_settings(v: &serde_json::Value) -> (r: Option<SettingsMap>)
    ensures
        settings_view(r) == value_settings(value_text(*v)),
        r.is_some() ==> r.unwrap().wf(),
{
    match entries(v) {
        Some(e) => Some(settings_from_entries(&e)),
        None => None,
    }
}

/// Reads a settings blob from the JSON text of an object: each member
/// becomes a key with the compact JSON text of its value. Nothing where
/// the text holds no object.
pub fn parse_settings(text: &str) -> (r: Option<SettingsMap>)
    ensures
        settings_view(r) == text_settings(text@),
        r.is_some() ==> r.unwrap().wf(),
{
    match parse(text) {
        Some(v) => read_value_settings(&v),
        None => None,
    }
}

pub(crate) fn read_settings(obj: &serde_json::Value, key: &str) -> (r: Option<SettingsMap>)
    ensures
        settings_view(r) == field_settings(value_text(*obj), key@),
        r.is_some() ==> r.unwrap().wf(),
{
    match member(obj, key) {
        Some(v) => read_value_settings(v),
        None => None,
    }
}

} // verus!
