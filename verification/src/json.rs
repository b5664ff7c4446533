use vstd::prelude::*;

use crate::config::ConfigUpdate;

verus! {

/// serde_json's dynamically typed JSON value, carried through unopened.
#[verifier::external_type_specification]
#[verifier::external_body]
pub struct ExSerdeJsonValue(serde_json::Value);

/// A JSON value: serde_json's `Value`, variant for variant, with a number kept
/// as its JSON text and an object as its members in the order serde_json's map
/// holds them.
pub enum JsonValue {
    Null,
    Bool(bool),
    Number(String),
    Text(String),
    Array(Vec<JsonValue>),
    Object(Vec<(String, JsonValue)>),
}

/// The value that serde_json parses from `text`
/// (`serde_json::from_str::<serde_json::Value>`); `None` when the text is not JSON.
pub uninterp spec fn serde_document(text: Seq<char>) -> Option<serde_json::Value>;

/// The library's form of a serde_json value, as `from_serde` builds it.
pub uninterp spec fn library_form(value: serde_json::Value) -> JsonValue;

/// Converts serde_json's value into the library's, variant for variant:
/// `Number` by `Number::to_string`, arrays element by element, objects by
/// `Map::into_iter` (the map's order). The contract claims that the result is
/// the named `library_form(value)`, which depends on `value` alone.
#[verifier::external_body]
fn from_serde(value: serde_json::Value) -> (r: JsonValue)
    ensures
        r == library_form(value),
{
    match value {
        serde_json::Value::Null => JsonValue::Null,
        serde_json::Value::Bool(b) => JsonValue::Bool(b),
        serde_json::Value::Number(n) => JsonValue::Number(n.to_string()),
        serde_json::Value::String(s) => JsonValue::Text(s),
        serde_json::Value::Array(a) => JsonValue::Array(a.into_iter().map(from_serde).collect()),
        serde_json::Value::Object(m) => JsonValue::Object(
            m.into_iter().map(|(k, v)| (k, from_serde(v))).collect(),
        ),
    }
}

/// Calls `serde_json::from_str::<serde_json::Value>(text)`. The contract
/// claims that the result is the named `serde_document(text)`, which depends on
/// `text` alone.
#[verifier::external_body]
fn parse_serde(text: &str) -> (r: Option<serde_json::Value>)
    ensures
        r == serde_document(text@),
{
    serde_json::from_str::<serde_json::Value>(text).ok()
}

/// The JSON document in `text`, in the library's form.
pub open spec fn json_document(text: Seq<char>) -> Option<JsonValue> {
    match serde_document(text) {
        Some(v) => Some(library_form(v)),
        None => None,
    }
}

/// The value of the member `key` among `members`: the first member with that
/// key (a serde_json map holds each key once).
pub open spec fn member(members: Seq<(String, JsonValue)>, key: Seq<char>) -> Option<JsonValue>
    decreases members.len(),
{
    if members.len() == 0 {
        None
    } else if members[0].0@ == key {
        Some(members[0].1)
    } else {
        member(members.drop_first(), key)
    }
}

/// `Value::get(key)`: the member `key` of an object, `None` for anything else.
pub open spec fn get(v: JsonValue, key: Seq<char>) -> Option<JsonValue> {
    match v {
        JsonValue::Object(members) => member(members@, key),
        _ => None,
    }
}

/// `Option::and_then(Value::as_str)`: the text of a string value.
pub open spec fn as_text(v: Option<JsonValue>) -> Option<String> {
    match v {
        Some(JsonValue::Text(s)) => Some(s),
        _ => None,
    }
}

/// The member `key` of `v` when `v` is an object.
pub fn get_member<'a>(v: &'a JsonValue, key: &str) -> (r: Option<&'a JsonValue>)
    ensures
        match get(*v, key@) {
            Some(m) => r matches Some(x) && *x == m,
            None => r is None,
        },
{
    match v {
        JsonValue::Object(members) => {
            assert(get(*v, key@) == member(members@, key@));
            let mut i: usize = 0;
            assert(members@.skip(0) =~= members@);
            while i < members.len()
                invariant
                    i <= members.len(),
                    get(*v, key@) == member(members@, key@),
                    member(members@, key@) == member(members@.skip(i as int), key@),
                decreases members.len() - i,
            {
                let ghost rest = members@.skip(i as int);
                assert(rest[0] == members@[i as int]);
                if crate::text::same_text(members[i].0.as_str(), key) {
                    assert(rest.len() > 0 && rest[0].0@ == key@);
                    assert(member(rest, key@) == Some(rest[0].1));
                    return Some(&members[i].1);
                }
                assert(rest.drop_first() =~= members@.skip(i + 1));
                i = i + 1;
            }
            None
        },
        _ => None,
    }
}

/// The text of `v` when it is a string.
pub fn text_of(v: Option<&JsonValue>) -> (r: Option<String>)
    ensures
        r == as_text(
            match v {
                Some(x) => Some(*x),
                None => None,
            },
        ),
{
    match v {
        Some(JsonValue::Text(s)) => Some(s.clone()),
        _ => None,
    }
}

// ---------------------------------------------------------------------
// obsidian.json
// ---------------------------------------------------------------------

/// The first of `paths` that is present.
pub open spec fn first_present(paths: Seq<Option<String>>) -> Option<String>
    decreases paths.len(),
{
    if paths.len() == 0 {
        None
    } else if paths[0] is Some {
        paths[0]
    } else {
        first_present(paths.drop_first())
    }
}

/// The `path` strings of the vaults that the `vaults` object of Obsidian's
/// settings lists, in order; `None` when there is no such object.
pub open spec fn vault_entries(doc: JsonValue) -> Option<Seq<Option<String>>> {
    match get(doc, "vaults"@) {
        Some(JsonValue::Object(vaults)) => Some(
            vaults@.map_values(|m: (String, JsonValue)| as_text(get(m.1, "path"@))),
        ),
        _ => None,
    }
}

/// The vault offered by default: the path of the first vault that has one.
pub open spec fn default_vault(doc: Option<JsonValue>) -> Option<String> {
    match doc {
        Some(d) => match vault_entries(d) {
            Some(paths) => first_present(paths),
            None => None,
        },
        None => None,
    }
}

/// The path of the first vault in Obsidian's settings `doc` that has one.
pub fn vault_from_document(doc: &JsonValue) -> (r: Option<String>)
    ensures
        r == default_vault(Some(*doc)),
{
    let vaults = match get_member(doc, "vaults") {
        Some(JsonValue::Object(vaults)) => vaults,
        _ => {
            return None;
        },
    };
    let ghost paths = vaults@.map_values(|m: (String, JsonValue)| as_text(get(m.1, "path"@)));
    assert(vault_entries(*doc) == Some(paths));
    let mut i: usize = 0;
    assert(paths.skip(0) =~= paths);
    while i < vaults.len()
        invariant
            i <= vaults.len(),
            vault_entries(*doc) == Some(paths),
            paths == vaults@.map_values(|m: (String, JsonValue)| as_text(get(m.1, "path"@))),
            first_present(paths) == first_present(paths.skip(i as int)),
        decreases vaults.len() - i,
    {
        let ghost rest = paths.skip(i as int);
        assert(rest[0] == as_text(get(vaults@[i as int].1, "path"@)));
        let path = text_of(get_member(&vaults[i].1, "path"));
        if path.is_some() {
            assert(rest.len() > 0);
            assert(first_present(rest) == rest[0]);
            return path;
        }
        assert(rest.drop_first() =~= paths.skip(i + 1));
        i = i + 1;
    }
    assert(paths.skip(i as int).len() == 0);
    None
}

/// The vault offered by default, read from the text of Obsidian's
/// `obsidian.json`; `None` when the text is not JSON or lists no vault path.
pub fn vault_from_obsidian_json(text: &str) -> (r: Option<String>)
    ensures
        r == default_vault(json_document(text@)),
{
    match parse_serde(text) {
        Some(value) => {
            let doc = from_serde(value);
            vault_from_document(&doc)
        },
        None => None,
    }
}

// ---------------------------------------------------------------------
// set_config values
// ---------------------------------------------------------------------

/// The update that the `values` of a `set_config` request give: each setting
/// that `values` holds as a string.
pub open spec fn update_from_document(values: JsonValue) -> ConfigUpdate {
    ConfigUpdate {
        vault_path: as_text(get(values, "vault_path"@)),
        daily_notes_folder: as_text(get(values, "daily_notes_folder"@)),
        daily_notes_format: as_text(get(values, "daily_notes_format"@)),
        inbox_note: as_text(get(values, "inbox_note"@)),
        append_template: as_text(get(values, "append_template"@)),
    }
}

/// The update that the `values` of a `set_config` request give.
pub fn config_update_from_document(values: &JsonValue) -> (r: ConfigUpdate)
    ensures
        r == update_from_document(*values),
{
    ConfigUpdate {
        vault_path: text_of(get_member(values, "vault_path")),
        daily_notes_folder: text_of(get_member(values, "daily_notes_folder")),
        daily_notes_format: text_of(get_member(values, "daily_notes_format")),
        inbox_note: text_of(get_member(values, "inbox_note")),
        append_template: text_of(get_member(values, "append_template")),
    }
}

/// The update that the serde_json `values` of a `set_config` request give.
pub fn config_update_from_value(values: serde_json::Value) -> (r: ConfigUpdate)
    ensures
        r == update_from_document(library_form(values)),
{
    let doc = from_serde(values);
    config_update_from_document(&doc)
}

} // verus!
