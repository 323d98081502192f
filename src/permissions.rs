//! The local settings document's permission lists: the rule that lets the
//! host application run this tool is added to `permissions.allow` once, and
//! the sibling `deny` and `ask` lists are made to exist.
use crate::errors::AppError;
use crate::json::{
    array_items, array_value, into_array, into_object, json_array, json_entries, json_object,
    json_string, map_contains, map_insert, map_remove, new_object_map, object_entries,
    object_value, parsed_json, str_of, string_value, value_as_str,
};
use crate::settings::{parse_document, render_document, rewrite_outcome, text_opt};
use serde_json::Value;
use vstd::prelude::*;

verus! {

/// The rule that allows the host application to run this tool.
pub const BASH_PERMISSION_RULE: &'static str = "Bash(ccswitcher:*)";

pub const PERMISSIONS_KEY: &'static str = "permissions";

pub const ALLOW_KEY: &'static str = "allow";

pub const DENY_KEY: &'static str = "deny";

pub const ASK_KEY: &'static str = "ask";

/// Whether one of the items is the string `rule`.
pub open spec fn has_rule(items: Seq<Value>, rule: Seq<char>) -> bool {
    exists|i: int| 0 <= i < items.len() && str_of_is(#[trigger] items[i], rule)
}

pub open spec fn str_of_is(v: Value, rule: Seq<char>) -> bool {
    str_of(v) == Some(rule)
}

/// The items with the rule appended, unless one of them already is the rule.
pub open spec fn with_rule(items: Seq<Value>, rule: Seq<char>) -> Seq<Value> {
    if has_rule(items, rule) {
        items
    } else {
        items.push(json_string(rule))
    }
}

/// The object with an empty array under the key, unless the key is there.
pub open spec fn or_empty_array(m: Map<Seq<char>, Value>, key: Seq<char>) -> Map<Seq<char>, Value> {
    if m.contains_key(key) {
        m
    } else {
        m.insert(key, json_array(Seq::empty()))
    }
}

/// The entries of the object under the key, those of an empty object where
/// the key is absent, `None` where the value there is no object.
pub open spec fn object_at(m: Map<Seq<char>, Value>, key: Seq<char>) -> Option<Map<Seq<char>, Value>> {
    if m.contains_key(key) {
        object_entries(m[key])
    } else {
        Some(Map::empty())
    }
}

/// The items of the array under the key, none where the key is absent,
/// `None` where the value there is no array.
pub open spec fn array_at(m: Map<Seq<char>, Value>, key: Seq<char>) -> Option<Seq<Value>> {
    if m.contains_key(key) {
        array_items(m[key])
    } else {
        Some(Seq::empty())
    }
}

/// The document with the rule in its allow list, or `None` where the root,
/// its `permissions` entry or the `allow` list in it has the wrong kind.
pub open spec fn rule_added(root: Value, rule: Seq<char>) -> Option<Value> {
    match object_entries(root) {
        None => None,
        Some(r) => match object_at(r, PERMISSIONS_KEY@) {
            None => None,
            Some(p) => match array_at(p, ALLOW_KEY@) {
                None => None,
                Some(a) => {
                    let p2 = p.insert(ALLOW_KEY@, json_array(with_rule(a, rule)));
                    let p3 = or_empty_array(or_empty_array(p2, DENY_KEY@), ASK_KEY@);
                    Some(json_object(r.insert(PERMISSIONS_KEY@, json_object(p3))))
                },
            },
        },
    }
}

/// The document that stands in for a local settings file that does not
/// exist yet: an empty object.
pub open spec fn empty_document() -> Value {
    json_object(Map::empty())
}

/// Whether one of the items is the string `rule`.
fn contains_rule(items: &Vec<Value>, rule: &str) -> (r: bool)
    ensures
        r == has_rule(items@, rule@),
{
    let wanted = rule.to_owned();
    let mut i: usize = 0;
    while i < items.len()
        invariant
            i <= items@.len(),
            wanted@ == rule@,
            forall|j: int| 0 <= j < i ==> !str_of_is(#[trigger] items@[j], rule@),
        decreases items@.len() - i,
    {
        match value_as_str(&items[i]) {
            Some(s) => {
                if s.to_owned() == wanted {
                    return true;
                }
            },
            None => {},
        }
        i = i + 1;
    }
    false
}

/// Puts an empty array under the key where the object has nothing there.
fn ensure_empty_array(m: &mut serde_json::Map<String, Value>, key: &str)
    ensures
        json_entries(*final(m)) == or_empty_array(json_entries(*old(m)), key@),
{
    if !map_contains(m, key) {
        map_insert(m, key.to_owned(), array_value(Vec::new()));
    }
}

/// Adds the rule to the allow list of a parsed document.
pub fn add_permission_rule(root: Value, rule: &str, path: &str) -> (r: Result<Value, AppError>)
    ensures
        match rule_added(root, rule@) {
            Some(v) => r == Ok::<Value, AppError>(v),
            None => r matches Err(AppError::InvalidJsonRoot { path: p }) && p@ == path@,
        },
{
    let mut root_obj = match into_object(root) {
        Ok(m) => m,
        Err(_) => return Err(AppError::invalid_json_root(path)),
    };
    let ghost r0 = json_entries(root_obj);
    let mut permissions = match map_remove(&mut root_obj, PERMISSIONS_KEY) {
        None => new_object_map(),
        Some(v) => match into_object(v) {
            Ok(m) => m,
            Err(_) => return Err(AppError::invalid_json_root(path)),
        },
    };
    let ghost p0 = json_entries(permissions);
    let mut allow = match map_remove(&mut permissions, ALLOW_KEY) {
        None => Vec::new(),
        Some(v) => match into_array(v) {
            Ok(items) => items,
            Err(_) => return Err(AppError::invalid_json_root(path)),
        },
    };
    let ghost a0 = allow@;
    if !contains_rule(&allow, rule) {
        allow.push(string_value(rule.to_owned()));
    }
    assert(allow@ == with_rule(a0, rule@));
    map_insert(&mut permissions, ALLOW_KEY.to_owned(), array_value(allow));
    assert(json_entries(permissions) =~= p0.insert(ALLOW_KEY@, json_array(with_rule(a0, rule@))));
    ensure_empty_array(&mut permissions, DENY_KEY);
    ensure_empty_array(&mut permissions, ASK_KEY);
    let ghost p3 = json_entries(permissions);
    map_insert(&mut root_obj, PERMISSIONS_KEY.to_owned(), object_value(permissions));
    assert(json_entries(root_obj) =~= r0.insert(PERMISSIONS_KEY@, json_object(p3)));
    Ok(object_value(root_obj))
}

/// The new text of the local settings file once the rule that lets the host
/// application run this tool is allowed, from the file's current text
/// (`None` where it does not exist; an empty object stands in for it).
pub fn ensure_bash_permission_rule(local_text: Option<&str>, local_path: &str) -> (r: Result<
    String,
    AppError,
>)
    ensures
        ({
            let source = match text_opt(local_text) {
                None => Some(empty_document()),
                Some(t) => parsed_json(t),
            };
            rewrite_outcome(
                local_path@,
                source,
                match source {
                    Some(root) => rule_added(root, BASH_PERMISSION_RULE@),
                    None => None,
                },
                r,
            )
        }),
{
    let root = match local_text {
        Some(t) => parse_document(t, local_path)?,
        None => object_value(new_object_map()),
    };
    let updated = add_permission_rule(root, BASH_PERMISSION_RULE, local_path)?;
    render_document(&updated, local_path)
}

} // verus!
