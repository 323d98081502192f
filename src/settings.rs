//! Patching the host application's settings document: the `env` object of its
//! root receives the overrides of a preset, or loses all of them on a reset.
//! Every other part of the document is carried through untouched.
use crate::config::{opt_text, Preset};
use crate::errors::AppError;
use crate::json::{
    into_object, json_entries, json_object, json_string, map_insert, map_remove, new_object_map,
    object_entries, object_value, parse_value, parsed_json, pretty_json, render_value, string_value,
};
use serde_json::{Map as JsonMap, Value};
use vstd::prelude::*;

verus! {

/// The key of the root object under which the environment overrides live.
pub const ENV_KEY: &'static str = "env";

pub const HAIKU_MODEL_KEY: &'static str = "ANTHROPIC_DEFAULT_HAIKU_MODEL";

pub const SONNET_MODEL_KEY: &'static str = "ANTHROPIC_DEFAULT_SONNET_MODEL";

pub const OPUS_MODEL_KEY: &'static str = "ANTHROPIC_DEFAULT_OPUS_MODEL";

pub const AUTH_TOKEN_KEY: &'static str = "ANTHROPIC_AUTH_TOKEN";

pub const BASE_URL_KEY: &'static str = "ANTHROPIC_BASE_URL";

pub const HTTP_PROXY_KEY: &'static str = "HTTP_PROXY";

pub const API_TIMEOUT_KEY: &'static str = "API_TIMEOUT_MS";

pub const MCP_TOOL_TIMEOUT_KEY: &'static str = "MCP_TOOL_TIMEOUT";

pub const DISABLE_TRAFFIC_KEY: &'static str = "CLAUDE_CODE_DISABLE_NONESSENTIAL_TRAFFIC";

/// The keys of the environment that a preset may set: the whole table.
pub open spec fn override_keys() -> Seq<Seq<char>> {
    seq![
        HAIKU_MODEL_KEY@,
        SONNET_MODEL_KEY@,
        OPUS_MODEL_KEY@,
        AUTH_TOKEN_KEY@,
        BASE_URL_KEY@,
        API_TIMEOUT_KEY@,
        MCP_TOOL_TIMEOUT_KEY@,
        DISABLE_TRAFFIC_KEY@,
        HTTP_PROXY_KEY@,
    ]
}

/// The proxy URL that the preset sets, if any.
pub open spec fn proxy_of(p: Preset) -> Option<Seq<char>> {
    match p.network {
        Some(n) => opt_text(n.http_proxy),
        None => None,
    }
}

/// The API timeout that the preset sets, if any.
pub open spec fn api_timeout_of(p: Preset) -> Option<Seq<char>> {
    match p.timeouts {
        Some(t) => opt_text(t.api_timeout_ms),
        None => None,
    }
}

/// The MCP tool timeout that the preset sets, if any.
pub open spec fn mcp_timeout_of(p: Preset) -> Option<Seq<char>> {
    match p.timeouts {
        Some(t) => opt_text(t.mcp_tool_timeout),
        None => None,
    }
}

/// The nonessential-traffic flag that the preset sets, if any.
pub open spec fn traffic_flag_of(p: Preset) -> Option<Seq<char>> {
    match p.flags {
        Some(f) => opt_text(f.disable_nonessential_traffic),
        None => None,
    }
}

/// The key set to the text as a JSON string, or removed where there is none.
pub open spec fn set_or_clear(env: Map<Seq<char>, Value>, key: Seq<char>, v: Option<Seq<char>>) -> Map<
    Seq<char>,
    Value,
> {
    match v {
        Some(s) => env.insert(key, json_string(s)),
        None => env.remove(key),
    }
}

/// The environment after the preset is applied: the five required keys take
/// the preset's values, each optional key takes its value or is removed.
pub open spec fn applied_env(env: Map<Seq<char>, Value>, p: Preset) -> Map<Seq<char>, Value> {
    let e = env.insert(HAIKU_MODEL_KEY@, json_string(p.models.haiku_model@)).insert(
        SONNET_MODEL_KEY@,
        json_string(p.models.sonnet_model@),
    ).insert(OPUS_MODEL_KEY@, json_string(p.models.opus_model@)).insert(
        AUTH_TOKEN_KEY@,
        json_string(p.auth_token@),
    ).insert(BASE_URL_KEY@, json_string(p.base_url@));
    let e = set_or_clear(e, HTTP_PROXY_KEY@, proxy_of(p));
    let e = set_or_clear(e, API_TIMEOUT_KEY@, api_timeout_of(p));
    let e = set_or_clear(e, MCP_TOOL_TIMEOUT_KEY@, mcp_timeout_of(p));
    set_or_clear(e, DISABLE_TRAFFIC_KEY@, traffic_flag_of(p))
}

/// The environment without any of the keys that a preset may set.
pub open spec fn cleared_env(env: Map<Seq<char>, Value>) -> Map<Seq<char>, Value> {
    env.remove(HAIKU_MODEL_KEY@).remove(SONNET_MODEL_KEY@).remove(OPUS_MODEL_KEY@).remove(
        AUTH_TOKEN_KEY@,
    ).remove(BASE_URL_KEY@).remove(API_TIMEOUT_KEY@).remove(MCP_TOOL_TIMEOUT_KEY@).remove(
        DISABLE_TRAFFIC_KEY@,
    ).remove(HTTP_PROXY_KEY@)
}

/// The environment object of a root object: its `env` entry, an empty one
/// where there is none, and `None` where that entry is no object.
pub open spec fn env_of(root: Map<Seq<char>, Value>) -> Option<Map<Seq<char>, Value>> {
    if root.contains_key(ENV_KEY@) {
        object_entries(root[ENV_KEY@])
    } else {
        Some(Map::empty())
    }
}

/// The root object with its `env` entry replaced by an object of the entries.
pub open spec fn with_env(root: Map<Seq<char>, Value>, env: Map<Seq<char>, Value>) -> Value {
    json_object(root.insert(ENV_KEY@, json_object(env)))
}

/// The document after the preset is applied, or `None` where the root or its
/// `env` entry is no object.
pub open spec fn applied_root(root: Value, p: Preset) -> Option<Value> {
    match object_entries(root) {
        None => None,
        Some(r) => match env_of(r) {
            None => None,
            Some(e) => Some(with_env(r, applied_env(e, p))),
        },
    }
}

/// The document after a reset, or `None` where the root or its `env` entry is
/// no object.
pub open spec fn reset_root(root: Value) -> Option<Value> {
    match object_entries(root) {
        None => None,
        Some(r) => match env_of(r) {
            None => None,
            Some(e) => Some(with_env(r, cleared_env(e))),
        },
    }
}

/// The document that stands in for a settings file that does not exist yet:
/// an object that holds an empty `env` object.
pub open spec fn default_settings_root() -> Value {
    json_object(Map::empty().insert(ENV_KEY@, json_object(Map::empty())))
}

pub open spec fn text_opt(t: Option<&str>) -> Option<Seq<char>> {
    match t {
        Some(s) => Some(s@),
        None => None,
    }
}

/// The document that a settings text stands for: the default where there is
/// no file, the parsed text otherwise, `None` where it is no JSON.
pub open spec fn settings_source(text: Option<Seq<char>>) -> Option<Value> {
    match text {
        None => Some(default_settings_root()),
        Some(t) => parsed_json(t),
    }
}

/// Whether `r` is the outcome owed when a document read as `source` is
/// changed into `updated` and written out for the file at `path`.
pub open spec fn rewrite_outcome(
    path: Seq<char>,
    source: Option<Value>,
    updated: Option<Value>,
    r: Result<String, AppError>,
) -> bool {
    match source {
        None => r matches Err(AppError::Json { path: p, .. }) && p@ == path,
        Some(_) => match updated {
            None => r matches Err(AppError::InvalidJsonRoot { path: p }) && p@ == path,
            Some(v) => match pretty_json(v) {
                None => r matches Err(AppError::Json { path: p, .. }) && p@ == path,
                Some(t) => r matches Ok(s) && s@ == t,
            },
        },
    }
}

/// Reads a JSON document from its text; a text that is no JSON fails,
/// tagged with the path.
pub fn parse_document(text: &str, path: &str) -> (r: Result<Value, AppError>)
    ensures
        match parsed_json(text@) {
            Some(v) => r == Ok::<Value, AppError>(v),
            None => r matches Err(AppError::Json { path: p, .. }) && p@ == path@,
        },
{
    match parse_value(text) {
        Ok(v) => Ok(v),
        Err(e) => Err(AppError::json(path, e)),
    }
}

/// Writes a document out as indented JSON text; a failure is tagged with the
/// path.
pub fn render_document(root: &Value, path: &str) -> (r: Result<String, AppError>)
    ensures
        match pretty_json(*root) {
            Some(t) => r matches Ok(s) && s@ == t,
            None => r matches Err(AppError::Json { path: p, .. }) && p@ == path@,
        },
{
    match render_value(root) {
        Ok(s) => Ok(s),
        Err(e) => Err(AppError::json(path, e)),
    }
}

/// The settings document: parsed from the text of the file, or the default
/// where the file does not exist.
pub fn load_settings_root(text: Option<&str>, path: &str) -> (r: Result<Value, AppError>)
    ensures
        match settings_source(text_opt(text)) {
            Some(v) => r == Ok::<Value, AppError>(v),
            None => r matches Err(AppError::Json { path: p, .. }) && p@ == path@,
        },
{
    match text {
        Some(t) => parse_document(t, path),
        None => {
            let mut root = new_object_map();
            let env = new_object_map();
            map_insert(&mut root, ENV_KEY.to_owned(), object_value(env));
            Ok(object_value(root))
        },
    }
}

/// Splits the root of the document into the root object without its `env`
/// entry and the `env` object itself (empty where there was none). Fails
/// where the root or an existing `env` entry is no object.
pub fn ensure_env_map(root: Value, path: &str) -> (r: Result<
    (JsonMap<String, Value>, JsonMap<String, Value>),
    AppError,
>)
    ensures
        match object_entries(root) {
            None => r matches Err(AppError::InvalidJsonRoot { path: p }) && p@ == path@,
            Some(rm) => match env_of(rm) {
                None => r matches Err(AppError::InvalidJsonRoot { path: p }) && p@ == path@,
                Some(e) => r matches Ok((m, env)) && json_entries(m) == rm.remove(ENV_KEY@)
                    && json_entries(env) == e,
            },
        },
{
    let mut root_obj = match into_object(root) {
        Ok(m) => m,
        Err(_) => return Err(AppError::invalid_json_root(path)),
    };
    match map_remove(&mut root_obj, ENV_KEY) {
        None => Ok((root_obj, new_object_map())),
        Some(v) => match into_object(v) {
            Ok(env) => Ok((root_obj, env)),
            Err(_) => Err(AppError::invalid_json_root(path)),
        },
    }
}

/// Puts the `env` object back under its key and closes the root object.
fn rejoin_env(root_obj: JsonMap<String, Value>, env: JsonMap<String, Value>) -> (r: Value)
    ensures
        r == json_object(json_entries(root_obj).insert(ENV_KEY@, json_object(json_entries(env)))),
{
    let mut root_obj = root_obj;
    map_insert(&mut root_obj, ENV_KEY.to_owned(), object_value(env));
    object_value(root_obj)
}

/// Sets the key to the text as a JSON string, or removes it where there is
/// no text.
pub fn set_env(env: &mut JsonMap<String, Value>, key: &str, value: Option<&String>)
    ensures
        json_entries(*final(env)) == set_or_clear(
            json_entries(*old(env)),
            key@,
            match value {
                Some(s) => Some(s@),
                None => None,
            },
        ),
{
    match value {
        Some(v) => {
            map_insert(env, key.to_owned(), string_value(v.clone()));
        },
        None => {
            map_remove(env, key);
        },
    }
}

fn some_text(o: &Option<String>) -> (r: Option<&String>)
    ensures
        match r {
            Some(s) => opt_text(*o) == Some(s@),
            None => opt_text(*o) is None,
        },
{
    match o {
        Some(s) => Some(s),
        None => None,
    }
}

/// Writes the nine overrides of the preset into the environment object.
pub fn apply_env_overrides(env: &mut JsonMap<String, Value>, preset: &Preset)
    ensures
        json_entries(*final(env)) == applied_env(json_entries(*old(env)), *preset),
{
    set_env(env, HAIKU_MODEL_KEY, Some(&preset.models.haiku_model));
    set_env(env, SONNET_MODEL_KEY, Some(&preset.models.sonnet_model));
    set_env(env, OPUS_MODEL_KEY, Some(&preset.models.opus_model));
    set_env(env, AUTH_TOKEN_KEY, Some(&preset.auth_token));
    set_env(env, BASE_URL_KEY, Some(&preset.base_url));
    let proxy = match &preset.network {
        Some(network) => some_text(&network.http_proxy),
        None => None,
    };
    set_env(env, HTTP_PROXY_KEY, proxy);
    let api_timeout = match &preset.timeouts {
        Some(timeouts) => some_text(&timeouts.api_timeout_ms),
        None => None,
    };
    set_env(env, API_TIMEOUT_KEY, api_timeout);
    let mcp_timeout = match &preset.timeouts {
        Some(timeouts) => some_text(&timeouts.mcp_tool_timeout),
        None => None,
    };
    set_env(env, MCP_TOOL_TIMEOUT_KEY, mcp_timeout);
    let traffic = match &preset.flags {
        Some(flags) => some_text(&flags.disable_nonessential_traffic),
        None => None,
    };
    set_env(env, DISABLE_TRAFFIC_KEY, traffic);
}

/// Removes every key that a preset may set from the environment object.
pub fn clear_env_overrides(env: &mut JsonMap<String, Value>)
    ensures
        json_entries(*final(env)) == cleared_env(json_entries(*old(env))),
{
    map_remove(env, HAIKU_MODEL_KEY);
    map_remove(env, SONNET_MODEL_KEY);
    map_remove(env, OPUS_MODEL_KEY);
    map_remove(env, AUTH_TOKEN_KEY);
    map_remove(env, BASE_URL_KEY);
    map_remove(env, API_TIMEOUT_KEY);
    map_remove(env, MCP_TOOL_TIMEOUT_KEY);
    map_remove(env, DISABLE_TRAFFIC_KEY);
    map_remove(env, HTTP_PROXY_KEY);
}

/// Applies the preset to a parsed settings document.
pub fn apply_preset_to_root(root: Value, preset: &Preset, path: &str) -> (r: Result<Value, AppError>)
    ensures
        match applied_root(root, *preset) {
            Some(v) => r == Ok::<Value, AppError>(v),
            None => r matches Err(AppError::InvalidJsonRoot { path: p }) && p@ == path@,
        },
{
    let ghost rm = object_entries(root)->Some_0;
    let (root_obj, mut env) = ensure_env_map(root, path)?;
    apply_env_overrides(&mut env, preset);
    proof {
        assert(rm.remove(ENV_KEY@).insert(ENV_KEY@, json_object(json_entries(env))) =~= rm.insert(
            ENV_KEY@,
            json_object(json_entries(env)),
        ));
    }
    Ok(rejoin_env(root_obj, env))
}

/// Removes every override from a parsed settings document.
pub fn reset_root_overrides(root: Value, path: &str) -> (r: Result<Value, AppError>)
    ensures
        match reset_root(root) {
            Some(v) => r == Ok::<Value, AppError>(v),
            None => r matches Err(AppError::InvalidJsonRoot { path: p }) && p@ == path@,
        },
{
    let ghost rm = object_entries(root)->Some_0;
    let (root_obj, mut env) = ensure_env_map(root, path)?;
    clear_env_overrides(&mut env);
    proof {
        assert(rm.remove(ENV_KEY@).insert(ENV_KEY@, json_object(json_entries(env))) =~= rm.insert(
            ENV_KEY@,
            json_object(json_entries(env)),
        ));
    }
    Ok(rejoin_env(root_obj, env))
}

/// The new text of the settings file once the preset is applied, from the
/// file's current text (`None` where it does not exist).
pub fn apply_preset(settings_text: Option<&str>, settings_path: &str, preset: &Preset) -> (r: Result<
    String,
    AppError,
>)
    ensures
        rewrite_outcome(
            settings_path@,
            settings_source(text_opt(settings_text)),
            match settings_source(text_opt(settings_text)) {
                Some(root) => applied_root(root, *preset),
                None => None,
            },
            r,
        ),
{
    let root = load_settings_root(settings_text, settings_path)?;
    let patched = apply_preset_to_root(root, preset, settings_path)?;
    render_document(&patched, settings_path)
}

/// The new text of the settings file once every override is removed, from
/// the file's current text (`None` where it does not exist).
pub fn reset_to_official(settings_text: Option<&str>, settings_path: &str) -> (r: Result<
    String,
    AppError,
>)
    ensures
        rewrite_outcome(
            settings_path@,
            settings_source(text_opt(settings_text)),
            match settings_source(text_opt(settings_text)) {
                Some(root) => reset_root(root),
                None => None,
            },
            r,
        ),
{
    let root = load_settings_root(settings_text, settings_path)?;
    let cleared = reset_root_overrides(root, settings_path)?;
    render_document(&cleared, settings_path)
}

/// The keys of the table are ten distinct texts, `env` among them.
pub proof fn lemma_keys_distinct()
    ensures
        override_keys().no_duplicates(),
        !override_keys().contains(ENV_KEY@),
{
    reveal_strlit("env");
    reveal_strlit("ANTHROPIC_DEFAULT_HAIKU_MODEL");
    reveal_strlit("ANTHROPIC_DEFAULT_SONNET_MODEL");
    reveal_strlit("ANTHROPIC_DEFAULT_OPUS_MODEL");
    reveal_strlit("ANTHROPIC_AUTH_TOKEN");
    reveal_strlit("ANTHROPIC_BASE_URL");
    reveal_strlit("HTTP_PROXY");
    reveal_strlit("API_TIMEOUT_MS");
    reveal_strlit("MCP_TOOL_TIMEOUT");
    reveal_strlit("CLAUDE_CODE_DISABLE_NONESSENTIAL_TRAFFIC");
    let k = override_keys();
    assert forall|i: int, j: int| 0 <= i < k.len() && 0 <= j < k.len() && i != j implies k[i]
        != k[j] by {
        assert(k[i].len() != k[j].len());
    }
    assert forall|i: int| 0 <= i < k.len() implies k[i] != ENV_KEY@ by {
        assert(k[i].len() != ENV_KEY@.len());
    }
}

/// Whether the key holds the text as a JSON string where there is one, and
/// is absent where there is none.
pub open spec fn holds_or_absent(env: Map<Seq<char>, Value>, key: Seq<char>, v: Option<Seq<char>>) -> bool {
    match v {
        Some(s) => env.contains_key(key) && env[key] == json_string(s),
        None => !env.contains_key(key),
    }
}

/// Whether the two environments agree on every key outside the table.
pub open spec fn same_outside_table(a: Map<Seq<char>, Value>, b: Map<Seq<char>, Value>) -> bool {
    forall|k: Seq<char>|
        !override_keys().contains(k) ==> (#[trigger] a.contains_key(k) == b.contains_key(k) && (
        a.contains_key(k) ==> a[k] == b[k]))
}

/// Applying a preset sets each key of the table from the preset's field:
/// the five required ones always, each optional one where the preset gives
/// a value, and removes an optional key where it gives none. Every key outside
/// the table keeps its value.
pub proof fn lemma_apply_sets_table(env: Map<Seq<char>, Value>, p: Preset)
    ensures
        holds_or_absent(applied_env(env, p), HAIKU_MODEL_KEY@, Some(p.models.haiku_model@)),
        holds_or_absent(applied_env(env, p), SONNET_MODEL_KEY@, Some(p.models.sonnet_model@)),
        holds_or_absent(applied_env(env, p), OPUS_MODEL_KEY@, Some(p.models.opus_model@)),
        holds_or_absent(applied_env(env, p), AUTH_TOKEN_KEY@, Some(p.auth_token@)),
        holds_or_absent(applied_env(env, p), BASE_URL_KEY@, Some(p.base_url@)),
        holds_or_absent(applied_env(env, p), HTTP_PROXY_KEY@, proxy_of(p)),
        holds_or_absent(applied_env(env, p), API_TIMEOUT_KEY@, api_timeout_of(p)),
        holds_or_absent(applied_env(env, p), MCP_TOOL_TIMEOUT_KEY@, mcp_timeout_of(p)),
        holds_or_absent(applied_env(env, p), DISABLE_TRAFFIC_KEY@, traffic_flag_of(p)),
        same_outside_table(applied_env(env, p), env),
{
    lemma_keys_distinct();
    let k = override_keys();
    assert(k[0] != k[1] && k[0] != k[2] && k[0] != k[3] && k[0] != k[4] && k[0] != k[5] && k[0]
        != k[6] && k[0] != k[7] && k[0] != k[8]);
    assert(k[1] != k[2] && k[1] != k[3] && k[1] != k[4] && k[1] != k[5] && k[1] != k[6] && k[1]
        != k[7] && k[1] != k[8]);
    assert(k[2] != k[3] && k[2] != k[4] && k[2] != k[5] && k[2] != k[6] && k[2] != k[7] && k[2]
        != k[8]);
    assert(k[3] != k[4] && k[3] != k[5] && k[3] != k[6] && k[3] != k[7] && k[3] != k[8]);
    assert(k[4] != k[5] && k[4] != k[6] && k[4] != k[7] && k[4] != k[8]);
    assert(k[5] != k[6] && k[5] != k[7] && k[5] != k[8]);
    assert(k[6] != k[7] && k[6] != k[8]);
    assert(k[7] != k[8]);
    assert forall|key: Seq<char>| !override_keys().contains(key) implies (#[trigger] applied_env(
        env,
        p,
    ).contains_key(key) == env.contains_key(key) && (applied_env(env, p).contains_key(key)
        ==> applied_env(env, p)[key] == env[key])) by {
        assert(key != k[0] && key != k[1] && key != k[2] && key != k[3] && key != k[4] && key
            != k[5] && key != k[6] && key != k[7] && key != k[8]);
    }
}

/// Applying one preset after another leaves the environment exactly as
/// applying the second alone would: nothing of the first preset's optional
/// overrides survives where the second gives none.
pub proof fn lemma_apply_replaces_previous(env: Map<Seq<char>, Value>, first: Preset, second: Preset)
    ensures
        applied_env(applied_env(env, first), second) == applied_env(env, second),
{
    lemma_apply_sets_table(applied_env(env, first), second);
    lemma_apply_sets_table(env, second);
    lemma_apply_sets_table(env, first);
    let k = override_keys();
    let a = applied_env(applied_env(env, first), second);
    let b = applied_env(env, second);
    assert forall|key: Seq<char>| #[trigger] a.contains_key(key) == b.contains_key(key) && (
    a.contains_key(key) ==> a[key] == b[key]) by {
        if !k.contains(key) {
            assert(a.contains_key(key) == applied_env(env, first).contains_key(key));
        } else {
            let i = choose|i: int| 0 <= i < k.len() && k[i] == key;
            assert(0 <= i < 9);
        }
    }
    assert(a =~= b);
}

/// A reset leaves none of the keys of the table in the environment and
/// keeps every other key with its value.
pub proof fn lemma_reset_clears_only_table(env: Map<Seq<char>, Value>)
    ensures
        forall|i: int| 0 <= i < override_keys().len() ==> !(#[trigger] cleared_env(env).contains_key(
            override_keys()[i],
        )),
        same_outside_table(cleared_env(env), env),
{
    let k = override_keys();
    assert forall|key: Seq<char>| !override_keys().contains(key) implies (#[trigger] cleared_env(
        env,
    ).contains_key(key) == env.contains_key(key) && (cleared_env(env).contains_key(key)
        ==> cleared_env(env)[key] == env[key])) by {
        assert(key != k[0] && key != k[1] && key != k[2] && key != k[3] && key != k[4] && key
            != k[5] && key != k[6] && key != k[7] && key != k[8]);
    }
}

} // verus!
