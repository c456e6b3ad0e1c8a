//! Per-channel JSON Schema validation: a registry from channel to compiled
//! schema, the strict-mode rewrite applied before compilation, the
//! validation verdict, and the naming rules for schema files.
use vstd::prelude::*;
use std::collections::HashMap;
use serde_json::Value;
use crate::buf::bytes_slice;
use crate::channel::{COMMAND, CONTROL, DATA, ERROR, TELEMETRY};
use crate::codec::Frame;
use crate::error::SchemaError;
use crate::json::{
    array_value, bool_value, clone_value, compile_schema, into_array, into_object, map_contains_key,
    map_get, map_insert, map_keys, map_remove, object_value, parse_json_bytes, parse_json_text,
    validation_messages, value_as_array, value_as_str, CompiledSchema, json_of, json_text_of,
    schema_compiles, compiled_of, schema_messages,
};
use crate::text::{
    ascii_lower, concat_text, parse_u16, same_text, spec_parse_u16, to_ascii_lowercase, usize_text,
};

verus! {

broadcast use vstd::std_specs::hash::group_hash_axioms;

/// Default bound on the schema files loaded from one directory.
pub const DEFAULT_MAX_SCHEMAS: usize = 256;

/// Default bound on the size of one schema file, in bytes.
pub const DEFAULT_MAX_SCHEMA_FILE_SIZE: usize = 262144;

/// The nesting bound that measures the strict-mode rewrite's progress. No
/// value in memory comes near it, so the rewrite reaches every level.
pub const STRICT_MODE_DEPTH: usize = usize::MAX;

/// Controls schema validation behaviour.
#[derive(Debug, Clone, Copy, PartialEq, Eq, Structural)]
pub struct RegistryConfig {
    /// Object schemas reject properties they do not list.
    pub strict_mode: bool,
    /// Channels without a schema fail validation with `NoSchema`.
    pub fail_on_missing_schema: bool,
    /// Most schema files loaded from a directory.
    pub max_schemas_from_directory: usize,
    /// Largest schema file loaded from a directory, in bytes.
    pub max_schema_file_size: usize,
}

impl Default for RegistryConfig {
    fn default() -> (r: RegistryConfig)
        ensures
            !r.strict_mode,
            !r.fail_on_missing_schema,
            r.max_schemas_from_directory == DEFAULT_MAX_SCHEMAS,
            r.max_schema_file_size == DEFAULT_MAX_SCHEMA_FILE_SIZE,
    {
        RegistryConfig {
            strict_mode: false,
            fail_on_missing_schema: false,
            max_schemas_from_directory: DEFAULT_MAX_SCHEMAS,
            max_schema_file_size: DEFAULT_MAX_SCHEMA_FILE_SIZE,
        }
    }
}

/// The first `n` texts joined with `"; "`.
pub open spec fn join_messages(ms: Seq<Seq<char>>, n: nat) -> Seq<char>
    decreases n,
{
    if n == 0 || ms.len() == 0 {
        Seq::<char>::empty()
    } else if n == 1 {
        ms[0]
    } else {
        join_messages(ms, (n - 1) as nat) + "; "@ + ms[n - 1]
    }
}

/// The verdict for a payload whose validation produced `ms`: it passes when
/// there are none, and otherwise fails on `channel` with the first four
/// messages joined by `"; "`.
pub open spec fn validation_result(channel: u16, ms: Seq<Seq<char>>, r: Result<(), SchemaError>) -> bool {
    &&& ms.len() == 0 ==> r is Ok
    &&& ms.len() > 0 ==> (r matches Err(SchemaError::ValidationFailed { channel: c, message })
        && c == channel && message@ == join_messages(
        ms,
        if ms.len() < 4 {
            ms.len()
        } else {
            4
        },
    ))
}

/// Most validation messages kept in one error.
pub const MAX_REPORTED_ERRORS: usize = 4;

/// The verdict on a payload, given the messages of its validation errors: it
/// passes when there are none, and otherwise fails with the first four
/// messages joined by `"; "`.
pub fn validation_outcome(channel: u16, messages: Vec<String>) -> (r: Result<(), SchemaError>)
    ensures
        validation_result(channel, messages@.map_values(|s: String| s@), r),
{
    let ghost ms = messages@.map_values(|s: String| s@);
    let n = if messages.len() < MAX_REPORTED_ERRORS {
        messages.len()
    } else {
        MAX_REPORTED_ERRORS
    };
    if n == 0 {
        return Ok(());
    }
    let mut message = messages[0].clone();
    let mut i: usize = 1;
    while i < n
        invariant
            1 <= i <= n,
            n <= messages@.len(),
            ms == messages@.map_values(|s: String| s@),
            message@ == join_messages(ms, i as nat),
        decreases n - i,
    {
        message.append("; ");
        message.append(messages[i].as_str());
        proof {
            reveal_strlit("; ");
        }
        i = i + 1;
    }
    proof {
        reveal_strlit("; ");
    }
    Err(SchemaError::ValidationFailed { channel, message })
}

fn is_object_keyword_schema(map: &serde_json::Map<String, Value>) -> bool {
    map_contains_key(map, "properties") || map_contains_key(map, "patternProperties")
        || map_contains_key(map, "additionalProperties") || map_contains_key(
        map,
        "unevaluatedProperties",
    ) || map_contains_key(map, "required") || map_contains_key(map, "dependentRequired")
        || map_contains_key(map, "dependentSchemas") || map_contains_key(map, "propertyNames")
}

fn is_object_schema(map: &serde_json::Map<String, Value>) -> bool {
    match map_get(map, "type") {
        Some(kind) => {
            if let Some(text) = value_as_str(kind) {
                same_text(text, "object")
            } else if let Some(items) = value_as_array(kind) {
                let mut i: usize = 0;
                while i < items.len()
                    decreases items.len() - i,
                {
                    if let Some(text) = value_as_str(&items[i]) {
                        if same_text(text, "object") {
                            return true;
                        }
                    }
                    i = i + 1;
                }
                false
            } else {
                is_object_keyword_schema(map)
            }
        },
        None => is_object_keyword_schema(map),
    }
}

/// The strict-mode rewrite of a schema: every object schema without
/// `additionalProperties` gets `additionalProperties: false`, through all
/// subschema keywords, down to `depth` levels (the bound is only the
/// recursion's measure).
fn apply_strict_mode(value: Value, depth: usize) -> Value
    decreases depth, 3usize,
{
    if depth == 0 {
        return value;
    }
    match into_object(value) {
        Ok(map) => {
            let mut map = map;
            if is_object_schema(&map) && !map_contains_key(&map, "additionalProperties") {
                map_insert(&mut map, "additionalProperties".to_owned(), bool_value(false));
            }
            recurse_object_schema_children(&mut map, depth);
            object_value(map)
        },
        Err(other) => match into_array(other) {
            Ok(items) => array_value(strict_items(items, depth)),
            Err(other) => other,
        },
    }
}

fn strict_items(items: Vec<Value>, depth: usize) -> Vec<Value>
    requires
        depth > 0,
    decreases depth, 0usize,
{
    let mut rest = items;
    let mut out: Vec<Value> = Vec::new();
    while rest.len() > 0
        invariant
            depth > 0,
        decreases rest.len(),
    {
        let item = rest.remove(0);
        out.push(apply_strict_mode(item, depth - 1));
    }
    out
}

fn recurse_single_schema(map: &mut serde_json::Map<String, Value>, key: &str, depth: usize)
    requires
        depth > 0,
    decreases depth, 1usize,
{
    if let Some(child) = map_remove(map, key) {
        map_insert(map, key.to_owned(), apply_strict_mode(child, depth - 1));
    }
}

fn recurse_map_schemas(map: &mut serde_json::Map<String, Value>, key: &str, depth: usize)
    requires
        depth > 0,
    decreases depth, 1usize,
{
    if let Some(child) = map_remove(map, key) {
        match into_object(child) {
            Ok(inner) => {
                let mut inner = inner;
                let keys = map_keys(&inner);
                let mut i: usize = 0;
                while i < keys.len()
                    invariant
                        depth > 0,
                    decreases keys.len() - i,
                {
                    let k = keys[i].as_str();
                    if let Some(v) = map_remove(&mut inner, k) {
                        map_insert(&mut inner, k.to_owned(), apply_strict_mode(v, depth - 1));
                    }
                    i = i + 1;
                }
                map_insert(map, key.to_owned(), object_value(inner));
            },
            Err(other) => map_insert(map, key.to_owned(), other),
        }
    }
}

fn recurse_array_schemas(map: &mut serde_json::Map<String, Value>, key: &str, depth: usize)
    requires
        depth > 0,
    decreases depth, 1usize,
{
    if let Some(child) = map_remove(map, key) {
        match into_array(child) {
            Ok(items) => map_insert(map, key.to_owned(), array_value(strict_items(items, depth))),
            Err(other) => map_insert(map, key.to_owned(), other),
        }
    }
}

fn recurse_object_schema_children(map: &mut serde_json::Map<String, Value>, depth: usize)
    requires
        depth > 0,
    decreases depth, 2usize,
{
    recurse_map_schemas(map, "properties", depth);
    recurse_map_schemas(map, "patternProperties", depth);
    recurse_map_schemas(map, "dependentSchemas", depth);
    recurse_map_schemas(map, "$defs", depth);
    recurse_map_schemas(map, "definitions", depth);
    recurse_single_schema(map, "propertyNames", depth);
    recurse_single_schema(map, "additionalProperties", depth);
    recurse_single_schema(map, "unevaluatedProperties", depth);
    recurse_single_schema(map, "items", depth);
    recurse_single_schema(map, "contains", depth);
    recurse_single_schema(map, "additionalItems", depth);
    recurse_single_schema(map, "unevaluatedItems", depth);
    recurse_single_schema(map, "not", depth);
    recurse_single_schema(map, "if", depth);
    recurse_single_schema(map, "then", depth);
    recurse_single_schema(map, "else", depth);
    recurse_array_schemas(map, "prefixItems", depth);
    recurse_array_schemas(map, "allOf", depth);
    recurse_array_schemas(map, "anyOf", depth);
    recurse_array_schemas(map, "oneOf", depth);
}

/// An embedded schema text that is JSON and compiles as a schema.
pub open spec fn embedded_ok(text: Seq<char>) -> bool {
    json_text_of(text) is Some && schema_compiles(json_text_of(text)->0)
}

/// Channel-keyed registry of compiled JSON Schemas.
pub struct SchemaRegistry {
    validators: HashMap<u16, CompiledSchema>,
    config: RegistryConfig,
}

impl SchemaRegistry {
    /// The channels that have a schema.
    pub closed spec fn schema_channels(&self) -> Set<u16> {
        self.validators@.dom()
    }

    /// The registry's configuration.
    pub closed spec fn spec_config(&self) -> RegistryConfig {
        self.config
    }

    /// The compiled schema of a channel that has one.
    pub closed spec fn schema_of(&self, channel: u16) -> CompiledSchema {
        self.validators@[channel]
    }

    /// The verdict of `validate` on `payload` for `channel`.
    pub open spec fn validate_result(&self, channel: u16, payload: Seq<u8>, r: Result<(), SchemaError>) -> bool {
        if !self.schema_channels().contains(channel) {
            if self.spec_config().fail_on_missing_schema {
                r == Err::<(), SchemaError>(SchemaError::NoSchema(channel))
            } else {
                r is Ok
            }
        } else {
            match json_of(payload) {
                None => r matches Err(SchemaError::InvalidJson(_)),
                Some(v) => validation_result(channel, schema_messages(self.schema_of(channel), v), r),
            }
        }
    }

    /// An empty registry with the default configuration.
    pub fn new() -> (r: SchemaRegistry)
        ensures
            r.schema_channels() == Set::<u16>::empty(),
            !r.spec_config().strict_mode,
            !r.spec_config().fail_on_missing_schema,
            r.spec_config().max_schemas_from_directory == DEFAULT_MAX_SCHEMAS,
            r.spec_config().max_schema_file_size == DEFAULT_MAX_SCHEMA_FILE_SIZE,
    {
        Self::with_config(RegistryConfig::default())
    }

    /// An empty registry with `config`.
    pub fn with_config(config: RegistryConfig) -> (r: SchemaRegistry)
        ensures
            r.schema_channels() == Set::<u16>::empty(),
            r.spec_config() == config,
    {
        let r = SchemaRegistry { validators: HashMap::new(), config };
        assert(r.validators@.dom() =~= Set::<u16>::empty());
        r
    }

    /// Registers a schema for `channel` from JSON text, replacing any earlier one.
    pub fn register(&mut self, channel: u16, schema_json: &str) -> (r: Result<(), SchemaError>)
        ensures
            final(self).spec_config() == old(self).spec_config(),
            r is Ok ==> final(self).schema_channels() == old(self).schema_channels().insert(
                channel,
            ),
            r is Err ==> final(self).schema_channels() == old(self).schema_channels(),
            r is Err ==> (r matches Err(SchemaError::InvalidJson(_))) || (r matches Err(
                SchemaError::CompileFailed(_),
            )),
            json_text_of(schema_json@) is None ==> r matches Err(SchemaError::InvalidJson(_)),
            json_text_of(schema_json@) is Some && !old(self).spec_config().strict_mode ==> (r is Ok
                <==> schema_compiles(json_text_of(schema_json@)->0)),
            json_text_of(schema_json@) is Some && !old(self).spec_config().strict_mode && r is Ok
                ==> final(self).schema_of(channel) == compiled_of(json_text_of(schema_json@)->0),
            r is Ok ==> forall|c: u16| c != channel && old(self).schema_channels().contains(c)
                ==> final(self).schema_of(c) == old(self).schema_of(c),
    {
        match parse_json_text(schema_json) {
            Ok(schema) => self.register_value(channel, &schema),
            Err(e) => Err(SchemaError::InvalidJson(e)),
        }
    }

    /// Registers a schema value for `channel`, replacing any earlier one; in
    /// strict mode the strict rewrite is applied first.
    pub fn register_value(&mut self, channel: u16, schema: &Value) -> (r: Result<(), SchemaError>)
        ensures
            final(self).spec_config() == old(self).spec_config(),
            r is Ok ==> final(self).schema_channels() == old(self).schema_channels().insert(
                channel,
            ),
            r is Err ==> (final(self).schema_channels() == old(self).schema_channels() && r matches Err(
                SchemaError::CompileFailed(_),
            )),
            !old(self).spec_config().strict_mode ==> (r is Ok <==> schema_compiles(*schema)),
            !old(self).spec_config().strict_mode && r is Ok ==> final(self).schema_of(channel)
                == compiled_of(*schema),
            r is Ok ==> forall|c: u16| c != channel && old(self).schema_channels().contains(c)
                ==> final(self).schema_of(c) == old(self).schema_of(c),
            r is Err ==> forall|c: u16| old(self).schema_channels().contains(c)
                ==> final(self).schema_of(c) == old(self).schema_of(c),
    {
        let mut to_compile = clone_value(schema);
        if self.config.strict_mode {
            to_compile = apply_strict_mode(to_compile, STRICT_MODE_DEPTH);
        }
        match compile_schema(&to_compile) {
            Ok(compiled) => {
                self.validators.insert(channel, compiled);
                Ok(())
            },
            Err(message) => Err(SchemaError::CompileFailed(message)),
        }
    }

    /// A registry with the default configuration holding the given
    /// `(channel, schema text)` pairs.
    pub fn from_embedded(schemas: &[(u16, &str)]) -> (r: Result<SchemaRegistry, SchemaError>)
        ensures
            r is Ok <==> forall|i: int| 0 <= i < schemas@.len() ==> embedded_ok(#[trigger] schemas@[i].1@),
            r matches Ok(reg) ==> reg.schema_channels() == Set::new(
                |c: u16| exists|i: int| 0 <= i < schemas@.len() && (#[trigger] schemas@[i]).0 == c,
            ),
    {
        let mut registry = Self::new();
        let mut i: usize = 0;
        while i < schemas.len()
            invariant
                i <= schemas@.len(),
                !registry.spec_config().strict_mode,
                forall|j: int| 0 <= j < i ==> embedded_ok(#[trigger] schemas@[j].1@),
                registry.schema_channels() == Set::new(
                    |c: u16| exists|j: int| 0 <= j < i && (#[trigger] schemas@[j]).0 == c,
                ),
            decreases schemas.len() - i,
        {
            let (channel, text) = schemas[i];
            if let Err(e) = registry.register(channel, text) {
                assert(!embedded_ok(schemas@[i as int].1@));
                return Err(e);
            }
            proof {
                assert(registry.schema_channels() =~= Set::new(
                    |c: u16| exists|j: int| 0 <= j < i + 1 && (#[trigger] schemas@[j]).0 == c,
                )) by {
                    assert forall|c: u16| (exists|j: int| 0 <= j < i + 1 && (#[trigger] schemas@[j]).0 == c)
                        implies registry.schema_channels().contains(c) by {
                        let j = choose|j: int| 0 <= j < i + 1 && (#[trigger] schemas@[j]).0 == c;
                        if j < i {
                            assert(exists|k: int| 0 <= k < i && (#[trigger] schemas@[k]).0 == c);
                        }
                    }
                }
            }
            i = i + 1;
        }
        Ok(registry)
    }

    /// Validates a payload against its channel's schema. Without a schema the
    /// payload passes, unless the configuration asks to fail on a missing
    /// schema.
    pub fn validate(&self, channel: u16, payload: &[u8]) -> (r: Result<(), SchemaError>)
        ensures
            self.validate_result(channel, payload@, r),
    {
        match self.validators.get(&channel) {
            Some(schema) => match parse_json_bytes(payload) {
                Ok(value) => validation_outcome(channel, validation_messages(schema, &value)),
                Err(e) => Err(SchemaError::InvalidJson(e)),
            },
            None => {
                if self.config.fail_on_missing_schema {
                    Err(SchemaError::NoSchema(channel))
                } else {
                    Ok(())
                }
            },
        }
    }

    /// Validates a frame's payload against its channel's schema.
    pub fn validate_frame(&self, frame: &Frame) -> (r: Result<(), SchemaError>)
        ensures
            self.validate_result(frame.channel, frame.payload_view(), r),
    {
        self.validate(frame.channel, bytes_slice(&frame.payload))
    }

    /// Whether `channel` has a schema.
    pub fn has_schema(&self, channel: u16) -> (r: bool)
        ensures
            r == self.schema_channels().contains(channel),
    {
        self.validators.contains_key(&channel)
    }

    /// The channels that have a schema, in increasing order.
    pub fn channels(&self) -> (r: Vec<u16>)
        ensures
            forall|i: int, j: int| 0 <= i < j < r@.len() ==> r@[i] < r@[j],
            forall|c: u16| r@.contains(c) <==> self.schema_channels().contains(c),
    {
        let mut out: Vec<u16> = Vec::new();
        let mut c: u32 = 0;
        while c <= 65535
            invariant
                c <= 65536,
                forall|i: int, j: int| 0 <= i < j < out@.len() ==> out@[i] < out@[j],
                forall|i: int| 0 <= i < out@.len() ==> out@[i] < c,
                forall|d: u16| (d as u32) < c ==> (out@.contains(d) <==> self.schema_channels().contains(d)),
                forall|d: u16| out@.contains(d) ==> (d as u32) < c,
            decreases 65536 - c,
        {
            let ch = c as u16;
            if self.validators.contains_key(&ch) {
                let ghost before = out@;
                out.push(ch);
                proof {
                    assert forall|d: u16| (d as u32) < c + 1 implies (out@.contains(d)
                        <==> self.schema_channels().contains(d)) by {
                        if d == ch {
                            assert(out@[before.len() as int] == d);
                        } else if out@.contains(d) {
                            let k = choose|k: int| 0 <= k < out@.len() && out@[k] == d;
                            assert(before[k] == d);
                        } else if before.contains(d) {
                            let k = choose|k: int| 0 <= k < before.len() && before[k] == d;
                            assert(out@[k] == d);
                        }
                    }
                    assert forall|d: u16| out@.contains(d) implies (d as u32) < c + 1 by {
                        if d != ch {
                            let k = choose|k: int| 0 <= k < out@.len() && out@[k] == d;
                            assert(before[k] == d);
                            assert(before.contains(d));
                        }
                    }
                }
            }
            c = c + 1;
        }
        out
    }

    /// The registry's configuration.
    pub fn config(&self) -> (r: &RegistryConfig)
        ensures
            *r == self.spec_config(),
    {
        &self.config
    }
}

/// Prefix of a numbered schema file name.
pub const CHANNEL_FILE_PREFIX: &'static str = "channel_";

/// Suffix of every schema file name.
pub const SCHEMA_FILE_SUFFIX: &'static str = ".schema.json";

/// Whether `s` ends with `suffix`.
pub open spec fn has_suffix(s: Seq<char>, suffix: Seq<char>) -> bool {
    s.len() >= suffix.len() && s.skip(s.len() - suffix.len()) == suffix
}

/// The channel of a `channel_<N>.schema.json` name, `N` a decimal `u16`.
pub open spec fn spec_channel_pattern(s: Seq<char>) -> Option<u16> {
    if s.len() >= 20 && s.take(8) == "channel_"@ && has_suffix(s, ".schema.json"@) {
        spec_parse_u16(s.subrange(8, s.len() - 12))
    } else {
        None
    }
}

/// The channel of a schema file name, compared without ASCII case: a
/// numbered name, or one of the five built-in channel names.
pub open spec fn spec_resolve_channel(name: Seq<char>) -> Option<u16> {
    let lower = Seq::new(name.len(), |i: int| ascii_lower(name[i]));
    match spec_channel_pattern(lower) {
        Some(c) => Some(c),
        None => if lower == "control.schema.json"@ {
            Some(CONTROL)
        } else if lower == "command.schema.json"@ {
            Some(COMMAND)
        } else if lower == "data.schema.json"@ {
            Some(DATA)
        } else if lower == "telemetry.schema.json"@ {
            Some(TELEMETRY)
        } else if lower == "error.schema.json"@ {
            Some(ERROR)
        } else {
            None
        },
    }
}

fn ends_with_text(s: &str, suffix: &str) -> (r: bool)
    ensures
        r == has_suffix(s@, suffix@),
{
    let n = s.unicode_len();
    let m = suffix.unicode_len();
    if n < m {
        return false;
    }
    let tail = s.substring_char(n - m, n);
    same_text(tail, suffix)
}

/// Reads the channel of a `channel_<N>.schema.json` name.
pub fn parse_channel_pattern(file_name: &str) -> (r: Option<u16>)
    ensures
        r == spec_channel_pattern(file_name@),
{
    proof {
        reveal_strlit("channel_");
        reveal_strlit(".schema.json");
    }
    let n = file_name.unicode_len();
    if n < 20 {
        return None;
    }
    let head = file_name.substring_char(0, 8);
    if !same_text(head, CHANNEL_FILE_PREFIX) || !ends_with_text(file_name, SCHEMA_FILE_SUFFIX) {
        return None;
    }
    parse_u16(file_name.substring_char(8, n - 12))
}

/// Maps a schema file name to its channel.
pub fn resolve_channel_from_file_name(file_name: &str) -> (r: Option<u16>)
    ensures
        r == spec_resolve_channel(file_name@),
{
    let lower = to_ascii_lowercase(file_name);
    let name = lower.as_str();
    if let Some(channel) = parse_channel_pattern(name) {
        return Some(channel);
    }
    if same_text(name, "control.schema.json") {
        Some(CONTROL)
    } else if same_text(name, "command.schema.json") {
        Some(COMMAND)
    } else if same_text(name, "data.schema.json") {
        Some(DATA)
    } else if same_text(name, "telemetry.schema.json") {
        Some(TELEMETRY)
    } else if same_text(name, "error.schema.json") {
        Some(ERROR)
    } else {
        None
    }
}

/// What directory loading does with one entry.
pub enum SchemaEntry {
    /// Not a schema file: pass over it.
    Skip,
    /// Load it as the schema of this channel.
    Load(u16),
}

/// Decides on one directory entry from its name and what `symlink_metadata`
/// says of it: a symlink or an unrecognised name that looks like a schema
/// file is an error; other symlinks, non-files and other names are passed
/// over; a recognised schema file is loaded.
pub fn classify_schema_entry(file_name: &str, is_symlink: bool, is_file: bool) -> (r: Result<
    SchemaEntry,
    SchemaError,
>)
    ensures
        is_symlink ==> if has_suffix(file_name@, ".schema.json"@) {
            r matches Err(SchemaError::LoadFailed(_))
        } else {
            r matches Ok(SchemaEntry::Skip)
        },
        !is_symlink && !is_file ==> r matches Ok(SchemaEntry::Skip),
        !is_symlink && is_file ==> match spec_resolve_channel(file_name@) {
            Some(c) => r matches Ok(SchemaEntry::Load(d)) && d == c,
            None => if has_suffix(file_name@, ".schema.json"@) {
                r matches Err(SchemaError::LoadFailed(_))
            } else {
                r matches Ok(SchemaEntry::Skip)
            },
        },
{
    proof {
        reveal_strlit(".schema.json");
    }
    let is_schema_file = ends_with_text(file_name, SCHEMA_FILE_SUFFIX);
    if is_symlink {
        if is_schema_file {
            return Err(
                SchemaError::LoadFailed(concat_text("refusing to load schema symlink: ", file_name)),
            );
        }
        return Ok(SchemaEntry::Skip);
    }
    if !is_file {
        return Ok(SchemaEntry::Skip);
    }
    match resolve_channel_from_file_name(file_name) {
        Some(channel) => Ok(SchemaEntry::Load(channel)),
        None => {
            if is_schema_file {
                Err(
                    SchemaError::LoadFailed(
                        concat_text("unrecognized schema filename: ", file_name),
                    ),
                )
            } else {
                Ok(SchemaEntry::Skip)
            }
        },
    }
}

/// Checks the limits of directory loading before a file is read: the
/// number of schema files so far (this one included) and the file's size.
pub fn check_schema_file(config: &RegistryConfig, loaded_count: usize, file_len: u64) -> (r: Result<
    (),
    SchemaError,
>)
    ensures
        r is Ok <==> loaded_count <= config.max_schemas_from_directory && file_len
            <= config.max_schema_file_size,
        r is Err ==> r matches Err(SchemaError::LoadFailed(_)),
{
    if loaded_count > config.max_schemas_from_directory {
        let count = usize_text(loaded_count);
        return Err(
            SchemaError::LoadFailed(
                concat_text("schema count exceeds configured max: ", count.as_str()),
            ),
        );
    }
    if file_len > config.max_schema_file_size as u64 {
        return Err(SchemaError::LoadFailed("schema file too large".to_owned()));
    }
    Ok(())
}

/// Checks the size of a schema file's text once read: a file that grew
/// past the limit while it was read is refused.
pub fn check_schema_text(config: &RegistryConfig, content_len: usize) -> (r: Result<(), SchemaError>)
    ensures
        r is Ok <==> content_len <= config.max_schema_file_size,
        r is Err ==> r matches Err(SchemaError::LoadFailed(_)),
{
    if content_len > config.max_schema_file_size {
        return Err(SchemaError::LoadFailed("schema file too large while reading".to_owned()));
    }
    Ok(())
}

impl Default for SchemaRegistry {
    fn default() -> (r: SchemaRegistry)
        ensures
            r.schema_channels() == Set::<u16>::empty(),
            r.spec_config().max_schemas_from_directory == DEFAULT_MAX_SCHEMAS,
    {
        Self::new()
    }
}

} // verus!
