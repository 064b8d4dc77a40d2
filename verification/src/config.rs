//! The persisted configuration: a JSON object of which the supervisor reads the
//! negotiated port and the storage locations, and writes the port.

use vstd::prelude::*;
use crate::text::{decimal, str_text, text_of};

verus! {

/// Name of the configuration file inside the application's configuration directory.
pub const CONFIG_FILENAME: &'static str = "bioforger-config.json";

/// Key of the configuration object under which the negotiated port is kept.
pub const BACKEND_PORT_CONFIG_KEY: &'static str = "backendPort";

/// Key of the configuration object that overrides the database path.
pub const DB_PATH_CONFIG_KEY: &'static str = "dbPath";

/// Key of the configuration object that overrides the document directory.
pub const DOCUMENTS_DIR_CONFIG_KEY: &'static str = "documentsDir";

/// What was found at the place where the configuration is kept.
#[derive(Debug, PartialEq, Eq)]
pub enum ConfigFile {
    /// No place is known: there is no configuration directory.
    NoPath,
    /// The place is known and holds no file.
    Missing,
    /// A file is there and could not be read.
    Unreadable,
    /// A file is there, with this text.
    Contents(String),
}

/// What `serde_json` reads under `key` of the JSON text `text` as an unsigned
/// integer: `None` when the text is not JSON, is not an object, has no such
/// key, or holds something else than a non-negative whole number there.
pub uninterp spec fn json_u64_at(text: Seq<char>, key: Seq<char>) -> Option<u64>;

/// What `serde_json` reads under `key` of the JSON text `text` as a string:
/// `None` when the text is not JSON, is not an object, has no such key, or
/// holds something else than a string there.
pub uninterp spec fn json_text_at(text: Seq<char>, key: Seq<char>) -> Option<Seq<char>>;

/// The JSON text that `serde_json` writes for the object of `text` once its
/// member `key` is set to the number `n`; `None` when `text` is not JSON or is
/// not an object.
pub uninterp spec fn json_object_with(text: Seq<char>, key: Seq<char>, n: u16) -> Option<Seq<char>>;

/// A key that JSON text holds as it stands, between quotes: none of its
/// characters is a quote, a backslash or a control character.
pub open spec fn plain_key(key: Seq<char>) -> bool {
    forall|i: int|
        0 <= i < key.len() ==> (#[trigger] key[i]) as u32 >= 0x20 && key[i] != '"' && key[i]
            != '\\'
}

/// The JSON text of the object whose only member is the plain key `key`, with
/// the number `n`: compact, as `{"key":n}`.
pub open spec fn object_of(key: Seq<char>, n: u16) -> Seq<char> {
    seq!['{', '"'] + key + seq!['"', ':'] + decimal(n as nat) + seq!['}']
}

/// Parses `text` with `serde_json::from_str`, looks `key` up with `Value::get`
/// and reads the member with `Value::as_u64`. The contract names the result and
/// says no more of it than that it depends on the two texts alone.
#[verifier::external_body]
fn json_u64_member(text: &str, key: &str) -> (number: Option<u64>)
    ensures
        number == json_u64_at(text@, key@),
{
    let value: serde_json::Value = serde_json::from_str(text).ok()?;
    value.get(key)?.as_u64()
}

/// Parses `text` with `serde_json::from_str`, looks `key` up with `Value::get`
/// and reads the member with `Value::as_str`. The contract names the result and
/// says no more of it than that it depends on the two texts alone.
#[verifier::external_body]
fn json_text_member(text: &str, key: &str) -> (member: Option<String>)
    ensures
        text_of(member) == json_text_at(text@, key@),
{
    let value: serde_json::Value = serde_json::from_str(text).ok()?;
    Some(value.get(key)?.as_str()?.to_string())
}

/// Parses `text` with `serde_json::from_str`; if that yields an object, sets its
/// member `key` to `n` with `Map::insert` and writes the object out with
/// `to_string`. The contract names the result and says no more of it than that
/// it depends on the arguments alone.
#[verifier::external_body]
fn json_object_with_number(text: &str, key: &str, n: u16) -> (written: Option<String>)
    ensures
        text_of(written) == json_object_with(text@, key@, n),
{
    match serde_json::from_str::<serde_json::Value>(text) {
        Ok(serde_json::Value::Object(mut members)) => {
            members.insert(key.to_string(), serde_json::Value::from(n));
            Some(serde_json::Value::Object(members).to_string())
        },
        _ => None,
    }
}

/// Makes an empty `serde_json::Map`, sets its member `key` to `n` with
/// `Map::insert` and writes the object out with `to_string`. The contract states
/// the text for a plain key: serde_json writes an object compactly, a string
/// that needs no escape as it stands between quotes, and an integer in decimal.
#[verifier::external_body]
fn json_object_of_number(key: &str, n: u16) -> (written: String)
    requires
        plain_key(key@),
    ensures
        written@ == object_of(key@, n),
{
    let mut members = serde_json::Map::new();
    members.insert(key.to_string(), serde_json::Value::from(n));
    serde_json::Value::Object(members).to_string()
}

/// The port that a number of the configuration stands for: the number itself
/// if it is a port number other than 0.
pub open spec fn port_of_number(number: Option<u64>) -> Option<u16> {
    match number {
        Some(n) => if 0 < n <= u16::MAX {
            Some(n as u16)
        } else {
            None
        },
        None => None,
    }
}

/// The port that the configuration text `text` holds, if it holds a valid one.
pub open spec fn stored_port(text: Seq<char>) -> Option<u16> {
    port_of_number(json_u64_at(text, BACKEND_PORT_CONFIG_KEY@))
}

/// The port that is kept at the place of the configuration, if a valid one is.
pub open spec fn configured_port(config: ConfigFile) -> Option<u16> {
    match config {
        ConfigFile::Contents(text) => stored_port(text@),
        _ => None,
    }
}

/// The configuration text that keeps `port`: the object of `existing` with the
/// port set, or a new object with nothing but the port when `existing` is
/// absent or is not a JSON object.
pub open spec fn config_with_port(existing: Option<Seq<char>>, port: u16) -> Seq<char> {
    let fresh = object_of(BACKEND_PORT_CONFIG_KEY@, port);
    match existing {
        Some(text) => match json_object_with(text, BACKEND_PORT_CONFIG_KEY@, port) {
            Some(updated) => updated,
            None => fresh,
        },
        None => fresh,
    }
}

/// A storage location that the configuration overrides: the text that is
/// kept, unless it is empty.
pub open spec fn override_of(value: Option<Seq<char>>) -> Option<Seq<char>> {
    match value {
        Some(text) => if text.len() > 0 {
            Some(text)
        } else {
            None
        },
        None => None,
    }
}

/// The storage locations that the configuration overrides.
#[derive(Debug, PartialEq, Eq)]
pub struct StorageOverrides {
    /// Path of the database.
    pub db_path: Option<String>,
    /// Directory of the documents.
    pub documents_dir: Option<String>,
}

/// Turns a number of the configuration into a port: `None` for 0 and for
/// numbers that are no port numbers.
pub fn port_from_number(number: Option<u64>) -> (port: Option<u16>)
    ensures
        port == port_of_number(number),
{
    match number {
        Some(n) => if 0 < n && n <= 65535 {
            Some(n as u16)
        } else {
            None
        },
        None => None,
    }
}

/// Reads the negotiated port from the text of the configuration file. `None`
/// when the text is not a JSON object or holds no valid port under `backendPort`.
pub fn read_backend_port_from_config(contents: &str) -> (port: Option<u16>)
    ensures
        port == stored_port(contents@),
{
    port_from_number(json_u64_member(contents, BACKEND_PORT_CONFIG_KEY))
}

/// Chooses the configuration text to write: `updated`, the existing object
/// with the port set, where there is one, else `fresh`, a new object with
/// nothing but the port.
pub fn updated_or_fresh(updated: Option<String>, fresh: String) -> (contents: String)
    ensures
        contents == match updated {
            Some(text) => text,
            None => fresh,
        },
{
    match updated {
        Some(text) => text,
        None => fresh,
    }
}

/// The text to write to the configuration file so that it keeps `backend_port`.
/// The other members of an existing configuration object stay; text that is no
/// JSON object is replaced.
pub fn write_backend_port_to_config(existing: Option<&str>, backend_port: u16) -> (contents: String)
    ensures
        contents@ == config_with_port(str_text(existing), backend_port),
{
    let updated = match existing {
        Some(text) => json_object_with_number(text, BACKEND_PORT_CONFIG_KEY, backend_port),
        None => None,
    };
    proof {
        lemma_port_key_is_plain();
    }
    updated_or_fresh(updated, json_object_of_number(BACKEND_PORT_CONFIG_KEY, backend_port))
}

/// The key of the port is plain.
pub proof fn lemma_port_key_is_plain()
    ensures
        plain_key(BACKEND_PORT_CONFIG_KEY@),
{
    reveal_strlit("backendPort");
}

/// The configuration that is written where there was none holds the port and
/// nothing else: for the default port it is `{"backendPort":8778}`.
pub proof fn lemma_fresh_config_text(port: u16)
    ensures
        config_with_port(None, port) == "{\"backendPort\":"@ + decimal(port as nat) + "}"@,
        config_with_port(None, 8778) == "{\"backendPort\":8778}"@,
{
    reveal_strlit("backendPort");
    reveal_strlit("{\"backendPort\":");
    reveal_strlit("}");
    reveal_strlit("{\"backendPort\":8778}");
    assert(config_with_port(None, port) =~= "{\"backendPort\":"@ + decimal(port as nat) + "}"@);
    assert(decimal(8) =~= seq!['8']);
    assert(decimal(87) =~= seq!['8', '7']);
    assert(decimal(877) =~= seq!['8', '7', '7']);
    assert(decimal(8778) =~= seq!['8', '7', '7', '8']);
    assert(config_with_port(None, 8778) =~= "{\"backendPort\":8778}"@);
}

/// Keeps a storage location of the configuration unless it is empty.
pub fn storage_override(value: Option<String>) -> (kept: Option<String>)
    ensures
        text_of(kept) == override_of(text_of(value)),
        kept is Some ==> kept == value,
{
    match value {
        Some(text) => if !text.as_str().is_empty() {
            Some(text)
        } else {
            None
        },
        None => None,
    }
}

/// Reads the storage locations that the configuration text overrides: the
/// strings under `dbPath` and `documentsDir`, each unless absent or empty.
pub fn storage_overrides(contents: &str) -> (overrides: StorageOverrides)
    ensures
        text_of(overrides.db_path) == override_of(json_text_at(contents@, DB_PATH_CONFIG_KEY@)),
        text_of(overrides.documents_dir) == override_of(
            json_text_at(contents@, DOCUMENTS_DIR_CONFIG_KEY@),
        ),
{
    StorageOverrides {
        db_path: storage_override(json_text_member(contents, DB_PATH_CONFIG_KEY)),
        documents_dir: storage_override(json_text_member(contents, DOCUMENTS_DIR_CONFIG_KEY)),
    }
}

} // verus!
