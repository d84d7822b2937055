//! The configuration source resolver: produce a parsed configuration table,
//! or a classified failure, from what the chosen source yielded.
//!
//! Reading standard input, and searching the file system for a candidate
//! file, are the caller's part; the functions here take each outcome as a
//! value and decide everything else — the empty-input rule, the error
//! classification, and the exact message of every failure. Parsing the text
//! is the TOML parser's work, consumed through a trusted wrapper; the deeper
//! schema of the settings and of each block definition is the bar's own
//! concern, outside this resolver.

use crate::errors::{ErrorKind, FatalError};
use crate::spawn::SpawnQueue;
use vstd::prelude::*;
use vstd::string::*;

verus! {

#[verifier::external_type_specification]
#[verifier::external_body]
#[verifier::reject_recursive_types(K)]
#[verifier::reject_recursive_types(V)]
pub struct ExTomlMap<K, V>(toml::map::Map<K, V>);

#[verifier::external_type_specification]
#[verifier::external_body]
pub struct ExTomlValue(toml::Value);

/// What parsing a text as a configuration table yields: nothing on success,
/// the parser's rendered message on failure. A function of the text alone.
pub uninterp spec fn toml_parse_error(s: Seq<char>) -> Option<Seq<char>>;

/// The values of the array a table holds under a key, in declaration order;
/// empty when the key is absent or holds no array.
pub uninterp spec fn table_array(t: toml::Table, key: Seq<char>) -> Seq<toml::Value>;

/// Relies on toml::from_str: whether a text parses as a table, and the
/// message reported when it does not, depend on the text alone.
#[verifier::external_body]
fn parse_config_text(text: &str) -> (r: Result<toml::Table, String>)
    ensures
        r is Ok <==> toml_parse_error(text@) is None,
        r is Err ==> toml_parse_error(text@) == Some(r->Err_0@),
{
    toml::from_str::<toml::Table>(text).map_err(|e| e.to_string())
}

/// Relies on toml::map::Map::remove and the Array variant of toml::Value:
/// move the array under the key out of the table, so that the table no
/// longer holds the key; hand back its values in declaration order, or
/// nothing when the key was absent or held no array.
#[verifier::external_body]
fn take_array(table: &mut toml::Table, key: &str) -> (r: Vec<toml::Value>)
    ensures
        r@ == table_array(*old(table), key@),
        table_array(*final(table), key@).len() == 0,
{
    match table.remove(key) {
        Some(toml::Value::Array(items)) => items,
        _ => Vec::new(),
    }
}

/// The key under which the configuration declares its blocks.
pub open spec fn block_key() -> Seq<char> {
    "block"@
}

/// The message reported when standard input cannot be read.
pub open spec fn stdin_read_failure_message() -> Seq<char> {
    "Configuration file could not be read from stdin"@
}

/// The message reported when no candidate file exists for an identifier.
pub open spec fn not_found_message(identifier: Seq<char>) -> Seq<char> {
    "Configuration file '"@ + identifier + "' not found"@
}

/// The message for a failed parse of text read from standard input; no file
/// path exists, so none is named.
pub open spec fn stdin_parse_failure_message(parser: Seq<char>) -> Seq<char> {
    "Failed to deserialize TOML: "@ + parser
}

/// The message for a failed parse of a configuration file, naming the file.
pub open spec fn file_parse_failure_message(path: Seq<char>, parser: Seq<char>) -> Seq<char> {
    "Failed to deserialize TOML file "@ + path + ": "@ + parser
}

/// The standard-input branch of the resolver. `read` is what reading all of
/// standard input yielded: the text, or the read failure's rendered text.
/// An empty text is an operator mistake, reported as a configuration error
/// carrying no message at all; any other failure carries its exact message.
pub fn config_from_stdin(read: Result<String, String>) -> (r: Result<toml::Table, FatalError>)
    ensures
        read is Err ==> r is Err && r->Err_0.is_config_error(
            Some(stdin_read_failure_message()),
            Some(read->Err_0@),
        ),
        read is Ok && read->Ok_0@.len() == 0 ==> r is Err && r->Err_0.is_config_error(None, None),
        read is Ok && read->Ok_0@.len() > 0 ==> ((r is Ok) <==> toml_parse_error(read->Ok_0@)
            is None),
        read is Ok && read->Ok_0@.len() > 0 && r is Err ==> toml_parse_error(read->Ok_0@) is Some
            && r->Err_0.is_config_error(
            Some(stdin_parse_failure_message(toml_parse_error(read->Ok_0@)->Some_0)),
            None,
        ),
{
    match read {
        Err(io) => Err(
            FatalError {
                kind: ErrorKind::Config,
                message: Some(String::from_str("Configuration file could not be read from stdin")),
                cause: Some(io),
                block: None,
            },
        ),
        Ok(text) => {
            if text.as_str().unicode_len() == 0 {
                Err(FatalError { kind: ErrorKind::Config, message: None, cause: None, block: None })
            } else {
                match parse_config_text(text.as_str()) {
                    Ok(c) => Ok(c),
                    Err(m) => Err(
                        FatalError {
                            kind: ErrorKind::Config,
                            message: Some(
                                String::from_str("Failed to deserialize TOML: ").concat(m.as_str()),
                            ),
                            cause: None,
                            block: None,
                        },
                    ),
                }
            }
        },
    }
}

/// Classify the outcome of the file search: a found path is handed on; a
/// search that found nothing is a configuration error naming the original
/// identifier; a search that itself failed carries that failure's text. The
/// search itself — the literal path, then the standard locations, with the
/// default extension — walks the file system, so the caller performs it and
/// hands its outcome here.
pub fn classify_search(identifier: &str, found: Result<Option<String>, String>) -> (r: Result<
    String,
    FatalError,
>)
    ensures
        found is Ok && found->Ok_0 is Some ==> r is Ok && r->Ok_0 == found->Ok_0->Some_0,
        found is Ok && found->Ok_0 is None ==> r is Err && r->Err_0.is_config_error(
            Some(not_found_message(identifier@)),
            None,
        ),
        found is Err ==> r is Err && r->Err_0.is_config_error(Some(found->Err_0@), None),
{
    match found {
        Ok(Some(p)) => Ok(p),
        Ok(None) => Err(
            FatalError {
                kind: ErrorKind::Config,
                message: Some(not_found_text(identifier)),
                cause: None,
                block: None,
            },
        ),
        Err(s) => Err(
            FatalError { kind: ErrorKind::Config, message: Some(s), cause: None, block: None },
        ),
    }
}

/// Build the not-found message for an identifier.
fn not_found_text(identifier: &str) -> (r: String)
    ensures
        r@ == not_found_message(identifier@),
{
    String::from_str("Configuration file '").concat(identifier).concat("' not found")
}

/// The file branch of the resolver. `read` is what reading the resolved
/// file yielded. A failed read is reported exactly as a missing file,
/// naming the original identifier with the read failure as cause; a failed
/// parse names the resolved path.
pub fn config_from_file(identifier: &str, path: &str, read: Result<String, String>) -> (r: Result<
    toml::Table,
    FatalError,
>)
    ensures
        read is Err ==> r is Err && r->Err_0.is_config_error(
            Some(not_found_message(identifier@)),
            Some(read->Err_0@),
        ),
        read is Ok ==> ((r is Ok) <==> toml_parse_error(read->Ok_0@) is None),
        read is Ok && r is Err ==> toml_parse_error(read->Ok_0@) is Some
            && r->Err_0.is_config_error(
            Some(file_parse_failure_message(path@, toml_parse_error(read->Ok_0@)->Some_0)),
            None,
        ),
{
    match read {
        Err(io) => Err(
            FatalError {
                kind: ErrorKind::Config,
                message: Some(not_found_text(identifier)),
                cause: Some(io),
                block: None,
            },
        ),
        Ok(text) => match parse_config_text(text.as_str()) {
            Ok(c) => Ok(c),
            Err(m) => Err(
                FatalError {
                    kind: ErrorKind::Config,
                    message: Some(
                        String::from_str("Failed to deserialize TOML file ").concat(path).concat(
                            ": ",
                        ).concat(m.as_str()),
                    ),
                    cause: None,
                    block: None,
                },
            ),
        },
    }
}

/// Extract the block definitions from a loaded configuration table, leaving
/// the table without its block list, and queue them for spawning in
/// declaration order.
pub fn extract_blocks(config: &mut toml::Table) -> (q: SpawnQueue<toml::Value>)
    ensures
        q.wf(),
        q.plan() == table_array(*old(config), block_key()),
        q.position() == 0,
        table_array(*final(config), block_key()).len() == 0,
{
    let blocks = take_array(config, "block");
    SpawnQueue::new(blocks)
}

} // verus!
