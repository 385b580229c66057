//! The workspace configuration file: remembering the last opened entity.

use vstd::prelude::*;

verus! {

/// The TOML parse error of toml_edit.
#[verifier::external_type_specification]
#[verifier::external_body]
pub struct ExTomlError(toml_edit::TomlError);

/// What toml_edit yields for a configuration text with the top-level `key` set
/// to the string `value`: the re-serialised document, or `None` when the text
/// does not parse as TOML.
pub uninterp spec fn document_with_value(content: Seq<char>, key: Seq<char>, value: Seq<char>) -> Option<Seq<char>>;

/// The configuration key that remembers the last opened entity.
pub open spec fn last_opened_key() -> Seq<char> {
    "last_opened_entity"@
}

/// Parses `content` as a `toml_edit::DocumentMut`, sets its top-level `key` to
/// the string `value` (`doc[key] = toml_edit::value(value)`, which keeps the rest
/// of the document, comments and formatting included), and prints the document
/// back. Claimed: the outcome is `document_with_value` of the three texts.
#[verifier::external_body]
fn toml_set_value(content: &str, key: &str, value: &str) -> (r: Result<String, toml_edit::TomlError>)
    ensures
        r matches Ok(s) ==> document_with_value(content@, key@, value@) == Some(s@),
        r is Err ==> document_with_value(content@, key@, value@) is None,
{
    let mut doc = content.parse::<toml_edit::DocumentMut>()?;
    doc[key] = toml_edit::value(value);
    Ok(doc.to_string())
}

/// Why the configuration text cannot be updated.
#[derive(Debug, Clone, Copy, PartialEq, Eq, Structural)]
pub enum ConfigError {
    /// The text is not valid TOML.
    Parse,
}

/// The configuration text with `last_opened_entity = "<name>"` set, the rest
/// of the document unchanged.
pub fn with_last_opened(content: &str, entity_name: &str) -> (r: Result<String, ConfigError>)
    ensures
        document_with_value(content@, last_opened_key(), entity_name@) matches Some(t) ==> (r matches Ok(s) && s@ == t),
        document_with_value(content@, last_opened_key(), entity_name@) is None ==> r == Err::<String, ConfigError>(ConfigError::Parse),
{
    proof {
        reveal_strlit("last_opened_entity");
    }
    match toml_set_value(content, "last_opened_entity", entity_name) {
        Ok(s) => Ok(s),
        Err(_) => Err(ConfigError::Parse),
    }
}

} // verus!
