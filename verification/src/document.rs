//! What can be told of the stored document before it is read as a
//! configuration: whether it holds a given field at all.

use vstd::prelude::*;
use vstd::string::*;

verus! {

#[verifier::external_type_specification]
#[verifier::external_body]
pub struct ExJsonValue(serde_json::Value);

/// The keys that a JSON value holds at its top level: those of its members
/// where it is an object, none where it is anything else.
pub uninterp spec fn json_keys(value: serde_json::Value) -> Set<Seq<char>>;

/// The top level keys of the JSON value that a text spells, or nothing where
/// the text is not JSON.
pub uninterp spec fn json_document_keys(text: Seq<char>) -> Option<Set<Seq<char>>>;

/// `serde_json::from_str` at the type `serde_json::Value`: the value that the
/// text spells, or nothing where the parser reports an error. The contract
/// gives the outcome its name and claims nothing else of it.
#[verifier::external_body]
fn parse_json(text: &str) -> (r: Option<serde_json::Value>)
    ensures
        match r {
            Some(value) => json_document_keys(text@) == Some(json_keys(value)),
            None => json_document_keys(text@) is None,
        },
{
    serde_json::from_str::<serde_json::Value>(text).ok()
}

/// `serde_json::Value::get` with a string index: whether the value is an
/// object with a member of that name.
#[verifier::external_body]
fn json_has_key(value: &serde_json::Value, key: &str) -> (r: bool)
    ensures
        r == json_keys(*value).contains(key@),
{
    value.get(key).is_some()
}

/// What looking for a field in the stored document found.
#[derive(Clone, Copy, Debug, PartialEq, Eq, Structural)]
pub enum KeyLookup {
    /// Nothing is stored.
    Absent,
    /// What is stored could not be read.
    Unreadable,
    /// What is stored is not JSON.
    Malformed,
    /// A JSON document, which holds the field or does not.
    Document { has_key: bool },
}

/// What looking for `key` finds, given whether anything is stored and the
/// text that was read of it.
pub open spec fn key_lookup(exists: bool, content: Option<Seq<char>>, key: Seq<char>) -> KeyLookup {
    if !exists {
        KeyLookup::Absent
    } else {
        match content {
            None => KeyLookup::Unreadable,
            Some(text) => match json_document_keys(text) {
                None => KeyLookup::Malformed,
                Some(keys) => KeyLookup::Document { has_key: keys.contains(key) },
            },
        }
    }
}

/// Whether a lookup shows that nothing need be mended: nothing is stored, so
/// that the defaults stand, or a document holds the field.
pub open spec fn settled(lookup: KeyLookup) -> bool {
    match lookup {
        KeyLookup::Absent => true,
        KeyLookup::Document { has_key } => has_key,
        _ => false,
    }
}

/// The text of an optional string.
pub open spec fn content_view(content: Option<&str>) -> Option<Seq<char>> {
    match content {
        Some(text) => Some(text@),
        None => None,
    }
}

/// Looks for a field in the stored document.
pub fn look_up_key(exists: bool, content: Option<&str>, key: &str) -> (r: KeyLookup)
    ensures
        r == key_lookup(exists, content_view(content), key@),
{
    if !exists {
        return KeyLookup::Absent;
    }
    match content {
        None => KeyLookup::Unreadable,
        Some(text) => match parse_json(text) {
            None => KeyLookup::Malformed,
            Some(value) => KeyLookup::Document { has_key: json_has_key(&value, key) },
        },
    }
}

/// Whether a lookup shows that nothing need be mended.
pub fn lookup_is_settled(lookup: KeyLookup) -> (r: bool)
    ensures
        r == settled(lookup),
{
    match lookup {
        KeyLookup::Absent => true,
        KeyLookup::Document { has_key } => has_key,
        _ => false,
    }
}

/// Whether the stored document need not be mended for want of the stitch
/// shortcut: nothing is stored, or a JSON document holds the field
/// `stitchShortcut`. `exists` says whether anything is stored, `content` is its
/// text where it could be read.
pub fn settings_file_has_stitch_shortcut(exists: bool, content: Option<&str>) -> (r: bool)
    ensures
        r == settled(key_lookup(exists, content_view(content), "stitchShortcut"@)),
{
    lookup_is_settled(look_up_key(exists, content, "stitchShortcut"))
}

} // verus!
