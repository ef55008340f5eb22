//! JSON values, as `serde_json` reads, holds and writes them.
//!
//! `serde_json::Value` is opaque here. What one holds is told by [`json_tree`];
//! the functions below say what each call into the crate does to it.
use vstd::prelude::*;

verus! {

/// What a JSON value holds. A number is told by its digits.
pub enum JsonTree {
    Null,
    Bool(bool),
    Number(Seq<char>),
    Text(Seq<char>),
    Array(Seq<JsonTree>),
    Object(Map<Seq<char>, JsonTree>),
}

/// `serde_json::Value`, carried through without looking inside.
#[verifier::external_type_specification]
#[verifier::external_body]
pub struct ExValue(serde_json::Value);

/// What a `serde_json::Value` holds.
pub uninterp spec fn json_tree(value: serde_json::Value) -> JsonTree;

/// What `serde_json::from_str` reads from a text: the value, or the text of the
/// error.
pub uninterp spec fn json_parse(text: Seq<char>) -> Result<JsonTree, Seq<char>>;

/// What `serde_json::to_string` writes for a value: its text, or the text of the
/// error.
pub uninterp spec fn json_print(tree: JsonTree) -> Result<Seq<char>, Seq<char>>;

impl JsonTree {
    /// The member of that name, where this is an object that has it.
    pub open spec fn member(self, key: Seq<char>) -> Option<JsonTree> {
        match self {
            JsonTree::Object(members) => if members.contains_key(key) {
                Some(members[key])
            } else {
                None
            },
            _ => None,
        }
    }

    /// This object with `value` as its member of that name.
    pub open spec fn with_member(self, key: Seq<char>, value: JsonTree) -> JsonTree {
        match self {
            JsonTree::Object(members) => JsonTree::Object(members.insert(key, value)),
            _ => self,
        }
    }
}

/// Calls `serde_json::from_str` for a `Value`. What it reads, and the text of
/// the error where it reads nothing, depend on the text alone.
#[verifier::external_body]
pub(crate) fn parse_value(text: &str) -> (parsed: Result<serde_json::Value, String>)
    ensures
        match parsed {
            Ok(value) => json_parse(text@) == Ok::<JsonTree, Seq<char>>(json_tree(value)),
            Err(err) => json_parse(text@) == Err::<JsonTree, Seq<char>>(err@),
        },
{
    serde_json::from_str::<serde_json::Value>(text).map_err(|err| err.to_string())
}

/// Calls `serde_json::to_string` on a `Value`. What it writes depends on what
/// the value holds alone.
#[verifier::external_body]
pub(crate) fn print_value(value: &serde_json::Value) -> (printed: Result<String, String>)
    ensures
        match printed {
            Ok(text) => json_print(json_tree(*value)) == Ok::<Seq<char>, Seq<char>>(text@),
            Err(err) => json_print(json_tree(*value)) == Err::<Seq<char>, Seq<char>>(err@),
        },
{
    serde_json::to_string(value).map_err(|err| err.to_string())
}

/// Calls `serde_json::Value::is_object`.
#[verifier::external_body]
pub(crate) fn is_object(value: &serde_json::Value) -> (object: bool)
    ensures
        object == (json_tree(*value) is Object),
{
    value.is_object()
}

/// Calls `serde_json::Value::get` with a name, and copies what it finds: the
/// member of that name of an object, and nothing of any other value.
#[verifier::external_body]
pub(crate) fn member(value: &serde_json::Value, key: &str) -> (found: Option<serde_json::Value>)
    ensures
        match found {
            Some(member) => json_tree(*value).member(key@) == Some(json_tree(member)),
            None => json_tree(*value).member(key@) is None,
        },
{
    value.get(key).cloned()
}

/// Calls `serde_json::Map::insert` on an object: its member of that name is
/// replaced or added, and the others stay.
#[verifier::external_body]
pub(crate) fn set_member(value: &mut serde_json::Value, key: &str, member: serde_json::Value)
    requires
        json_tree(*old(value)) is Object,
    ensures
        json_tree(*final(value)) == json_tree(*old(value)).with_member(key@, json_tree(member)),
{
    value.as_object_mut().unwrap().insert(key.to_owned(), member);
}

/// Calls `serde_json::Value::as_str`, and copies the text.
#[verifier::external_body]
pub(crate) fn text_of(value: &serde_json::Value) -> (text: Option<String>)
    ensures
        match text {
            Some(text) => json_tree(*value) == JsonTree::Text(text@),
            None => !(json_tree(*value) is Text),
        },
{
    value.as_str().map(str::to_owned)
}

/// Makes a `serde_json::Value::String`.
#[verifier::external_body]
pub(crate) fn text_value(text: String) -> (value: serde_json::Value)
    ensures
        json_tree(value) == JsonTree::Text(text@),
{
    serde_json::Value::String(text)
}

} // verus!
