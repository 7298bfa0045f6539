//! JSON text from outside: what clients post and what the database keeps of tag lists.

use vstd::prelude::*;

verus! {

/// A parsed JSON value of `serde_json`.
#[verifier::external_type_specification]
#[verifier::external_body]
pub struct ExValue(serde_json::Value);

/// An error of `serde_json`.
#[verifier::external_type_specification]
#[verifier::external_body]
pub struct ExJsonError(serde_json::Error);

/// The members of the object `value` that are strings, by name; none if it is no object.
pub uninterp spec fn text_members(value: serde_json::Value) -> Map<Seq<char>, Seq<char>>;

/// Whether `value` is `null`.
pub uninterp spec fn null_value(value: serde_json::Value) -> bool;

/// What `serde_json` reads `text` as: the string members of the value and whether it is
/// `null`; `None` where `text` is not one JSON document.
pub uninterp spec fn parsed_document(text: Seq<char>) -> Option<
    (Map<Seq<char>, Seq<char>>, bool),
>;

/// `text` is a JSON document other than `null`.
pub open spec fn has_value(text: Seq<char>) -> bool {
    match parsed_document(text) {
        Some((_, null)) => !null,
        None => false,
    }
}

/// What `serde_json` reads `text` as when it has to be an array of strings.
pub uninterp spec fn parsed_strings(text: Seq<char>) -> Option<Seq<Seq<char>>>;

/// What `serde_json` writes for an array of strings.
pub uninterp spec fn strings_text(strings: Seq<Seq<char>>) -> Seq<char>;

/// Calls `serde_json::from_str` for a value of any shape. Claimed: whether it succeeds, which
/// string members the value has and whether it is `null` depend on the text alone.
#[verifier::external_body]
pub(crate) fn parse_document(text: &str) -> (r: Result<serde_json::Value, serde_json::Error>)
    ensures
        match r {
            Ok(value) => parsed_document(text@) == Some((text_members(value), null_value(value))),
            Err(_) => parsed_document(text@) is None,
        },
{
    serde_json::from_str(text)
}

/// Calls `serde_json::Value::get` with a name, and `as_str` on what it finds. Claimed: the
/// result is the string member of that name, and `None` where there is no such member or it
/// is no string.
#[verifier::external_body]
pub(crate) fn text_member(value: &serde_json::Value, key: &str) -> (r: Option<String>)
    ensures
        match r {
            Some(s) => text_members(*value).contains_key(key@) && s@ == text_members(*value)[key@],
            None => !text_members(*value).contains_key(key@),
        },
{
    value.get(key).and_then(|v| v.as_str()).map(|s| s.to_owned())
}

/// Calls `serde_json::Value::is_null`. Claimed: it tells whether the value is `null`.
#[verifier::external_body]
pub(crate) fn is_null(value: &serde_json::Value) -> (r: bool)
    ensures
        r == null_value(*value),
{
    value.is_null()
}

/// Calls `serde_json::from_str` for an array of strings. Claimed: the outcome depends on the
/// text alone.
#[verifier::external_body]
pub(crate) fn parse_strings(text: &str) -> (r: Result<Vec<String>, serde_json::Error>)
    ensures
        match r {
            Ok(strings) => parsed_strings(text@) == Some(strings.deep_view()),
            Err(_) => parsed_strings(text@) is None,
        },
{
    serde_json::from_str(text)
}

/// Calls `serde_json::to_string` on an array of strings. Claimed: it succeeds, the text
/// depends on the strings alone, reading it gives the same strings back, and the text is a
/// document other than `null`.
#[verifier::external_body]
pub(crate) fn write_strings(strings: &Vec<String>) -> (r: Result<String, serde_json::Error>)
    ensures
        match r {
            Ok(text) => {
                &&& text@ == strings_text(strings.deep_view())
                &&& parsed_strings(text@) == Some(strings.deep_view())
                &&& has_value(text@)
            },
            Err(_) => false,
        },
{
    serde_json::to_string(strings)
}

/// The string member `key` of `value`, or the empty text where it has none.
pub open spec fn field_of(members: Map<Seq<char>, Seq<char>>, key: Seq<char>) -> Seq<char> {
    if members.contains_key(key) {
        members[key]
    } else {
        Seq::empty()
    }
}

/// The string member `key` of `value`, or the empty text where it has none.
pub fn field(value: &serde_json::Value, key: &str) -> (r: String)
    ensures
        r@ == field_of(text_members(*value), key@),
{
    match text_member(value, key) {
        Some(s) => s,
        None => String::new(),
    }
}

/// The tag names that `text` lists; none where it is not an array of strings.
pub open spec fn tags_of(text: Seq<char>) -> Seq<Seq<char>> {
    match parsed_strings(text) {
        Some(tags) => tags,
        None => Seq::empty(),
    }
}

/// Reads the stored form of a tag list.
pub fn read_tags(text: &str) -> (r: Vec<String>)
    ensures
        r.deep_view() == tags_of(text@),
{
    match parse_strings(text) {
        Ok(tags) => tags,
        Err(_) => Vec::new(),
    }
}

/// Writes the stored form of a tag list.
pub fn write_tags(tags: &Vec<String>) -> (r: String)
    ensures
        r@ == strings_text(tags.deep_view()),
        tags_of(r@) == tags.deep_view(),
        has_value(r@),
{
    match write_strings(tags) {
        Ok(text) => text,
        Err(_) => "[]".to_owned(),
    }
}

} // verus!
