//! The JSON codec, as far as the wire format needs it.
//!
//! Parsing and escaping are `serde_json`'s. What each call returns is a
//! function of the text handed to it; the functions below name those results
//! so that the codecs built on them can say exactly what they produce.

use vstd::prelude::*;

verus! {

/// `serde_json::Error`, carried from the codec to the place that reports it.
#[verifier::external_type_specification]
#[verifier::external_body]
pub struct ExJsonError(serde_json::Error);

/// The raw text of each element of a JSON array, in order; `None` when the
/// text is not a JSON array.
pub uninterp spec fn array_elements(text: Seq<char>) -> Option<Seq<Seq<char>>>;

/// The members of a JSON object as pairs of key and raw value text; `None`
/// when the text is not a JSON object.
pub uninterp spec fn object_members(text: Seq<char>) -> Option<Seq<(Seq<char>, Seq<char>)>>;

/// The content of a JSON string; `None` when the text is not a JSON string.
pub uninterp spec fn string_value(text: Seq<char>) -> Option<Seq<char>>;

/// The value of a JSON number that is an integer of 32 bits; `None` for any
/// other text.
pub uninterp spec fn integer_value(text: Seq<char>) -> Option<int>;

/// The JSON string literal that stands for a piece of text; `None` when the
/// encoder fails.
pub uninterp spec fn quoted_text(text: Seq<char>) -> Option<Seq<char>>;

/// The JSON array of strings that stands for a list of texts; `None` when
/// the encoder fails.
pub uninterp spec fn string_array_text(items: Seq<Seq<char>>) -> Option<Seq<char>>;

/// The list of texts that a JSON array of strings holds; `None` when the
/// text is not such an array.
pub uninterp spec fn string_array_value(text: Seq<char>) -> Option<Seq<Seq<char>>>;

/// `serde_json::from_str` at a list of raw values: the elements of a JSON
/// array, each as the text it was written with. The outcome depends on the
/// text alone; nothing more is claimed.
#[verifier::external_body]
pub(crate) fn split_array(text: &str) -> (outcome: Result<Vec<String>, serde_json::Error>)
    ensures
        match outcome {
            Ok(items) => array_elements(text@) == Some(items.deep_view()),
            Err(_) => array_elements(text@) is None,
        },
{
    let items = serde_json::from_str::<Vec<Box<serde_json::value::RawValue>>>(text)?;
    Ok(items.iter().map(|item| item.get().to_string()).collect())
}

/// `serde_json::from_str` at a map of raw values: the members of a JSON
/// object, each value as the text it was written with. The outcome depends
/// on the text alone; nothing more is claimed.
#[verifier::external_body]
pub(crate) fn split_object(text: &str) -> (outcome: Result<
    Vec<(String, String)>,
    serde_json::Error,
>)
    ensures
        match outcome {
            Ok(members) => object_members(text@) == Some(members.deep_view()),
            Err(_) => object_members(text@) is None,
        },
{
    let members = serde_json::from_str::<
        std::collections::BTreeMap<String, Box<serde_json::value::RawValue>>,
    >(text)?;
    Ok(members.into_iter().map(|(key, value)| (key, value.get().to_string())).collect())
}

/// `serde_json::from_str` at `String`. The outcome depends on the text
/// alone; nothing more is claimed.
#[verifier::external_body]
pub(crate) fn parse_string(text: &str) -> (outcome: Result<String, serde_json::Error>)
    ensures
        match outcome {
            Ok(content) => string_value(text@) == Some(content@),
            Err(_) => string_value(text@) is None,
        },
{
    serde_json::from_str::<String>(text)
}

/// `serde_json::from_str` at `i32`. The outcome depends on the text alone;
/// nothing more is claimed.
#[verifier::external_body]
pub(crate) fn parse_integer(text: &str) -> (outcome: Result<i32, serde_json::Error>)
    ensures
        match outcome {
            Ok(number) => integer_value(text@) == Some(number as int),
            Err(_) => integer_value(text@) is None,
        },
{
    serde_json::from_str::<i32>(text)
}

/// `serde_json::to_string` at `str`: the text as a JSON string literal.
/// The outcome depends on the text alone; nothing more is claimed.
#[verifier::external_body]
pub(crate) fn quote(text: &str) -> (outcome: Result<String, serde_json::Error>)
    ensures
        match outcome {
            Ok(literal) => quoted_text(text@) == Some(literal@),
            Err(_) => quoted_text(text@) is None,
        },
{
    serde_json::to_string(text)
}

/// `serde_json::to_string` at a list of strings. The outcome depends on the
/// list alone; nothing more is claimed.
#[verifier::external_body]
pub(crate) fn encode_strings(items: &Vec<String>) -> (outcome: Result<String, serde_json::Error>)
    ensures
        match outcome {
            Ok(text) => string_array_text(items.deep_view()) == Some(text@),
            Err(_) => string_array_text(items.deep_view()) is None,
        },
{
    serde_json::to_string(items)
}

/// `serde_json::from_str` at a list of strings. The outcome depends on the
/// text alone; nothing more is claimed.
#[verifier::external_body]
pub(crate) fn decode_strings(text: &str) -> (outcome: Result<Vec<String>, serde_json::Error>)
    ensures
        match outcome {
            Ok(items) => string_array_value(text@) == Some(items.deep_view()),
            Err(_) => string_array_value(text@) is None,
        },
{
    serde_json::from_str::<Vec<String>>(text)
}

/// The message of a `serde_json::Error`, through its `Display`. Nothing is
/// claimed of the text.
#[verifier::external_body]
pub(crate) fn describe(error: &serde_json::Error) -> String {
    error.to_string()
}

} // verus!
