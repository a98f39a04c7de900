//! Trusted declaration for reading the summary field out of a tool call's
//! JSON arguments.

use vstd::prelude::*;

verus! {

/// The string under the `message` key of the JSON object that `args`
/// denotes, or `None` when `args` is not valid JSON, not an object, or
/// carries no string there.  What this is on given text is a function of
/// the text alone; no contract says what it is on any value, so concrete
/// text reaches the logic only through the verified functions that take the
/// extracted field as an argument.
pub uninterp spec fn message_field_of(args: Seq<char>) -> Option<Seq<char>>;

/// Relies on `serde_json::from_str`, `serde_json::Value::get` and
/// `serde_json::Value::as_str`: parses the arguments and reads the string
/// under the `message` key; each is a function of the text alone, and none
/// panics on any input.
#[verifier::external_body]
pub(crate) fn extract_message_field(args: &str) -> (r: Option<String>)
    ensures
        r is Some <==> message_field_of(args@) is Some,
        r matches Some(m) ==> m@ == message_field_of(args@)->0,
{
    let value: serde_json::Value = serde_json::from_str(args).ok()?;
    Some(value.get("message")?.as_str()?.to_owned())
}

} // verus!
