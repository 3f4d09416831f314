//! The JSON values and text that the library hands to serde_json and reads back.
use vstd::prelude::*;
use crate::error::string_views;

verus! {

#[verifier::external_type_specification]
#[verifier::external_body]
pub struct ExValue(serde_json::Value);

#[verifier::external_type_specification]
#[verifier::external_body]
pub struct ExJsonError(serde_json::Error);

/// The text that serde_json writes for an object whose members are the given
/// key/value pairs, each value a JSON string.
pub uninterp spec fn json_object_text(entries: Seq<(Seq<char>, Seq<char>)>) -> Seq<char>;

/// The plain views of a list of key/value string pairs.
pub open spec fn pairs_view(entries: Seq<(String, String)>) -> Seq<(Seq<char>, Seq<char>)> {
    entries.map_values(|e: (String, String)| (e.0@, e.1@))
}

/// Whether serde_json reads `text` as a JSON document.
pub uninterp spec fn is_json(text: Seq<char>) -> bool;

/// The members `client_token`, `lease_duration` and `renewable` of the `auth`
/// object of a login reply, as serde_json reads them from `text`: each `None`
/// where it is missing or not a string, a `u64` or a boolean.
pub uninterp spec fn login_reply_of(text: Seq<char>) -> (Option<Seq<char>>, Option<u64>, Option<bool>);

/// The `lease_duration` member of a secret reply, as serde_json reads it from
/// `text`: `None` where it is missing or not a `u64`.
pub uninterp spec fn secret_lease_of(text: Seq<char>) -> Option<u64>;

/// The `errors` member of an error reply, as serde_json reads it from `text`:
/// `None` where `text` is no JSON or the member is not a list of strings.
pub uninterp spec fn error_list_of(text: Seq<char>) -> Option<Seq<Seq<char>>>;

/// The view of an optional string.
pub open spec fn opt_view(o: Option<String>) -> Option<Seq<char>> {
    match o {
        Some(s) => Some(s@),
        None => None,
    }
}

/// Relies on serde_json::from_str, `Index<&str>` of serde_json::Value and its
/// `as_str`, `as_u64` and `as_bool`: reads the `auth` members of a login reply.
#[verifier::external_body]
pub(crate) fn login_fields(text: &str) -> (r: Result<(Option<String>, Option<u64>, Option<bool>), serde_json::Error>)
    ensures
        r is Ok <==> is_json(text@),
        r matches Ok(f) ==> (opt_view(f.0), f.1, f.2) == login_reply_of(text@),
{
    let v = serde_json::from_str::<serde_json::Value>(text)?;
    let auth = &v["auth"];
    Ok((
        auth["client_token"].as_str().map(|t| t.to_owned()),
        auth["lease_duration"].as_u64(),
        auth["renewable"].as_bool(),
    ))
}

/// Relies on serde_json::from_str, `Index<&str>` of serde_json::Value and its
/// `as_u64`: reads the lease and the `data` member (JSON null where there is
/// none) of a secret reply.
#[verifier::external_body]
pub(crate) fn secret_fields(text: &str) -> (r: Result<(Option<u64>, serde_json::Value), serde_json::Error>)
    ensures
        r is Ok <==> is_json(text@),
        r matches Ok(f) ==> f.0 == secret_lease_of(text@),
{
    let v = serde_json::from_str::<serde_json::Value>(text)?;
    Ok((v["lease_duration"].as_u64(), v["data"].clone()))
}

/// Relies on serde_json::from_str, `Index<&str>` of serde_json::Value and
/// serde_json::from_value: reads the `errors` member of an error reply as a
/// list of strings.
#[verifier::external_body]
pub(crate) fn error_list(text: &str) -> (r: Result<Vec<String>, serde_json::Error>)
    ensures
        r is Ok <==> error_list_of(text@) is Some,
        r matches Ok(es) ==> error_list_of(text@) == Some(string_views(es@)),
{
    let v = serde_json::from_str::<serde_json::Value>(text)?;
    serde_json::from_value::<Vec<String>>(v["errors"].clone())
}

/// Relies on the `Display` of serde_json::Value to write an object of string
/// members as compact JSON text.
#[verifier::external_body]
pub(crate) fn object_text(entries: &Vec<(String, String)>) -> (r: String)
    ensures
        r@ == json_object_text(pairs_view(entries@)),
{
    let members: serde_json::Map<String, serde_json::Value> = entries
        .iter()
        .map(|(k, v)| (k.clone(), serde_json::Value::String(v.clone())))
        .collect();
    serde_json::Value::Object(members).to_string()
}

} // verus!
