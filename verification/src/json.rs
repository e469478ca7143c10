//! The replies of the command surface, rendered as JSON text.

use vstd::prelude::*;
use crate::discovery::string_views;
use crate::error::Error;

verus! {

/// The JSON text that `serde_json::to_string` makes of a list of strings.
pub uninterp spec fn spec_json_strings(texts: Seq<Seq<char>>) -> Seq<char>;

/// The JSON text of a boolean.
pub open spec fn spec_json_bool(value: bool) -> Seq<char> {
    if value {
        "true"@
    } else {
        "false"@
    }
}

/// Calls `serde_json::to_string` on a list of strings. The serializer writes into memory
/// and a list of strings gives it nothing to object to, so a text always comes back: the
/// JSON array of the strings. The error it could return by its type would come back as
/// its message.
#[verifier::external_body]
fn strings_to_json(texts: &Vec<String>) -> (out: Result<String, String>)
    ensures
        out is Ok,
        out->Ok_0@ == spec_json_strings(string_views(texts@)),
{
    serde_json::to_string(texts).map_err(|e| e.to_string())
}

/// Calls `serde_json::to_string` on a boolean. The serializer writes into memory and a
/// boolean gives it nothing to object to, so a text always comes back: `true` or `false`.
/// The error it could return by its type would come back as its message.
#[verifier::external_body]
fn bool_to_json(value: bool) -> (out: Result<String, String>)
    ensures
        out is Ok,
        out->Ok_0@ == spec_json_bool(value),
{
    serde_json::to_string(&value).map_err(|e| e.to_string())
}

/// Makes the reply of a command out of what the serializer returned: the text as it is,
/// or a serialization error with the serializer's message.
pub fn reply_of(rendered: Result<String, String>) -> (reply: Result<String, Error>)
    ensures
        match rendered {
            Ok(text) => reply == Ok::<String, Error>(text),
            Err(message) => reply == Err::<String, Error>(Error::SerdeError(message)),
        },
{
    match rendered {
        Ok(text) => Ok(text),
        Err(message) => Err(Error::SerdeError(message)),
    }
}

/// The reply that lists the paths of the locked wallets: always a text, the JSON array of
/// the paths in their order.
pub fn paths_reply(paths: &Vec<String>) -> (reply: Result<String, Error>)
    ensures
        reply matches Ok(text) && text@ == spec_json_strings(string_views(paths@)),
{
    reply_of(strings_to_json(paths))
}

/// The reply that says whether a wallet took the PIN: always a text, the JSON boolean
/// `true` or `false`.
pub fn unlocked_reply(unlocked: bool) -> (reply: Result<String, Error>)
    ensures
        reply matches Ok(text) && text@ == spec_json_bool(unlocked),
{
    reply_of(bool_to_json(unlocked))
}

} // verus!
