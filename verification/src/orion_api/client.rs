//! The rules of the Orion API client: where requests go and how failures read.

use vstd::prelude::*;

use crate::text::{decimal, u64_to_decimal};

verus! {

/// The base URL of the Orion API.
pub const BASE_URL: &'static str = "https://api.orionhost.xyz";

/// Errors of the Orion API client.
#[derive(Debug)]
pub enum OrionError {
    /// The API answered with a failure status, and maybe a message.
    Api { status: u16, message: Option<String> },
    /// The request itself failed, with this text.
    Http(String),
}

/// The URL of an API path: `{base}/api/{path}`.
pub open spec fn api_url_of(base: Seq<char>, path: Seq<char>) -> Seq<char> {
    base + "/api/"@ + path
}

/// Gets the URL of an API path.
pub fn api_url(base: &str, path: &str) -> (res: String)
    ensures
        res@ == api_url_of(base@, path@),
{
    String::from_str(base).concat("/api/").concat(path)
}

/// The path of a user: `users/{discord_id}`.
pub fn user_path(discord_id: &str) -> (res: String)
    ensures
        res@ == "users/"@ + discord_id@,
{
    String::from_str("users/").concat(discord_id)
}

/// The path of a user's credit transactions: `users/{discord_id}/credits`.
pub fn credits_path(discord_id: &str) -> (res: String)
    ensures
        res@ == "users/"@ + discord_id@ + "/credits"@,
{
    String::from_str("users/").concat(discord_id).concat("/credits")
}

/// The `message` string of a JSON object body, as serde_json reads it: none
/// when the body is not JSON, or has no `message`, or its `message` is not a string.
pub uninterp spec fn json_message_field(body: Seq<char>) -> Option<Seq<char>>;

/// serde_json's `from_str` into a `Value`, then its `message` member as a string.
#[verifier::external_body]
fn json_message(body: &str) -> (res: Option<String>)
    ensures
        match res {
            Some(m) => json_message_field(body@) == Some(m@),
            None => json_message_field(body@) is None,
        },
{
    serde_json::from_str::<serde_json::Value>(body).ok().and_then(|v| v.get("message").and_then(|m| m.as_str()).map(str::to_owned))
}

/// The error for a failed answer of the API: its status, and the `message` of
/// its JSON body when there is one.
pub fn error_from_response(status: u16, body: &str) -> (res: OrionError)
    ensures
        res matches OrionError::Api { status: s, message } && s == status && match message {
            Some(m) => json_message_field(body@) == Some(m@),
            None => json_message_field(body@) is None,
        },
{
    OrionError::Api { status, message: json_message(body) }
}

/// The text of an Orion error (its `Display`).
pub open spec fn orion_error_text(e: OrionError) -> Seq<char> {
    match e {
        OrionError::Api { status, message } => "API error "@ + decimal(status as nat) + match message {
            Some(m) => ": "@ + m@,
            None => Seq::empty(),
        },
        OrionError::Http(msg) => "HTTP error: "@ + msg@,
    }
}

impl OrionError {
    /// The text of the error.
    pub fn to_text(&self) -> (res: String)
        ensures
            res@ == orion_error_text(*self),
    {
        match self {
            OrionError::Api { status, message } => {
                let head = String::from_str("API error ").concat(u64_to_decimal(*status as u64).as_str());
                match message {
                    Some(m) => head.concat(": ").concat(m.as_str()),
                    None => {
                        assert(head@ + Seq::<char>::empty() =~= head@);
                        head
                    },
                }
            },
            OrionError::Http(msg) => String::from_str("HTTP error: ").concat(msg.as_str()),
        }
    }

    /// The API said that the resource does not exist.
    pub fn is_not_found(&self) -> (res: bool)
        ensures
            res == (*self matches OrionError::Api { status, .. } && status == 404),
    {
        match self {
            OrionError::Api { status, .. } => *status == 404,
            OrionError::Http(_) => false,
        }
    }
}

} // verus!
