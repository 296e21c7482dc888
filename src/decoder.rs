//! Turns a raw bus payload into a `Notification`.
use vstd::prelude::*;
use crate::notification::{classify, kind_of, DecodeError, Notification, NotificationView};

verus! {

/// The string held under `key` by the JSON object that `text` parses to;
/// `None` when `text` is not a JSON document, is not an object, lacks the
/// key, or holds something other than a string there.
pub uninterp spec fn json_string_field(text: Seq<char>, key: Seq<char>) -> Option<Seq<char>>;

pub open spec fn opt_view(o: Option<String>) -> Option<Seq<char>> {
    match o {
        Some(s) => Some(s@),
        None => None,
    }
}

/// Relies on serde_json::from_str (into serde_json::Value), Value::get and
/// Value::as_str: the string field `key` of the parsed object, if any.
#[verifier::external_body]
fn string_field(raw: &str, key: &str) -> (r: Option<String>)
    ensures
        opt_view(r) == json_string_field(raw@, key@),
{
    match serde_json::from_str::<serde_json::Value>(raw) {
        Ok(v) => v.get(key).and_then(serde_json::Value::as_str).map(String::from),
        Err(_) => None,
    }
}

/// The notification that three decoded fields make up: each of them must
/// be present; the `type` field only selects the kind.
pub open spec fn spec_from_fields(
    tag: Option<Seq<char>>,
    username: Option<Seq<char>>,
    message: Option<Seq<char>>,
) -> Result<NotificationView, DecodeError> {
    match (tag, username, message) {
        (Some(t), Some(u), Some(m)) => Ok(
            NotificationView { kind: kind_of(t), sender: u, body: m },
        ),
        _ => Err(DecodeError::Malformed),
    }
}

pub open spec fn result_view(r: Result<Notification, DecodeError>) -> Result<
    NotificationView,
    DecodeError,
> {
    match r {
        Ok(n) => Ok(n@),
        Err(e) => Err(e),
    }
}

/// What `decode` returns for the payload `text`.
pub open spec fn spec_decode(text: Seq<char>) -> Result<NotificationView, DecodeError> {
    spec_from_fields(
        json_string_field(text, seq!['t', 'y', 'p', 'e']),
        json_string_field(text, seq!['u', 's', 'e', 'r', 'n', 'a', 'm', 'e']),
        json_string_field(text, seq!['m', 'e', 's', 's', 'a', 'g', 'e']),
    )
}

/// Builds a notification from the payload's `type`, `username` and
/// `message` fields, as far as they were found.
pub fn notification_from_fields(
    tag: Option<String>,
    username: Option<String>,
    message: Option<String>,
) -> (r: Result<Notification, DecodeError>)
    ensures
        result_view(r) == spec_from_fields(opt_view(tag), opt_view(username), opt_view(message)),
{
    match (tag, username, message) {
        (Some(t), Some(u), Some(m)) => {
            let kind = classify(t.as_str());
            Ok(Notification { kind, sender: u, body: m })
        },
        _ => Err(DecodeError::Malformed),
    }
}

/// Decodes a bus payload. Never fails on an unrecognised `type`: that
/// decodes to `NotificationKind::Unknown`.
pub fn decode(raw: &str) -> (r: Result<Notification, DecodeError>)
    ensures
        result_view(r) == spec_decode(raw@),
{
    proof {
        reveal_strlit("type");
        reveal_strlit("username");
        reveal_strlit("message");
        assert("type"@ =~= seq!['t', 'y', 'p', 'e']);
        assert("username"@ =~= seq!['u', 's', 'e', 'r', 'n', 'a', 'm', 'e']);
        assert("message"@ =~= seq!['m', 'e', 's', 's', 'a', 'g', 'e']);
    }
    let tag = string_field(raw, "type");
    let username = string_field(raw, "username");
    let message = string_field(raw, "message");
    notification_from_fields(tag, username, message)
}

} // verus!
