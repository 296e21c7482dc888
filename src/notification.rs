//! Decoded notifications and the classification of their `type` field.
use vstd::prelude::*;

verus! {

/// Wire value of `type` that marks a chat message.
pub open spec fn chat_tag() -> Seq<char> {
    seq!['r', 'e', 'a', 'd', 'C', 'h', 'a', 't']
}

/// Wire value of `type` that marks a screen-shake effect.
pub open spec fn shake_tag() -> Seq<char> {
    seq!['s', 'h', 'a', 'k', 'e']
}

#[derive(Clone, Copy, Debug, PartialEq, Eq, Structural)]
pub enum NotificationKind {
    ChatMessage,
    ShakeEffect,
    Unknown,
}

/// The kind that a `type` value stands for; every value has one.
pub open spec fn kind_of(tag: Seq<char>) -> NotificationKind {
    if tag == chat_tag() {
        NotificationKind::ChatMessage
    } else if tag == shake_tag() {
        NotificationKind::ShakeEffect
    } else {
        NotificationKind::Unknown
    }
}

/// A decoded bus message.
#[derive(Clone, Debug, PartialEq, Eq)]
pub struct Notification {
    pub kind: NotificationKind,
    pub sender: String,
    pub body: String,
}

/// What a notification holds, as mathematical values.
pub struct NotificationView {
    pub kind: NotificationKind,
    pub sender: Seq<char>,
    pub body: Seq<char>,
}

impl View for Notification {
    type V = NotificationView;

    open spec fn view(&self) -> NotificationView {
        NotificationView { kind: self.kind, sender: self.sender@, body: self.body@ }
    }
}

#[derive(Clone, Copy, Debug, PartialEq, Eq, Structural)]
pub enum DecodeError {
    /// The payload is not a record with string fields `type`, `username`
    /// and `message`.
    Malformed,
}

/// Whether two strings hold the same characters.
pub(crate) fn same_text(a: &str, b: &str) -> (r: bool)
    ensures
        r == (a@ == b@),
{
    String::from_str(a) == String::from_str(b)
}

/// Maps a `type` value to its kind; unrecognised values map to `Unknown`.
pub fn classify(tag: &str) -> (r: NotificationKind)
    ensures
        r == kind_of(tag@),
{
    proof {
        reveal_strlit("readChat");
        reveal_strlit("shake");
        assert("readChat"@ =~= chat_tag());
        assert("shake"@ =~= shake_tag());
    }
    if same_text(tag, "readChat") {
        NotificationKind::ChatMessage
    } else if same_text(tag, "shake") {
        NotificationKind::ShakeEffect
    } else {
        NotificationKind::Unknown
    }
}

} // verus!
