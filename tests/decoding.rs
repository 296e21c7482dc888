use chat_notifier::decoder::{decode, notification_from_fields};
use chat_notifier::notification::{classify, DecodeError, Notification, NotificationKind};

#[test]
fn decode_chat_payload() {
    let n = decode(r#"{"type":"readChat","username":"alice","message":"HELLO"}"#).unwrap();
    assert_eq!(
        n,
        Notification {
            kind: NotificationKind::ChatMessage,
            sender: "alice".to_string(),
            body: "HELLO".to_string(),
        }
    );
}

#[test]
fn decode_shake_payload() {
    let n = decode(r#"{"type":"shake","username":"bob","message":""}"#).unwrap();
    assert_eq!(n.kind, NotificationKind::ShakeEffect);
    assert_eq!(n.sender, "bob");
}

#[test]
fn decode_unknown_type_is_not_an_error() {
    let n = decode(r#"{"type":"dance","username":"bob","message":"hi"}"#).unwrap();
    assert_eq!(n.kind, NotificationKind::Unknown);
}

#[test]
fn decode_ignores_extra_fields() {
    let n = decode(r#"{"extra":1,"type":"readChat","username":"c","message":"m"}"#).unwrap();
    assert_eq!(n.kind, NotificationKind::ChatMessage);
    assert_eq!(n.body, "m");
}

#[test]
fn decode_rejects_malformed_payloads() {
    let bad = [
        "",
        "not json",
        "{}",
        "[1,2,3]",
        r#"{"type":"readChat","username":"a"}"#,
        r#"{"type":"readChat","message":"m"}"#,
        r#"{"username":"a","message":"m"}"#,
        r#"{"type":7,"username":"a","message":"m"}"#,
        r#"{"type":"readChat","username":"a","message":"m""#,
    ];
    for raw in bad.iter() {
        assert_eq!(decode(raw), Err(DecodeError::Malformed), "payload {}", raw);
    }
}

#[test]
fn fields_make_a_notification() {
    let n = notification_from_fields(
        Some("readChat".to_string()),
        Some("u".to_string()),
        Some("b".to_string()),
    );
    assert_eq!(n.unwrap().kind, NotificationKind::ChatMessage);
    let missing = notification_from_fields(Some("readChat".to_string()), None, Some("b".to_string()));
    assert_eq!(missing, Err(DecodeError::Malformed));
}

#[test]
fn classify_tags() {
    assert_eq!(classify("readChat"), NotificationKind::ChatMessage);
    assert_eq!(classify("shake"), NotificationKind::ShakeEffect);
    assert_eq!(classify("readchat"), NotificationKind::Unknown);
    assert_eq!(classify(""), NotificationKind::Unknown);
    assert_eq!(classify("shakes"), NotificationKind::Unknown);
}
