use chat_notifier::dispatcher::{Action, Dispatcher, Visibility, HIDE_DELAY_MS};
use chat_notifier::listener::{channel_name, BusListener};
use chat_notifier::notification::{DecodeError, Notification, NotificationKind};

fn chat(sender: &str, body: &str) -> Notification {
    Notification {
        kind: NotificationKind::ChatMessage,
        sender: sender.to_string(),
        body: body.to_string(),
    }
}

fn count(acts: &[Action], a: &Action) -> usize {
    acts.iter().filter(|x| *x == a).count()
}

#[test]
fn scenario_alice_hello() {
    let mut l = BusListener::new();
    let acts = l
        .on_payload(r#"{"type":"readChat","username":"alice","message":"HELLO"}"#, 1000)
        .unwrap();
    assert_eq!(
        acts,
        vec![
            Action::EmitToUi { sender: "alice".to_string(), body: "HELLO".to_string() },
            Action::Speak { text: "hello".to_string() },
            Action::MoveTopRight,
            Action::Show,
            Action::Focus,
            Action::ArmHideTimer { token: 0, delay_ms: 10000 },
        ]
    );
    assert_eq!(l.dispatcher.visibility, Visibility::Visible { since_ms: 1000, token: 0 });
    assert_eq!(l.dispatcher.on_hide_timer(0), vec![Action::Hide]);
    assert_eq!(l.dispatcher.visibility, Visibility::Hidden);
}

#[test]
fn listener_survives_malformed_messages() {
    let mut l = BusListener::new();
    for i in 0..20u64 {
        assert_eq!(l.on_payload("{ broken", i), Err(DecodeError::Malformed));
        assert!(l.ready());
        assert_eq!(l.dispatcher.visibility, Visibility::Hidden);
    }
    let acts = l.on_payload(r#"{"type":"readChat","username":"a","message":"x"}"#, 50).unwrap();
    assert_eq!(count(&acts, &Action::Show), 1);
    assert!(l.dispatcher.is_visible());
}

#[test]
fn unknown_type_does_nothing() {
    let mut l = BusListener::new();
    l.on_payload(r#"{"type":"readChat","username":"a","message":"x"}"#, 0).unwrap();
    let before = l.dispatcher.visibility;
    let acts = l.on_payload(r#"{"type":"wave","username":"a","message":"x"}"#, 10).unwrap();
    assert!(acts.is_empty());
    assert_eq!(l.dispatcher.visibility, before);
    assert_eq!(l.dispatcher.next_token, 1);
}

#[test]
fn burst_hides_once_after_last_message() {
    let mut d = Dispatcher::new();
    let mut hides = 0;
    d.handle(&chat("a", "one"), 0);
    d.handle(&chat("a", "two"), 5000);
    // the first message's timer fires after the second message
    hides += count(&d.on_hide_timer(0), &Action::Hide);
    assert!(d.is_visible());
    d.handle(&chat("a", "three"), 9000);
    hides += count(&d.on_hide_timer(1), &Action::Hide);
    assert!(d.is_visible());
    assert_eq!(hides, 0);
    hides += count(&d.on_hide_timer(2), &Action::Hide);
    assert_eq!(hides, 1);
    assert_eq!(d.visibility, Visibility::Hidden);
    for t in 0..3u64 {
        assert!(d.on_hide_timer(t).is_empty());
    }
}

#[test]
fn single_message_shows_and_hides_once() {
    let mut d = Dispatcher::new();
    let acts = d.handle(&chat("a", "hi"), 200);
    assert_eq!(count(&acts, &Action::Show), 1);
    assert_eq!(count(&acts, &Action::ArmHideTimer { token: 0, delay_ms: HIDE_DELAY_MS }), 1);
    assert_eq!(HIDE_DELAY_MS, 10000);
    assert_eq!(d.on_hide_timer(0), vec![Action::Hide]);
    assert!(d.on_hide_timer(0).is_empty());
}

#[test]
fn shake_does_not_touch_visibility() {
    let shake = Notification {
        kind: NotificationKind::ShakeEffect,
        sender: "s".to_string(),
        body: String::new(),
    };
    let mut d = Dispatcher::new();
    assert_eq!(d.handle(&shake, 1), vec![Action::Shake, Action::PlayCue]);
    assert_eq!(d.visibility, Visibility::Hidden);
    d.handle(&chat("a", "b"), 2);
    let before = d.visibility;
    assert_eq!(d.handle(&shake, 3), vec![Action::Shake, Action::PlayCue]);
    assert_eq!(d.visibility, before);
    assert_eq!(d.next_token, 1);
}

#[test]
fn speech_failure_does_not_block_emission() {
    let mut d = Dispatcher::new();
    let acts = d.handle(&chat("sam", "hello"), 0);
    assert_eq!(acts[0], Action::EmitToUi { sender: "sam".to_string(), body: "hello".to_string() });
    assert_eq!(acts[1], Action::Speak { text: "hello".to_string() });
    // a failed speech task reports nothing back; the window flow goes on
    assert_eq!(d.on_hide_timer(0), vec![Action::Hide]);
}

#[test]
fn repeated_show_is_coherent() {
    let mut d = Dispatcher::new();
    d.handle(&chat("a", "x"), 100);
    let acts = d.handle(&chat("a", "y"), 100);
    assert_eq!(count(&acts, &Action::CancelHideTimer { token: 0 }), 1);
    assert_eq!(d.visibility, Visibility::Visible { since_ms: 100, token: 1 });
    assert!(d.on_hide_timer(0).is_empty());
    assert!(d.is_visible());
}

#[test]
fn read_error_stops_the_loop() {
    let mut l = BusListener::new();
    l.on_payload(r#"{"type":"readChat","username":"a","message":"x"}"#, 0).unwrap();
    l.on_read_error();
    assert!(!l.ready());
    assert!(l.dispatcher.is_visible());
}

#[test]
fn listens_on_read_chat_channel() {
    assert_eq!(channel_name(), "readChat");
}

#[test]
fn speech_text_is_lower_cased() {
    let mut d = Dispatcher::new();
    let acts = d.handle(&chat("a", "ÉCOLE Mixed"), 0);
    assert_eq!(acts[1], Action::Speak { text: "école mixed".to_string() });
}
