use chat_notifier::shake::{frame_delay_ms, shake_iterations, ShakeFrame, ShakeTracker};
use chat_notifier::speech::{encode_fragment, tts_url, tts_url_from_encoded, EffectError};
use chat_notifier::tray::{tray_command, TrayCommand, TrayEvent};

#[test]
fn tts_url_encodes_spaces_and_counts_bytes() {
    assert_eq!(
        tts_url("hello world"),
        "https://translate.google.fr/translate_tts?ie=UTF-8&q=hello%20world&tl=ar&total=1&idx=0&textlen=11&tl=ar&client=tw-ob&ttsspeed=1"
    );
}

#[test]
fn tts_url_counts_utf8_bytes() {
    let url = tts_url("é");
    assert!(url.contains("q=%C3%A9&"));
    assert!(url.contains("textlen=2&"));
}

#[test]
fn tts_url_from_encoded_text() {
    assert_eq!(
        tts_url_from_encoded("a%20b", 3),
        "https://translate.google.fr/translate_tts?ie=UTF-8&q=a%20b&tl=ar&total=1&idx=0&textlen=3&tl=ar&client=tw-ob&ttsspeed=1"
    );
    assert!(tts_url_from_encoded("", 0).contains("q=&tl=ar&total=1&idx=0&textlen=0&"));
}

#[test]
fn fragment_set_is_escaped() {
    assert_eq!(encode_fragment("a<b>\"`c d"), "a%3Cb%3E%22%60c%20d");
    assert_eq!(encode_fragment("\n\x7f"), "%0A%7F");
    assert_eq!(encode_fragment("ok?&=#/"), "ok?&=#/");
    assert_eq!(encode_fragment(""), "");
}

#[test]
fn effect_errors_describe_themselves() {
    assert_eq!(EffectError::SynthesisFailed.describe(), "speech synthesis failed");
    assert_eq!(EffectError::PlaybackFailed.describe(), "audio playback failed");
}

#[test]
fn shake_timing() {
    assert_eq!(shake_iterations(), 800);
    assert_eq!(frame_delay_ms(), 10);
}

#[test]
fn shake_resets_a_drifted_axis() {
    let mut t = ShakeTracker { farx: 130, fary: -20 };
    let f = t.next_frame(5, -7);
    assert_eq!(f, ShakeFrame { dx: -130, dy: -7, reset_x: true, reset_y: false });
    assert_eq!(t, ShakeTracker { farx: 0, fary: -27 });
    let mut u = ShakeTracker { farx: 120, fary: -121 };
    let g = u.next_frame(-60, 59);
    assert_eq!(g, ShakeFrame { dx: -60, dy: 121, reset_x: false, reset_y: true });
}

#[test]
fn random_shake_stays_bounded() {
    let mut t = ShakeTracker::new();
    for _ in 0..shake_iterations() {
        let f = t.random_frame();
        if !f.reset_x {
            assert!((-60..60).contains(&f.dx));
        }
        if !f.reset_y {
            assert!((-60..60).contains(&f.dy));
        }
        assert!(t.farx.abs() <= 180 && t.fary.abs() <= 180);
    }
}

#[test]
fn tray_events() {
    assert_eq!(tray_command(&TrayEvent::LeftClick), TrayCommand::ShowWindow);
    assert_eq!(tray_command(&TrayEvent::DoubleClick), TrayCommand::ShowWindow);
    assert_eq!(tray_command(&TrayEvent::MenuItem { id: "quit".to_string() }), TrayCommand::Quit);
    assert_eq!(tray_command(&TrayEvent::MenuItem { id: "hide".to_string() }), TrayCommand::HideWindow);
    assert_eq!(tray_command(&TrayEvent::MenuItem { id: "show".to_string() }), TrayCommand::ShowWindow);
    assert_eq!(tray_command(&TrayEvent::MenuItem { id: "other".to_string() }), TrayCommand::Nothing);
    assert_eq!(tray_command(&TrayEvent::Other), TrayCommand::Nothing);
}
