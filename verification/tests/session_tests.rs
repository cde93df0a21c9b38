use vrc_companion::config::Config;
use vrc_companion::integrations::auto_input::AutoInput;
use vrc_companion::session::{
    device_choices, device_for_index, device_index, ReplyAction, Session, Switch,
    TranscriptionMessage, TranscriptionOutcome,
};
use vrc_companion::steamvr::OverlayAction;

fn session() -> Session {
    Session::new(Config::default())
}

#[test]
fn overlay_toggles_keep_pairs_exclusive() {
    let mut s = session();
    assert!(!s.apply_overlay_action(OverlayAction::ToggleVrchat));
    assert!(s.config.vrchat_enabled);
    assert!(!s.apply_overlay_action(OverlayAction::ToggleAutoInput));
    assert!(s.config.auto_input_enabled);
    assert!(!s.config.vrchat_enabled);
    assert!(!s.apply_overlay_action(OverlayAction::ToggleAutoInput));
    assert!(!s.config.auto_input_enabled);
    assert!(!s.config.vrchat_enabled);

    s.apply_overlay_action(OverlayAction::ToggleEliza);
    s.apply_overlay_action(OverlayAction::ToggleAutoTranslate);
    assert!(s.config.auto_translate_enabled);
    assert!(!s.config.eliza_enabled);

    assert!(s.config.clipboard_enabled);
    s.apply_overlay_action(OverlayAction::ToggleClipboard);
    assert!(!s.config.clipboard_enabled);
    s.apply_overlay_action(OverlayAction::ToggleClipboard);
    assert!(s.config.clipboard_enabled);

    s.apply_overlay_action(OverlayAction::ToggleAutoInputSendEnter);
    assert!(s.config.auto_input_send_enter);
    s.apply_overlay_action(OverlayAction::ToggleElizaResponseToVrchat);
    assert!(s.config.eliza_response_to_vrchat_enabled);
    assert!(s.apply_overlay_action(OverlayAction::CallQvPen));
}

#[test]
fn desktop_switches() {
    let mut s = session();
    s.set_switch(Switch::AutoInput, true);
    s.set_switch(Switch::Vrchat, true);
    assert!(s.config.vrchat_enabled && !s.config.auto_input_enabled);
    s.set_switch(Switch::Vrchat, false);
    assert!(!s.config.vrchat_enabled && !s.config.auto_input_enabled);
    s.set_switch(Switch::AutoTranslate, true);
    s.set_switch(Switch::Eliza, true);
    assert!(s.config.eliza_enabled && !s.config.auto_translate_enabled);
}

#[test]
fn recording_lifecycle() {
    let mut s = session();
    assert!(s.toggle_recording());
    assert!(s.is_recording);
    assert_eq!(s.status_message, "Recording... Speak now!");
    assert!(!s.recording_started());
    assert_eq!(
        s.status_message,
        "Recording... (Set xAI API key in Settings to enable transcription)"
    );
    assert!(!s.is_transcribing);
    assert!(!s.toggle_recording());
    assert!(!s.is_recording);
    assert_eq!(s.status_message, "Recording stopped.");

    s.config.xai_api_key = "key".to_string();
    s.start_recording();
    assert!(s.recording_started());
    assert!(s.is_transcribing);
    s.stop_recording();
    assert_eq!(s.status_message, "Transcribing...");

    let mut s = session();
    s.start_recording();
    s.recording_failed("no device");
    assert!(!s.is_recording);
    assert_eq!(s.status_message, "Error: no device");
}

#[test]
fn mute_trigger_and_silence() {
    let mut s = session();
    assert!(s.on_mute_trigger());
    assert!(s.is_recording);
    assert!(!s.on_mute_trigger());
    assert!(!s.on_silence(false));
    assert!(s.is_recording);
    assert!(s.on_silence(true));
    assert!(!s.is_recording);
    assert!(!s.on_silence(true));

    s.is_transcribing = true;
    assert!(!s.on_mute_trigger());
    assert!(!s.is_recording);
}

#[test]
fn transcription_dispatch_follows_settings() {
    let mut s = session();
    s.config.vrchat_enabled = true;
    s.config.auto_translate_enabled = true;
    s.config.translate_lang_preset = "CN".to_string();
    s.is_transcribing = true;
    let d = s.on_transcription_success("やあ".to_string());
    assert_eq!(s.transcribed_text, "やあ");
    assert_eq!(s.status_message, "Transcription completed!");
    assert!(!s.is_transcribing);
    assert_eq!(d.clipboard_text, Some("やあ".to_string()));
    assert_eq!(d.vrchat_message, Some("> やあ".to_string()));
    assert_eq!(d.eliza_text, None);
    let t = d.translation.unwrap();
    assert_eq!(t.source_lang, "日本語");
    assert_eq!(t.target_lang, "中国語");
    assert_eq!(t.text, "やあ");
    assert_eq!(d.auto_input, None);

    let mut s = session();
    s.config.clipboard_enabled = false;
    s.config.auto_input_enabled = true;
    s.config.auto_input_send_enter = true;
    s.config.eliza_enabled = true;
    let d = s.on_transcription_success("hi".to_string());
    assert_eq!(d.clipboard_text, None);
    assert_eq!(d.eliza_text, Some("hi".to_string()));
    assert!(d.translation.is_none());
    assert_eq!(d.auto_input, Some(AutoInput::TypeWithEnter("hi".to_string())));

    let mut s = session();
    s.config.vrchat_enabled = true;
    s.config.eliza_enabled = true;
    s.config.auto_input_enabled = true;
    let d = s.on_transcription_success(String::new());
    assert_eq!(d.clipboard_text, Some(String::new()));
    assert_eq!(d.vrchat_message, None);
    assert_eq!(d.eliza_text, None);
    assert_eq!(d.auto_input, Some(AutoInput::Paste));
}

#[test]
fn transcription_messages() {
    let mut s = session();
    s.is_transcribing = true;
    assert!(matches!(
        s.on_transcription_message(TranscriptionMessage::Partial("こん".to_string())),
        TranscriptionOutcome::Partial
    ));
    assert_eq!(s.transcribed_text, "こん");
    assert!(s.is_transcribing);
    assert!(matches!(
        s.on_transcription_message(TranscriptionMessage::Error("closed".to_string())),
        TranscriptionOutcome::Failed
    ));
    assert!(!s.is_transcribing);
    assert_eq!(s.status_message, "Transcription failed: closed");
    assert!(matches!(
        s.on_transcription_message(TranscriptionMessage::Success("こんにちは".to_string())),
        TranscriptionOutcome::Completed(_)
    ));
    assert_eq!(s.transcribed_text, "こんにちは");
}

#[test]
fn agent_replies_and_translations() {
    let mut s = session();
    assert_eq!(s.on_eliza_reply(Ok("元気だよ".to_string())), ReplyAction::Nothing);
    assert_eq!(s.eliza_response, "元気だよ");
    s.config.eliza_response_to_vrchat_enabled = true;
    assert_eq!(
        s.on_eliza_reply(Ok("うん".to_string())),
        ReplyAction::SendToVrchat("AI> うん".to_string())
    );
    assert_eq!(
        s.on_eliza_reply(Err("timeout".to_string())),
        ReplyAction::ReportError("timeout".to_string())
    );
    assert_eq!(s.eliza_response, "うん");

    assert_eq!(
        s.on_translation(Ok(("こんにちわ".to_string(), "Hello".to_string()))),
        ReplyAction::SendToVrchat("こんにちわ / Hello".to_string())
    );
    assert_eq!(s.translated_response, "Hello");
    assert_eq!(
        s.on_translation(Err("down".to_string())),
        ReplyAction::ReportError("down".to_string())
    );
    assert_eq!(s.translated_response, "Hello");
}

#[test]
fn devices_and_settings() {
    let choices = device_choices(vec!["Mic A".to_string(), "Mic B".to_string()]);
    assert_eq!(choices, vec!["デフォルト".to_string(), "Mic A".to_string(), "Mic B".to_string()]);
    assert_eq!(device_index(&choices, &None), 0);
    assert_eq!(device_index(&choices, &Some("Mic B".to_string())), 2);
    assert_eq!(device_index(&choices, &Some("Gone".to_string())), 0);
    assert_eq!(device_for_index(&choices, 0), None);
    assert_eq!(device_for_index(&choices, 1), Some("Mic A".to_string()));
    assert_eq!(device_for_index(&choices, 9), None);

    let mut s = session();
    s.apply_settings("  secret \n", "\thttp://host:1/ ", &choices, 2);
    assert_eq!(s.config.xai_api_key, "secret");
    assert_eq!(s.config.eliza_url, "http://host:1/");
    assert_eq!(s.config.input_device_name, Some("Mic B".to_string()));
    s.apply_settings("\u{3000}k\u{a0}", "", &choices, 0);
    assert_eq!(s.config.xai_api_key, "k");
    assert_eq!(s.config.eliza_url, "");
    assert_eq!(s.config.input_device_name, None);
}

#[test]
fn snapshot_mirrors_config() {
    let mut s = session();
    s.set_switch(Switch::Eliza, true);
    let snap = s.snapshot();
    assert!(snap.eliza_enabled);
    assert!(snap.clipboard_enabled);
    assert!(!snap.auto_translate_enabled);
}

#[test]
fn clicking_a_row_flips_that_row() {
    for i in 0..7 {
        let mut s = session();
        s.set_switch(Switch::Vrchat, true);
        s.set_switch(Switch::Eliza, true);
        let before = vrc_companion::steamvr::bridge::overlay_fields(&s.snapshot());
        let action = vrc_companion::steamvr::bridge::overlay_row_action(i).unwrap();
        assert!(!s.apply_overlay_action(action));
        let after = vrc_companion::steamvr::bridge::overlay_fields(&s.snapshot());
        assert_eq!(after[i].enabled, !before[i].enabled, "row {}", i);
    }
}

fn exclusive(c: &Config) -> bool {
    !(c.auto_input_enabled && c.vrchat_enabled) && !(c.eliza_enabled && c.auto_translate_enabled)
}

#[test]
fn a_busy_frame_keeps_the_pairs_exclusive() {
    let mut s = session();
    assert!(exclusive(&s.config));
    s.set_switch(Switch::AutoInput, true);
    assert!(exclusive(&s.config));
    s.apply_overlay_action(OverlayAction::ToggleVrchat);
    assert!(exclusive(&s.config));
    assert!(s.config.vrchat_enabled && !s.config.auto_input_enabled);
    s.set_switch(Switch::Eliza, true);
    s.apply_overlay_action(OverlayAction::ToggleAutoTranslate);
    assert!(exclusive(&s.config));
    assert!(s.config.auto_translate_enabled && !s.config.eliza_enabled);
    let choices = device_choices(vec!["Mic".to_string()]);
    s.apply_settings("  key ", " http://x ", &choices, 1);
    assert!(exclusive(&s.config));
    s.start_recording();
    s.on_eliza_reply(Ok("hi".to_string()));
    s.apply_overlay_action(OverlayAction::ToggleAutoInput);
    assert!(exclusive(&s.config));
    assert!(s.config.auto_input_enabled && !s.config.vrchat_enabled);
}
