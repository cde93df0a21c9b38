use vrc_companion::config::Config;
use vrc_companion::steamvr::bridge::{
    frame_feedback, next_overlay_state, overlay_fields, overlay_row_action, pointer_change,
    OverlayAction, PointerChange, SnapshotPoll,
};
use vrc_companion::steamvr::manifest::{build_manifest_json, APP_KEY};
use vrc_companion::steamvr::{start, OverlaySnapshot};

#[test]
fn test_overlay_snapshot_from_config_copies_all_fields() {
    let mut config = Config::default();
    config.clipboard_enabled = false;
    config.auto_input_enabled = true;
    config.auto_input_send_enter = true;
    config.vrchat_enabled = false;
    config.eliza_enabled = true;
    config.eliza_response_to_vrchat_enabled = true;
    config.auto_translate_enabled = false;

    let snapshot = OverlaySnapshot::from_config(&config);

    assert_eq!(snapshot.clipboard_enabled, config.clipboard_enabled);
    assert_eq!(snapshot.auto_input_enabled, config.auto_input_enabled);
    assert_eq!(snapshot.auto_input_send_enter, config.auto_input_send_enter);
    assert_eq!(snapshot.vrchat_enabled, config.vrchat_enabled);
    assert_eq!(snapshot.eliza_enabled, config.eliza_enabled);
    assert_eq!(
        snapshot.eliza_response_to_vrchat_enabled,
        config.eliza_response_to_vrchat_enabled
    );
    assert_eq!(
        snapshot.auto_translate_enabled,
        config.auto_translate_enabled
    );
}

#[test]
fn test_start_returns_none_or_some_without_panicking() {
    let snapshot = OverlaySnapshot::from_config(&Config::default());
    let _ = start(snapshot);
}

fn all_false_snapshot() -> OverlaySnapshot {
    OverlaySnapshot {
        clipboard_enabled: false,
        auto_input_enabled: false,
        auto_input_send_enter: false,
        vrchat_enabled: false,
        eliza_enabled: false,
        eliza_response_to_vrchat_enabled: false,
        auto_translate_enabled: false,
    }
}

#[test]
fn test_overlay_fields_labels_order_and_indent() {
    let fields = overlay_fields(&all_false_snapshot());
    let expected: Vec<(&str, bool)> = vec![
        ("Copy to clipboard", false),
        ("Input to active window", false),
        ("Send Enter after input", true),
        ("Input to VRChat", false),
        ("自動翻訳 by Eliza", false),
        ("お話 with Eliza", false),
        ("Send Eliza's response to VRChat", true),
    ];
    assert_eq!(fields.len(), expected.len());
    for (field, (label, indent)) in fields.iter().zip(expected.iter()) {
        assert_eq!(field.label, *label);
        assert_eq!(field.indent, *indent);
    }
}

#[test]
fn test_overlay_fields_reflects_each_snapshot_flag_independently() {
    let setters: Vec<(fn(&mut OverlaySnapshot), usize)> = vec![
        (|s| s.clipboard_enabled = true, 0),
        (|s| s.auto_input_enabled = true, 1),
        (|s| s.auto_input_send_enter = true, 2),
        (|s| s.vrchat_enabled = true, 3),
        (|s| s.auto_translate_enabled = true, 4),
        (|s| s.eliza_enabled = true, 5),
        (|s| s.eliza_response_to_vrchat_enabled = true, 6),
    ];

    for (set_flag, expected_index) in setters {
        let mut snapshot = all_false_snapshot();
        set_flag(&mut snapshot);
        let fields = overlay_fields(&snapshot);
        for (i, field) in fields.iter().enumerate() {
            assert_eq!(
                field.enabled,
                i == expected_index,
                "index {} の enabled が意図しない値: {:?}",
                i,
                field.label
            );
        }
    }
}

#[test]
fn start_has_no_overlay_in_the_library() {
    assert!(start(all_false_snapshot()).is_none());
}

#[test]
fn row_actions_follow_row_order() {
    let expected = [
        OverlayAction::ToggleClipboard,
        OverlayAction::ToggleAutoInput,
        OverlayAction::ToggleAutoInputSendEnter,
        OverlayAction::ToggleVrchat,
        OverlayAction::ToggleAutoTranslate,
        OverlayAction::ToggleEliza,
        OverlayAction::ToggleElizaResponseToVrchat,
    ];
    for (i, action) in expected.iter().enumerate() {
        assert_eq!(overlay_row_action(i), Some(*action));
    }
    assert_eq!(overlay_row_action(7), None);
}

#[test]
fn test_build_manifest_json_contains_app_key_name_and_path() {
    let json = build_manifest_json("test.app_key", "Test App", r"C:\path\to\app.exe");
    let parsed: serde_json::Value = serde_json::from_str(&json).unwrap();
    let app = &parsed["applications"][0];
    assert_eq!(app["app_key"], "test.app_key");
    assert_eq!(app["launch_type"], "binary");
    assert_eq!(app["binary_path_windows"], r"C:\path\to\app.exe");
    assert_eq!(app["is_dashboard_overlay"], true);
    assert_eq!(app["strings"]["en_us"]["name"], "Test App");
}

#[test]
fn manifest_text_is_compact_with_sorted_keys() {
    let json = build_manifest_json(APP_KEY, "VRC Companion", r"C:\a.exe");
    assert_eq!(
        json,
        r#"{"applications":[{"app_key":"cympfh.vrc_companion","binary_path_windows":"C:\\a.exe","is_dashboard_overlay":true,"launch_type":"binary","strings":{"en_us":{"name":"VRC Companion"}}}],"source":"custom"}"#
    );
    let parsed: serde_json::Value = serde_json::from_str(&json).unwrap();
    assert_eq!(parsed["source"], "custom");
}

#[test]
fn pointer_events_from_openvr_event_types() {
    assert_eq!(pointer_change(300), Some(PointerChange::Move));
    assert_eq!(pointer_change(301), Some(PointerChange::MoveAndPress));
    assert_eq!(pointer_change(302), Some(PointerChange::MoveAndRelease));
    assert_eq!(pointer_change(303), None);
    assert_eq!(pointer_change(0), None);
}

fn sample_snapshot(vrchat: bool) -> OverlaySnapshot {
    OverlaySnapshot {
        clipboard_enabled: true,
        auto_input_enabled: !vrchat,
        auto_input_send_enter: false,
        vrchat_enabled: vrchat,
        eliza_enabled: false,
        eliza_response_to_vrchat_enabled: false,
        auto_translate_enabled: true,
    }
}

#[test]
fn overlay_keeps_the_latest_snapshot_until_a_new_one_arrives() {
    let old = sample_snapshot(false);
    let new = sample_snapshot(true);
    assert_eq!(next_overlay_state(old, SnapshotPoll::Empty), Some(old));
    assert_eq!(next_overlay_state(old, SnapshotPoll::Received(new)), Some(new));
    assert_eq!(next_overlay_state(old, SnapshotPoll::Disconnected), None);
}

#[test]
fn haptic_pulse_only_after_a_click() {
    assert!(!frame_feedback(&Vec::new()));
    assert!(frame_feedback(&vec![OverlayAction::ToggleVrchat]));
    assert!(frame_feedback(&vec![OverlayAction::CallQvPen, OverlayAction::ToggleEliza]));
}
