use deck_session::events::{ActionState, StreamDeckTarget};
use deck_session::sent::{
    get_global_settings_event, get_settings_event, log_message, open_url, register,
    send_to_property_inspector, set_feedback, set_feedback_layout, set_global_settings, set_image,
    set_settings, set_state, set_title, show_alert, show_ok, switch_to_profile,
};
use deck_session::settings::SettingsMap;

#[test]
fn register_frame_has_event_and_uuid() {
    assert_eq!(
        register("registerPlugin".to_string(), "abc".to_string()),
        "{\"event\":\"registerPlugin\",\"uuid\":\"abc\"}"
    );
}

#[test]
fn show_ok_and_alert_frames() {
    assert_eq!(show_ok("c1".to_string()), "{\"event\":\"showOk\",\"context\":\"c1\"}");
    assert_eq!(show_alert("c1".to_string()), "{\"event\":\"showAlert\",\"context\":\"c1\"}");
}

#[test]
fn set_title_frame_writes_null_for_absent_fields() {
    assert_eq!(
        set_title("c1".to_string(), Some("Hi".to_string()), None, None),
        "{\"event\":\"setTitle\",\"context\":\"c1\",\"payload\":{\"title\":\"Hi\",\"image\":null,\"target\":null,\"state\":null}}"
    );
}

#[test]
fn set_title_frame_writes_target_and_state_as_numbers() {
    assert_eq!(
        set_title(
            "c1".to_string(),
            None,
            Some(StreamDeckTarget::Software),
            Some(ActionState::Second)
        ),
        "{\"event\":\"setTitle\",\"context\":\"c1\",\"payload\":{\"title\":null,\"image\":null,\"target\":2,\"state\":1}}"
    );
}

#[test]
fn set_image_frame() {
    assert_eq!(
        set_image("c1".to_string(), Some("data:x".to_string()), Some(StreamDeckTarget::Hardware), Some(ActionState::First)),
        "{\"event\":\"setImage\",\"context\":\"c1\",\"payload\":{\"title\":null,\"image\":\"data:x\",\"target\":1,\"state\":0}}"
    );
}

#[test]
fn strings_are_escaped() {
    assert_eq!(
        log_message("a \"quoted\"\nline".to_string()),
        "{\"event\":\"logMessage\",\"payload\":{\"message\":\"a \\\"quoted\\\"\\nline\"}}"
    );
}

#[test]
fn set_state_frame() {
    assert_eq!(
        set_state("c1".to_string(), -3),
        "{\"event\":\"setState\",\"context\":\"c1\",\"payload\":{\"state\":-3}}"
    );
}

#[test]
fn feedback_frames() {
    assert_eq!(
        set_feedback("c1".to_string(), "{\"value\":5}".to_string()),
        "{\"event\":\"setFeedback\",\"context\":\"c1\",\"payload\":{\"value\":5}}"
    );
    assert_eq!(
        set_feedback_layout("c1".to_string(), "$B1".to_string()),
        "{\"event\":\"setFeedbackLayout\",\"context\":\"c1\",\"payload\":{\"layout\":\"$B1\"}}"
    );
}

#[test]
fn open_url_frame() {
    assert_eq!(
        open_url("https://example.org".to_string()),
        "{\"event\":\"openUrl\",\"payload\":{\"url\":\"https://example.org\"}}"
    );
}

#[test]
fn switch_to_profile_frame() {
    assert_eq!(
        switch_to_profile("plug".to_string(), "dev".to_string(), "Main".to_string()),
        "{\"event\":\"switchToProfile\",\"context\":\"plug\",\"device\":\"dev\",\"payload\":{\"profile\":\"Main\"}}"
    );
}

#[test]
fn settings_frames_keep_insertion_order() {
    let mut m = SettingsMap::new();
    m.insert("b".to_string(), "1".to_string());
    m.insert("a".to_string(), "\"x\"".to_string());
    assert_eq!(
        set_settings(&"c1".to_string(), m.clone()),
        "{\"event\":\"setSettings\",\"context\":\"c1\",\"payload\":{\"b\":1,\"a\":\"x\"}}"
    );
    assert_eq!(
        set_global_settings("plug".to_string(), m.clone()),
        "{\"event\":\"setGlobalSettings\",\"context\":\"plug\",\"payload\":{\"b\":1,\"a\":\"x\"}}"
    );
    assert_eq!(
        send_to_property_inspector("act".to_string(), "c1".to_string(), m),
        "{\"event\":\"sendToPropertyInspector\",\"action\":\"act\",\"context\":\"c1\",\"payload\":{\"b\":1,\"a\":\"x\"}}"
    );
}

#[test]
fn empty_settings_give_an_empty_object() {
    assert_eq!(
        set_settings(&"c1".to_string(), SettingsMap::new()),
        "{\"event\":\"setSettings\",\"context\":\"c1\",\"payload\":{}}"
    );
}

#[test]
fn get_settings_frames() {
    assert_eq!(
        get_settings_event("c1".to_string()),
        "{\"event\":\"getSettings\",\"context\":\"c1\"}"
    );
    assert_eq!(
        get_global_settings_event("plug".to_string()),
        "{\"event\":\"getGlobalSettings\",\"context\":\"plug\"}"
    );
}
