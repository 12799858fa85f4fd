use deck_session::codec::{decode, event_kind, DecodeError, EventKind};
use deck_session::decode::{parse_settings, same_text, settings_from_entries};
use deck_session::events::{
    Controller, InputEvent, PayloadCoordinates, TitleAlignment,
};
use deck_session::inbound::{alignment_of, controller_of};
use deck_session::sent::set_settings;
use deck_session::settings::SettingsMap;

fn s(text: &str) -> String {
    text.to_string()
}

#[test]
fn unknown_event_tag_is_refused() {
    let r = decode("{\"event\":\"foo\",\"action\":\"a\",\"context\":\"c\",\"device\":\"d\"}");
    assert!(matches!(r, Err(DecodeError::UnknownEvent)));
}

#[test]
fn frame_without_a_tag_is_malformed() {
    assert!(matches!(decode("{\"action\":\"a\"}"), Err(DecodeError::Malformed)));
    assert!(matches!(decode("{\"event\":5}"), Err(DecodeError::Malformed)));
    assert!(matches!(decode("not json"), Err(DecodeError::Malformed)));
    assert!(matches!(decode("[1,2]"), Err(DecodeError::Malformed)));
    assert!(matches!(decode(""), Err(DecodeError::Malformed)));
}

#[test]
fn known_event_with_a_missing_part_has_an_invalid_field() {
    let r = decode("{\"event\":\"keyDown\",\"action\":\"a\",\"context\":\"c\"}");
    assert!(matches!(r, Err(DecodeError::InvalidField)));
    let r = decode(
        "{\"event\":\"keyDown\",\"action\":\"a\",\"context\":\"c\",\"device\":\"d\",\"payload\":{\"isInMultiAction\":\"no\",\"settings\":{}}}",
    );
    assert!(matches!(r, Err(DecodeError::InvalidField)));
    let r = decode(
        "{\"event\":\"keyDown\",\"action\":\"a\",\"context\":\"c\",\"device\":\"d\",\"payload\":{\"isInMultiAction\":false,\"settings\":{},\"state\":3000000000}}",
    );
    assert!(matches!(r, Err(DecodeError::InvalidField)));
}

#[test]
fn every_tag_names_its_kind() {
    assert_eq!(event_kind("didReceiveSettings"), Some(EventKind::DidReceiveSettings));
    assert_eq!(event_kind("didReceiveGlobalSettings"), Some(EventKind::DidReceiveGlobalSettings));
    assert_eq!(event_kind("keyDown"), Some(EventKind::KeyDown));
    assert_eq!(event_kind("keyUp"), Some(EventKind::KeyUp));
    assert_eq!(event_kind("dialRotate"), Some(EventKind::DialRotate));
    assert_eq!(event_kind("dialPress"), Some(EventKind::DialPress));
    assert_eq!(event_kind("touchTap"), Some(EventKind::TouchTap));
    assert_eq!(event_kind("willAppear"), Some(EventKind::WillAppear));
    assert_eq!(event_kind("willDisappear"), Some(EventKind::WillDisappear));
    assert_eq!(event_kind("titleParametersDidChange"), Some(EventKind::TitleParametersDidChange));
    assert_eq!(event_kind("deviceDidConnect"), Some(EventKind::DeviceDidConnect));
    assert_eq!(event_kind("deviceDidDisconnect"), Some(EventKind::DeviceDidDisconnect));
    assert_eq!(event_kind("applicationDidLaunch"), Some(EventKind::ApplicationDidLaunch));
    assert_eq!(event_kind("applicationDidTerminate"), Some(EventKind::ApplicationDidTerminate));
    assert_eq!(event_kind("systemDidWakeUp"), Some(EventKind::SystemDidWakeUp));
    assert_eq!(event_kind("propertyInspectorDidAppear"), Some(EventKind::PropertyInspectorDidAppear));
    assert_eq!(
        event_kind("propertyInspectorDidDisappear"),
        Some(EventKind::PropertyInspectorDidDisappear)
    );
    assert_eq!(event_kind("sendToPlugin"), Some(EventKind::SendToPlugin));
    assert_eq!(event_kind("KeyDown"), None);
    assert_eq!(event_kind(""), None);
}

#[test]
fn key_down_frame_is_decoded() {
    let frame = "{\"action\":\"com.x.a\",\"event\":\"keyDown\",\"context\":\"C1\",\"device\":\"D1\",\"payload\":{\"settings\":{\"n\":1,\"t\":\"x y\"},\"coordinates\":{\"column\":3,\"row\":1},\"state\":0,\"userDesiredState\":1,\"isInMultiAction\":false}}";
    match decode(frame) {
        Ok(InputEvent::KeyDown(e)) => {
            assert_eq!(e.action, "com.x.a");
            assert_eq!(e.context, "C1");
            assert_eq!(e.device, "D1");
            assert!(!e.is_double_tap);
            assert_eq!(e.payload.state, Some(0));
            assert_eq!(e.payload.user_desired_state, Some(1));
            assert!(!e.payload.is_in_multi_action);
            assert_eq!(e.payload.coordinates, Some(PayloadCoordinates { column: 3, row: 1 }));
            assert_eq!(e.payload.settings.len(), 2);
            assert_eq!(e.payload.settings.get(&s("n")), Some(s("1")));
            assert_eq!(e.payload.settings.get(&s("t")), Some(s("\"x y\"")));
        },
        _ => panic!("not a key down"),
    }
}

#[test]
fn key_up_frame_without_optional_parts_is_decoded() {
    let frame = "{\"event\":\"keyUp\",\"action\":\"a\",\"context\":\"c\",\"device\":\"d\",\"payload\":{\"settings\":{},\"isInMultiAction\":true,\"state\":null}}";
    match decode(frame) {
        Ok(InputEvent::KeyUp(e)) => {
            assert_eq!(e.payload.state, None);
            assert_eq!(e.payload.user_desired_state, None);
            assert_eq!(e.payload.coordinates, None);
            assert!(e.payload.is_in_multi_action);
            assert_eq!(e.payload.settings.len(), 0);
        },
        _ => panic!("not a key up"),
    }
}

#[test]
fn settings_frames_are_decoded() {
    let frame = "{\"event\":\"didReceiveSettings\",\"action\":\"a\",\"context\":\"c\",\"device\":\"d\",\"payload\":{\"settings\":{\"k\":[1,2]},\"isInMultiAction\":false}}";
    match decode(frame) {
        Ok(InputEvent::DidReceiveSettings(e)) => {
            assert_eq!(e.payload.settings.get(&s("k")), Some(s("[1,2]")));
        },
        _ => panic!("not settings"),
    }
    let frame = "{\"event\":\"didReceiveGlobalSettings\",\"payload\":{\"settings\":{\"g\":null}}}";
    match decode(frame) {
        Ok(InputEvent::DidReceiveGlobalSettings(e)) => {
            assert_eq!(e.payload.settings.get(&s("g")), Some(s("null")));
        },
        _ => panic!("not global settings"),
    }
}

#[test]
fn dial_and_touch_frames_are_decoded() {
    let frame = "{\"event\":\"dialRotate\",\"action\":\"a\",\"context\":\"c\",\"device\":\"d\",\"payload\":{\"ticks\":-2,\"pressed\":false,\"settings\":{}}}";
    match decode(frame) {
        Ok(InputEvent::DialRotate(e)) => {
            assert_eq!(e.payload.ticks, -2);
            assert!(!e.payload.pressed);
        },
        _ => panic!("not a rotation"),
    }
    let frame = "{\"event\":\"dialPress\",\"action\":\"a\",\"context\":\"c\",\"device\":\"d\",\"payload\":{\"pressed\":true,\"settings\":{}}}";
    match decode(frame) {
        Ok(InputEvent::DialPress(e)) => {
            assert_eq!(e.payload.pressed, Some(true));
            assert_eq!(e.payload.coordinates, None);
        },
        _ => panic!("not a dial press"),
    }
    let frame = "{\"event\":\"touchTap\",\"action\":\"a\",\"context\":\"c\",\"device\":\"d\",\"payload\":{\"hold\":true,\"coordinates\":{\"column\":0,\"row\":2},\"tapPos\":[10,20],\"settings\":{}}}";
    match decode(frame) {
        Ok(InputEvent::TouchTap(e)) => {
            assert!(e.payload.hold);
            assert_eq!(e.payload.coordinates, PayloadCoordinates { column: 0, row: 2 });
            assert_eq!(e.payload.tap_pos, [10, 20]);
        },
        _ => panic!("not a tap"),
    }
    let frame = "{\"event\":\"touchTap\",\"action\":\"a\",\"context\":\"c\",\"device\":\"d\",\"payload\":{\"hold\":true,\"coordinates\":{\"column\":0,\"row\":2},\"tapPos\":[10,20,30],\"settings\":{}}}";
    assert!(matches!(decode(frame), Err(DecodeError::InvalidField)));
}

#[test]
fn appear_frames_are_decoded() {
    let frame = "{\"event\":\"willAppear\",\"action\":\"a\",\"context\":\"c\",\"device\":\"d\",\"payload\":{\"settings\":{},\"isInMultiAction\":false,\"controller\":\"Encoder\",\"state\":1}}";
    match decode(frame) {
        Ok(InputEvent::WillAppear(e)) => {
            assert_eq!(e.payload.controller, Controller::Encoder);
            assert_eq!(e.payload.state, Some(1));
        },
        _ => panic!("not an appearance"),
    }
    let frame = "{\"event\":\"willDisappear\",\"action\":\"a\",\"context\":\"c\",\"device\":\"d\",\"payload\":{\"settings\":{},\"isInMultiAction\":false,\"controller\":\"Keypad\"}}";
    assert!(matches!(decode(frame), Ok(InputEvent::WillDisappear(_))));
    let frame = "{\"event\":\"willAppear\",\"action\":\"a\",\"context\":\"c\",\"device\":\"d\",\"payload\":{\"settings\":{},\"isInMultiAction\":false,\"controller\":\"Knob\"}}";
    assert!(matches!(decode(frame), Err(DecodeError::InvalidField)));
}

#[test]
fn title_frame_is_decoded() {
    let frame = "{\"event\":\"titleParametersDidChange\",\"action\":\"a\",\"context\":\"c\",\"device\":\"d\",\"payload\":{\"state\":0,\"title\":\"T\",\"settings\":{},\"titleParameters\":{\"fontFamily\":\"F\",\"fontSize\":12,\"fontStyle\":\"Bold\",\"fontUnderline\":false,\"showTitle\":true,\"titleAlignment\":\"middle\",\"titleColor\":\"#fff\"}}}";
    match decode(frame) {
        Ok(InputEvent::TitleParametersDidChange(e)) => {
            assert_eq!(e.payload.title, "T");
            assert_eq!(e.payload.title_parameters.font_size, 12);
            assert_eq!(e.payload.title_parameters.title_alignment, TitleAlignment::Middle);
            assert_eq!(e.payload.title_parameters.title_color, "#fff");
        },
        _ => panic!("not a title change"),
    }
}

#[test]
fn device_and_application_frames_are_decoded() {
    let frame = "{\"event\":\"deviceDidConnect\",\"device\":\"D\",\"deviceInfo\":{\"name\":\"Deck\",\"type\":7,\"size\":{\"columns\":4,\"rows\":2}}}";
    match decode(frame) {
        Ok(InputEvent::DeviceDidConnect(e)) => {
            assert_eq!(e.device, "D");
            assert_eq!(e.device_info.name, Some(s("Deck")));
            assert_eq!(e.device_info.id, None);
            assert_eq!(e.device_info.device_type, 7);
            assert_eq!(e.device_info.size.unwrap().columns, 4);
        },
        _ => panic!("not a connect"),
    }
    assert!(matches!(
        decode("{\"event\":\"deviceDidDisconnect\",\"device\":\"D\"}"),
        Ok(InputEvent::DeviceDidDisconnect(_))
    ));
    match decode("{\"event\":\"applicationDidLaunch\",\"application\":\"app.exe\"}") {
        Ok(InputEvent::ApplicationDidLaunch(e)) => assert_eq!(e.application, "app.exe"),
        _ => panic!("not a launch"),
    }
    assert!(matches!(
        decode("{\"event\":\"applicationDidTerminate\",\"application\":\"app.exe\"}"),
        Ok(InputEvent::ApplicationDidTerminate(_))
    ));
    assert!(matches!(decode("{\"event\":\"systemDidWakeUp\"}"), Ok(InputEvent::SystemDidWakeUp(_))));
}

#[test]
fn inspector_and_plugin_frames_are_decoded() {
    assert!(matches!(
        decode("{\"event\":\"propertyInspectorDidAppear\",\"action\":\"a\",\"context\":\"c\",\"device\":\"d\"}"),
        Ok(InputEvent::PropertyInspectorDidAppear(_))
    ));
    assert!(matches!(
        decode("{\"event\":\"propertyInspectorDidDisappear\",\"action\":\"a\",\"context\":\"c\",\"device\":\"d\"}"),
        Ok(InputEvent::PropertyInspectorDidDisappear(_))
    ));
    match decode("{\"event\":\"sendToPlugin\",\"action\":\"a\",\"context\":\"c\",\"payload\":{\"cmd\":\"go\"}}") {
        Ok(InputEvent::SendToPlugin(e)) => {
            assert_eq!(e.payload.get(&s("cmd")), Some(s("\"go\"")));
        },
        _ => panic!("not a message"),
    }
}

#[test]
fn names_of_controllers_and_alignments() {
    assert_eq!(controller_of("Keypad"), Some(Controller::Keypad));
    assert_eq!(controller_of("Encoder"), Some(Controller::Encoder));
    assert_eq!(controller_of("keypad"), None);
    assert_eq!(alignment_of("bottom"), Some(TitleAlignment::Bottom));
    assert_eq!(alignment_of("top"), Some(TitleAlignment::Top));
    assert_eq!(alignment_of("middle"), Some(TitleAlignment::Middle));
    assert_eq!(alignment_of("Top"), None);
    assert!(same_text("a", "a"));
    assert!(!same_text("a", "b"));
}

#[test]
fn settings_survive_encoding_and_decoding() {
    let mut m = SettingsMap::new();
    m.insert(s("name"), s("\"Ada \\\"L\\\"\""));
    m.insert(s("count"), s("42"));
    m.insert(s("nested"), s("{\"a\":[1,2,{\"b\":null}]}"));
    m.insert(s("key \"q\""), s("true"));
    let frame = set_settings(&s("c1"), m.clone());
    let inbound = format!(
        "{{\"event\":\"didReceiveSettings\",\"action\":\"a\",\"context\":\"c1\",\"device\":\"d\",\"payload\":{{\"isInMultiAction\":false,\"settings\":{}}}}}",
        parse_settings(&frame).unwrap().get(&s("payload")).unwrap()
    );
    match decode(&inbound) {
        Ok(InputEvent::DidReceiveSettings(e)) => {
            let back = e.payload.settings;
            assert_eq!(back.len(), m.len());
            let mut i = 0;
            while i < m.len() {
                assert_eq!(back.get(m.key_at(i)), Some(m.value_at(i).clone()));
                i += 1;
            }
        },
        _ => panic!("not settings"),
    }
}

#[test]
fn parse_settings_reads_objects_only() {
    let m = parse_settings("{\"a\": 1, \"b\": {\"c\": \"d\"}}").unwrap();
    assert_eq!(m.len(), 2);
    assert_eq!(m.get(&s("a")), Some(s("1")));
    assert_eq!(m.get(&s("b")), Some(s("{\"c\":\"d\"}")));
    assert!(parse_settings("[1]").is_none());
    assert!(parse_settings("nonsense").is_none());
    assert!(parse_settings("null").is_none());
}

#[test]
fn settings_from_entries_keeps_the_later_of_two() {
    let m = settings_from_entries(&vec![(s("a"), s("1")), (s("b"), s("2")), (s("a"), s("3"))]);
    assert_eq!(m.len(), 2);
    assert_eq!(m.get(&s("a")), Some(s("3")));
    assert_eq!(m.key_at(0), "a");
}
