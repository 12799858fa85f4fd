use deck_session::args::{parse_args, ArgsError, DeviceType, StreamDeckArgs};
use deck_session::images::{image_to_base64, png_data_url};
use deck_session::settings::SettingsMap;
use deck_session::stream_deck::StreamDeck;

fn s(text: &str) -> String {
    text.to_string()
}

fn args() -> StreamDeckArgs {
    StreamDeckArgs { port: 28196, plugin_uuid: s("PLUG"), register_event: s("registerPlugin"), info: None }
}

fn list(items: &[&str]) -> Vec<String> {
    items.iter().map(|x| x.to_string()).collect()
}

#[test]
fn register_queues_registration_then_the_request_for_global_settings() {
    let mut sd = StreamDeck::new(args(), false);
    sd.register();
    assert_eq!(
        sd.take_outbox(),
        vec![
            s("{\"event\":\"registerPlugin\",\"uuid\":\"PLUG\"}"),
            s("{\"event\":\"getGlobalSettings\",\"context\":\"PLUG\"}"),
        ]
    );
    assert!(sd.take_outbox().is_empty());
}

#[test]
fn frames_keep_the_order_of_the_calls() {
    let mut sd = StreamDeck::new(args(), false);
    sd.show_ok(s("c1"));
    sd.set_state(s("c1"), 1);
    sd.show_alert(s("c2"));
    sd.open_url(s("u"));
    sd.log(s("m"));
    let frames = sd.take_outbox();
    assert_eq!(frames.len(), 5);
    assert_eq!(frames[0], "{\"event\":\"showOk\",\"context\":\"c1\"}");
    assert_eq!(frames[1], "{\"event\":\"setState\",\"context\":\"c1\",\"payload\":{\"state\":1}}");
    assert_eq!(frames[2], "{\"event\":\"showAlert\",\"context\":\"c2\"}");
    assert_eq!(frames[3], "{\"event\":\"openUrl\",\"payload\":{\"url\":\"u\"}}");
    assert_eq!(frames[4], "{\"event\":\"logMessage\",\"payload\":{\"message\":\"m\"}}");
}

#[test]
fn set_settings_mirrors_to_the_host_and_asks_them_back() {
    let mut sd = StreamDeck::new(args(), false);
    let mut m = SettingsMap::new();
    m.insert(s("a"), s("1"));
    sd.set_settings(s("c1"), m);
    assert_eq!(
        sd.take_outbox(),
        vec![
            s("{\"event\":\"setSettings\",\"context\":\"c1\",\"payload\":{\"a\":1}}"),
            s("{\"event\":\"getSettings\",\"context\":\"c1\"}"),
        ]
    );
}

#[test]
fn update_global_settings_merges_and_mirrors_only_when_asked() {
    let mut sd = StreamDeck::new(args(), false);
    let mut first = SettingsMap::new();
    first.insert(s("a"), s("1"));
    first.insert(s("b"), s("2"));
    sd.update_global_settings(&first, None);
    assert!(sd.take_outbox().is_empty());
    let mut second = SettingsMap::new();
    second.insert(s("b"), s("3"));
    sd.update_global_settings(&second, Some(true));
    assert_eq!(
        sd.take_outbox(),
        vec![
            s("{\"event\":\"setGlobalSettings\",\"context\":\"PLUG\",\"payload\":{\"a\":1,\"b\":3}}"),
            s("{\"event\":\"getGlobalSettings\",\"context\":\"PLUG\"}"),
        ]
    );
    assert_eq!(sd.global_settings().get(&s("b")), Some(s("3")));
}

#[test]
fn session_settings_and_contexts() {
    let mut sd = StreamDeck::new(args(), false);
    assert!(sd.settings(&s("c1")).is_none());
    let mut m = SettingsMap::new();
    m.insert(s("a"), s("1"));
    sd.update_instances_settings(s("c1"), m);
    assert_eq!(sd.settings(&s("c1")).unwrap().get(&s("a")), Some(s("1")));
    sd.store.appear(s("h"), s("c1"));
    assert_eq!(sd.contexts_of(&s("h")), vec![s("c1")]);
    assert!(sd.take_outbox().is_empty());
}

#[test]
fn title_image_profile_and_inspector_frames() {
    let mut sd = StreamDeck::new(args(), false);
    sd.set_title(s("c"), Some(s("T")));
    sd.set_title_extra(s("c"), None, Some(deck_session::events::StreamDeckTarget::All), None);
    sd.set_image_b64(s("c"), Some(s("data:image/png;base64,AA==")));
    sd.switch_to_profile(s("dev"), s("P"));
    sd.send_to_property_inspector(s("act"), s("c"), SettingsMap::new());
    sd.set_feedback(s("c"), s("{\"value\":1}"));
    sd.set_global_settings(SettingsMap::new());
    let f = sd.take_outbox();
    assert_eq!(f.len(), 8);
    assert_eq!(f[0], "{\"event\":\"setTitle\",\"context\":\"c\",\"payload\":{\"title\":\"T\",\"image\":null,\"target\":null,\"state\":null}}");
    assert_eq!(f[1], "{\"event\":\"setTitle\",\"context\":\"c\",\"payload\":{\"title\":null,\"image\":null,\"target\":0,\"state\":null}}");
    assert_eq!(f[2], "{\"event\":\"setImage\",\"context\":\"c\",\"payload\":{\"title\":null,\"image\":\"data:image/png;base64,AA==\",\"target\":null,\"state\":null}}");
    assert_eq!(f[3], "{\"event\":\"switchToProfile\",\"context\":\"PLUG\",\"device\":\"dev\",\"payload\":{\"profile\":\"P\"}}");
    assert_eq!(f[4], "{\"event\":\"sendToPropertyInspector\",\"action\":\"act\",\"context\":\"c\",\"payload\":{}}");
    assert_eq!(f[5], "{\"event\":\"setFeedback\",\"context\":\"c\",\"payload\":{\"value\":1}}");
    assert_eq!(f[6], "{\"event\":\"setGlobalSettings\",\"context\":\"PLUG\",\"payload\":{}}");
    assert_eq!(f[7], "{\"event\":\"getGlobalSettings\",\"context\":\"PLUG\"}");
}

#[test]
fn external_messages_are_queued_in_order() {
    let mut sd = StreamDeck::new(args(), true);
    sd.external(s("one"));
    sd.external(s("two"));
    assert_eq!(sd.external, Some(vec![s("one"), s("two")]));
    assert!(StreamDeck::new(args(), false).external.is_none());
}

#[test]
fn arguments_are_taken_from_the_list() {
    let a = parse_args(&list(&[
        "plugin", "-port", "28196", "-pluginUUID", "ABC", "-registerEvent", "registerPlugin",
        "-info", "{\"application\":{\"language\":\"en\",\"version\":\"6.0\"},\"plugin\":{\"uuid\":\"u\",\"version\":\"1\"},\"devicePixelRatio\":2,\"devices\":[{\"id\":\"D\",\"name\":\"N\",\"type\":0,\"size\":{\"columns\":5,\"rows\":3}}]}",
    ]))
    .unwrap();
    assert_eq!(a.port, 28196);
    assert_eq!(a.plugin_uuid, "ABC");
    assert_eq!(a.register_event, "registerPlugin");
    let info = a.info.unwrap();
    assert_eq!(info.application.language, Some(s("en")));
    assert_eq!(info.application.font, None);
    assert_eq!(info.plugin.uuid, Some(s("u")));
    assert_eq!(info.device_pixel_ratio, Some(2));
    let devices = info.devices.unwrap();
    assert_eq!(devices.len(), 1);
    assert_eq!(devices[0].id, Some(s("D")));
    assert_eq!(devices[0].size.unwrap().rows, 3);
}

#[test]
fn absent_arguments_keep_their_defaults_and_later_values_win() {
    let a = parse_args(&list(&[])).unwrap();
    assert_eq!(a.port, 0);
    assert_eq!(a.plugin_uuid, "");
    assert_eq!(a.register_event, "");
    assert!(a.info.is_none());
    let a = parse_args(&list(&["-port", "1", "-port", "-2", "-info", "{bad", "x"])).unwrap();
    assert_eq!(a.port, -2);
    assert!(a.info.is_none());
}

#[test]
fn null_info_clears_an_earlier_one() {
    let a = parse_args(&list(&[
        "-info", "{\"application\":{},\"plugin\":{}}", "-info", "null",
    ]))
    .unwrap();
    assert!(a.info.is_none());
    let a = parse_args(&list(&[
        "-info", "{\"application\":{},\"plugin\":{}}", "-info", "{\"application\":{}}",
    ]))
    .unwrap();
    assert!(a.info.is_some());
}

#[test]
fn argument_errors() {
    assert!(matches!(parse_args(&list(&["-port"])), Err(ArgsError::MissingValue)));
    assert!(matches!(parse_args(&list(&["-port", "abc"])), Err(ArgsError::InvalidPort)));
    assert!(matches!(
        parse_args(&list(&["-port", "99999999999"])),
        Err(ArgsError::InvalidPort)
    ));
    assert!(matches!(
        parse_args(&list(&["-port", "x", "-info"])),
        Err(ArgsError::InvalidPort)
    ));
    assert!(matches!(
        parse_args(&list(&["-pluginUUID", "-info"])),
        Err(ArgsError::MissingValue)
    ));
}

#[test]
fn a_value_that_is_a_flag_is_also_looked_at() {
    let a = parse_args(&list(&["-pluginUUID", "-registerEvent", "e"])).unwrap();
    assert_eq!(a.plugin_uuid, "-registerEvent");
    assert_eq!(a.register_event, "e");
}

#[test]
fn image_becomes_a_png_data_url() {
    assert_eq!(
        image_to_base64(Some(vec![0x89, 0x50, 0x4e, 0x47])),
        Some(s("data:image/png;base64,iVBORw=="))
    );
    assert_eq!(image_to_base64(Some(vec![])), Some(s("data:image/png;base64,")));
    assert_eq!(image_to_base64(Some(b"hello world~".to_vec())), Some(s("data:image/png;base64,aGVsbG8gd29ybGR+")));
    assert_eq!(image_to_base64(None), None);
    assert_eq!(png_data_url("QQ=="), "data:image/png;base64,QQ==");
}

#[test]
fn device_kinds_and_their_numbers() {
    assert_eq!(DeviceType::StreamDeck.code(), 0);
    assert_eq!(DeviceType::StreamDeckPedal.code(), 5);
    assert_eq!(DeviceType::StreamDeckPlus.code(), 7);
    assert_eq!(DeviceType::from_code(2), Some(DeviceType::StreamDeckXL));
    assert_eq!(DeviceType::from_code(6), Some(DeviceType::CorsairVoyager));
    assert_eq!(DeviceType::from_code(4), None);
    assert_eq!(DeviceType::from_code(-1), None);
}

#[test]
fn raw_frames_are_queued_as_they_are() {
    let mut sd = StreamDeck::new(args(), false);
    sd.send(s("{\"event\":\"x\"}"));
    sd.send(s("second"));
    assert_eq!(sd.take_outbox(), vec![s("{\"event\":\"x\"}"), s("second")]);
}
