use deck_session::codec::DecodeError;
use deck_session::dispatch::{dispatch, handle_frame, Callback, Invocation};
use deck_session::press::PendingPress;
use deck_session::events::{
    ApplicationEvent, DidReceiveGlobalSettingsEvent, DidReceiveGlobalSettingsPayload, InputEvent,
    KeyEvent, KeyEventPayload, SendToPluginEvent,
};
use deck_session::press::{PressTable, TickOutcome};
use deck_session::registry::ActionManager;
use deck_session::settings::SettingsMap;
use deck_session::store::SessionStore;

fn s(text: &str) -> String {
    text.to_string()
}

fn blob(pairs: &[(&str, &str)]) -> SettingsMap {
    let mut m = SettingsMap::new();
    for (k, v) in pairs {
        m.insert(s(k), s(v));
    }
    m
}

fn three() -> ActionManager<u8> {
    ActionManager::new().register(vec![(s("a"), 0u8), (s("shared"), 1u8), (s("b"), 2u8)])
}

fn key(action: &str, context: &str, settings: SettingsMap) -> KeyEvent {
    KeyEvent {
        action: s(action),
        context: s(context),
        device: s("d"),
        payload: KeyEventPayload {
            state: None,
            user_desired_state: None,
            is_in_multi_action: false,
            coordinates: None,
            settings,
        },
        is_double_tap: false,
    }
}

fn none() -> Vec<u64> {
    vec![0, 0, 0]
}

fn call(handler: usize, callback: Callback) -> Invocation {
    Invocation { handler, callback }
}

#[test]
fn global_settings_reach_every_handler_once() {
    let manager = three();
    let mut store = SessionStore::new();
    let mut presses = PressTable::new();
    let mut e = InputEvent::DidReceiveGlobalSettings(DidReceiveGlobalSettingsEvent {
        payload: DidReceiveGlobalSettingsPayload { settings: blob(&[("g", "1")]) },
    });
    let plan = dispatch(&mut e, &manager, &mut store, &mut presses, &none(), 0).plan;
    assert_eq!(
        plan,
        vec![
            call(0, Callback::GlobalSettingsChanged),
            call(1, Callback::GlobalSettingsChanged),
            call(2, Callback::GlobalSettingsChanged),
        ]
    );
    assert_eq!(store.global_settings().get(&s("g")), Some(s("1")));
}

#[test]
fn lifecycle_events_reach_every_handler() {
    let manager = three();
    let mut store = SessionStore::new();
    let mut presses = PressTable::new();
    let mut e = InputEvent::ApplicationDidLaunch(ApplicationEvent { application: s("x") });
    let plan = dispatch(&mut e, &manager, &mut store, &mut presses, &none(), 0).plan;
    assert_eq!(plan.len(), 3);
    assert_eq!(plan[2], call(2, Callback::ApplicationLaunch));
}

#[test]
fn key_down_goes_to_its_handler_and_stores_the_settings() {
    let manager = three();
    let mut store = SessionStore::new();
    let mut presses = PressTable::new();
    let mut e = InputEvent::KeyDown(key("b", "c1", blob(&[("k", "7")])));
    let plan = dispatch(&mut e, &manager, &mut store, &mut presses, &none(), 10).plan;
    assert_eq!(plan, vec![call(2, Callback::KeyDown)]);
    assert_eq!(store.settings(&s("c1")).unwrap().get(&s("k")), Some(s("7")));
    assert_eq!(presses.tick(&s("c1"), 10), TickOutcome::Stop);
}

#[test]
fn key_down_for_a_handler_with_a_threshold_starts_polling() {
    let manager = three();
    let mut store = SessionStore::new();
    let mut presses = PressTable::new();
    let thresholds = vec![0, 0, 2000];
    let mut e = InputEvent::KeyDown(key("b", "c1", SettingsMap::new()));
    let done = dispatch(&mut e, &manager, &mut store, &mut presses, &thresholds, 50);
    assert_eq!(done.plan, vec![call(2, Callback::KeyDown)]);
    assert!(done.poll);
    assert_eq!(
        presses.state(&s("c1")).pending,
        Some(PendingPress { pressed_at: 50, threshold: 2000 })
    );
    let mut again = InputEvent::KeyDown(key("b", "c1", SettingsMap::new()));
    let done = dispatch(&mut again, &manager, &mut store, &mut presses, &thresholds, 60);
    assert_eq!(done.plan, vec![call(2, Callback::KeyDown)]);
    assert!(!done.poll);
    assert_eq!(presses.tick(&s("c1"), 2049), TickOutcome::Wait);
    assert_eq!(presses.tick(&s("c1"), 2050), TickOutcome::Fire);
    let mut up = InputEvent::KeyUp(key("b", "c1", SettingsMap::new()));
    let done = dispatch(&mut up, &manager, &mut store, &mut presses, &thresholds, 9000);
    assert!(done.plan.is_empty());
}

#[test]
fn key_down_without_a_threshold_or_a_handler_starts_no_polling() {
    let manager = three();
    let mut store = SessionStore::new();
    let mut presses = PressTable::new();
    let thresholds = vec![0, 0, 2000];
    let mut e = InputEvent::KeyDown(key("a", "c1", SettingsMap::new()));
    assert!(!dispatch(&mut e, &manager, &mut store, &mut presses, &thresholds, 0).poll);
    let mut e = InputEvent::KeyDown(key("nobody", "c2", SettingsMap::new()));
    assert!(!dispatch(&mut e, &manager, &mut store, &mut presses, &thresholds, 0).poll);
    let short: Vec<u64> = vec![];
    let mut e = InputEvent::KeyDown(key("b", "c3", SettingsMap::new()));
    assert!(!dispatch(&mut e, &manager, &mut store, &mut presses, &short, 0).poll);
}

#[test]
fn release_through_dispatch_cancels_a_held_press() {
    let manager = three();
    let mut store = SessionStore::new();
    let mut presses = PressTable::new();
    let thresholds = vec![1000, 0, 0];
    let mut down = InputEvent::KeyDown(key("a", "c1", SettingsMap::new()));
    assert!(dispatch(&mut down, &manager, &mut store, &mut presses, &thresholds, 0).poll);
    let mut up = InputEvent::KeyUp(key("a", "c1", SettingsMap::new()));
    let done = dispatch(&mut up, &manager, &mut store, &mut presses, &thresholds, 400);
    assert_eq!(done.plan, vec![call(0, Callback::KeyUp)]);
    assert_eq!(presses.tick(&s("c1"), 1000), TickOutcome::Stop);
    assert_eq!(presses.tick(&s("c1"), 5000), TickOutcome::Stop);
}

#[test]
fn event_for_an_unregistered_handler_leads_to_no_call() {
    let manager = three();
    let mut store = SessionStore::new();
    let mut presses = PressTable::new();
    let mut e = InputEvent::KeyDown(key("nobody", "c1", blob(&[("k", "7")])));
    let plan = dispatch(&mut e, &manager, &mut store, &mut presses, &none(), 10).plan;
    assert!(plan.is_empty());
    assert_eq!(store.settings(&s("c1")).unwrap().get(&s("k")), Some(s("7")));
}

#[test]
fn second_release_within_the_window_is_flagged_and_not_called() {
    let manager = three();
    let mut store = SessionStore::new();
    let mut presses = PressTable::new();
    let mut first = InputEvent::KeyUp(key("a", "c1", SettingsMap::new()));
    let plan = dispatch(&mut first, &manager, &mut store, &mut presses, &none(), 0).plan;
    assert_eq!(plan, vec![call(0, Callback::KeyUp)]);
    assert!(matches!(&first, InputEvent::KeyUp(k) if !k.is_double_tap));
    let mut second = InputEvent::KeyUp(key("a", "c1", SettingsMap::new()));
    let plan = dispatch(&mut second, &manager, &mut store, &mut presses, &none(), 200).plan;
    assert!(plan.is_empty());
    assert!(matches!(&second, InputEvent::KeyUp(k) if k.is_double_tap));
    let mut third = InputEvent::KeyUp(key("a", "c1", SettingsMap::new()));
    let plan = dispatch(&mut third, &manager, &mut store, &mut presses, &none(), 700).plan;
    assert_eq!(plan, vec![call(0, Callback::KeyUp)]);
}

#[test]
fn release_on_another_context_is_not_a_double_tap() {
    let manager = three();
    let mut store = SessionStore::new();
    let mut presses = PressTable::new();
    let mut first = InputEvent::KeyUp(key("a", "c1", SettingsMap::new()));
    dispatch(&mut first, &manager, &mut store, &mut presses, &none(), 0).plan;
    let mut other = InputEvent::KeyUp(key("a", "c2", SettingsMap::new()));
    let plan = dispatch(&mut other, &manager, &mut store, &mut presses, &none(), 100).plan;
    assert_eq!(plan, vec![call(0, Callback::KeyUp)]);
}

#[test]
fn message_for_the_plugin_goes_to_the_catch_all_first() {
    let manager = three();
    let mut store = SessionStore::new();
    let mut presses = PressTable::new();
    let mut e = InputEvent::SendToPlugin(SendToPluginEvent {
        action: s("b"),
        context: s("c"),
        payload: SettingsMap::new(),
    });
    let plan = dispatch(&mut e, &manager, &mut store, &mut presses, &none(), 0).plan;
    assert_eq!(plan, vec![call(1, Callback::SendToPlugin), call(2, Callback::SendToPlugin)]);
    let only = ActionManager::new().register(vec![(s("b"), 0u8)]);
    let plan = dispatch(&mut e, &only, &mut store, &mut presses, &none(), 0).plan;
    assert_eq!(plan, vec![call(0, Callback::SendToPlugin)]);
}

#[test]
fn unknown_frame_is_dropped_and_the_next_frame_is_handled() {
    let manager = three();
    let mut store = SessionStore::new();
    let mut presses = PressTable::new();
    store.appear(s("a"), s("c0"));
    let r = handle_frame("{\"event\":\"foo\",\"context\":\"c1\"}", &manager, &mut store, &mut presses, &none(), 5);
    assert!(matches!(r, Err(DecodeError::UnknownEvent)));
    assert!(store.settings(&s("c1")).is_none());
    assert_eq!(store.contexts_of(&s("a")), vec![s("c0")]);
    let next = "{\"event\":\"willAppear\",\"action\":\"a\",\"context\":\"c1\",\"device\":\"d\",\"payload\":{\"settings\":{\"v\":2},\"isInMultiAction\":false,\"controller\":\"Keypad\"}}";
    let handled = handle_frame(next, &manager, &mut store, &mut presses, &none(), 6).unwrap();
    assert_eq!(handled.plan, vec![call(0, Callback::Appear)]);
    assert!(matches!(handled.event, InputEvent::WillAppear(_)));
    assert_eq!(store.contexts_of(&s("a")), vec![s("c0"), s("c1")]);
    assert_eq!(store.settings(&s("c1")).unwrap().get(&s("v")), Some(s("2")));
}

#[test]
fn appear_and_disappear_frames_keep_the_visibility_index() {
    let manager = three();
    let mut store = SessionStore::new();
    let mut presses = PressTable::new();
    let appear = "{\"event\":\"willAppear\",\"action\":\"a\",\"context\":\"c1\",\"device\":\"d\",\"payload\":{\"settings\":{},\"isInMultiAction\":false,\"controller\":\"Keypad\"}}";
    let disappear = "{\"event\":\"willDisappear\",\"action\":\"a\",\"context\":\"c1\",\"device\":\"d\",\"payload\":{\"settings\":{},\"isInMultiAction\":false,\"controller\":\"Keypad\"}}";
    handle_frame(appear, &manager, &mut store, &mut presses, &none(), 0).unwrap();
    assert_eq!(store.contexts_of(&s("a")), vec![s("c1")]);
    let handled = handle_frame(disappear, &manager, &mut store, &mut presses, &none(), 1).unwrap();
    assert_eq!(handled.plan, vec![call(0, Callback::Disappear)]);
    assert!(store.contexts_of(&s("a")).is_empty());
    assert!(store.contexts_of(&s("b")).is_empty());
    assert!(store.contexts_of(&s("shared")).is_empty());
}

#[test]
fn malformed_frame_is_dropped() {
    let manager = three();
    let mut store = SessionStore::new();
    let mut presses = PressTable::new();
    assert!(matches!(
        handle_frame("{oops", &manager, &mut store, &mut presses, &none(), 0),
        Err(DecodeError::Malformed)
    ));
    assert!(matches!(
        handle_frame("{\"event\":\"keyUp\"}", &manager, &mut store, &mut presses, &none(), 0),
        Err(DecodeError::InvalidField)
    ));
    let ok = "{\"event\":\"keyUp\",\"action\":\"a\",\"context\":\"c\",\"device\":\"d\",\"payload\":{\"settings\":{},\"isInMultiAction\":false}}";
    let handled = handle_frame(ok, &manager, &mut store, &mut presses, &none(), 0).unwrap();
    assert_eq!(handled.plan, vec![call(0, Callback::KeyUp)]);
}
