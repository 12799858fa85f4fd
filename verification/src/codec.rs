//! The frame codec for inbound frames: which event a frame is, and the
//! decoding of a whole frame.

use vstd::prelude::*;
use crate::decode::{field_settings, field_str, read_settings, read_str, same_text};
use crate::events::{
    AppearEvent, ApplicationEvent, DeviceDidConnectEvent, DeviceDidDisconnectEvent,
    DialPressEvent, DialRotateEvent, DidReceiveGlobalSettingsEvent, DidReceiveSettingsEvent,
    InputEvent, KeyEvent, PropertyInspectorAppearEvent, SendToPluginEvent,
    SystemDidWakeUpEvent, TitleParametersDidChangeEvent, TouchTapEvent,
};
use crate::inbound::{
    appear_payload_read_as, device_info_read_as, dial_press_payload_read_as,
    global_payload_read_as, key_payload_read_as, read_appear_payload, read_device_info,
    read_dial_press_payload, read_global_payload, read_key_payload, read_rotate_payload,
    read_settings_payload, read_tap_payload, read_title_payload, rotate_payload_read_as,
    settings_payload_read_as, tap_payload_read_as, title_payload_read_as,
};
use crate::json::{json_member, json_parse, member, parse, value_text};

verus! {

/// The kinds of event that the host sends.
#[derive(Clone, Copy, Debug, PartialEq, Eq)]
pub enum EventKind {
    DidReceiveSettings,
    DidReceiveGlobalSettings,
    KeyDown,
    KeyUp,
    DialRotate,
    DialPress,
    TouchTap,
    WillAppear,
    WillDisappear,
    TitleParametersDidChange,
    DeviceDidConnect,
    DeviceDidDisconnect,
    ApplicationDidLaunch,
    ApplicationDidTerminate,
    SystemDidWakeUp,
    PropertyInspectorDidAppear,
    PropertyInspectorDidDisappear,
    SendToPlugin,
}

/// Why a frame could not be decoded.
#[derive(Clone, Copy, Debug, PartialEq, Eq)]
pub enum DecodeError {
    /// The frame is no JSON object with a string under `event`.
    Malformed,
    /// The frame names an event that the protocol does not have.
    UnknownEvent,
    /// The frame names a known event, and a part of it is missing or of
    /// the wrong type.
    InvalidField,
}

/// The kind of event that the tag `tag` names.
pub open spec fn kind_named(tag: Seq<char>) -> Option<EventKind> {
    if tag == "didReceiveSettings"@ {
        Some(EventKind::DidReceiveSettings)
    } else if tag == "didReceiveGlobalSettings"@ {
        Some(EventKind::DidReceiveGlobalSettings)
    } else if tag == "keyDown"@ {
        Some(EventKind::KeyDown)
    } else if tag == "keyUp"@ {
        Some(EventKind::KeyUp)
    } else if tag == "dialRotate"@ {
        Some(EventKind::DialRotate)
    } else if tag == "dialPress"@ {
        Some(EventKind::DialPress)
    } else if tag == "touchTap"@ {
        Some(EventKind::TouchTap)
    } else if tag == "willAppear"@ {
        Some(EventKind::WillAppear)
    } else if tag == "willDisappear"@ {
        Some(EventKind::WillDisappear)
    } else if tag == "titleParametersDidChange"@ {
        Some(EventKind::TitleParametersDidChange)
    } else if tag == "deviceDidConnect"@ {
        Some(EventKind::DeviceDidConnect)
    } else if tag == "deviceDidDisconnect"@ {
        Some(EventKind::DeviceDidDisconnect)
    } else if tag == "applicationDidLaunch"@ {
        Some(EventKind::ApplicationDidLaunch)
    } else if tag == "applicationDidTerminate"@ {
        Some(EventKind::ApplicationDidTerminate)
    } else if tag == "systemDidWakeUp"@ {
        Some(EventKind::SystemDidWakeUp)
    } else if tag == "propertyInspectorDidAppear"@ {
        Some(EventKind::PropertyInspectorDidAppear)
    } else if tag == "propertyInspectorDidDisappear"@ {
        Some(EventKind::PropertyInspectorDidDisappear)
    } else if tag == "sendToPlugin"@ {
        Some(EventKind::SendToPlugin)
    } else {
        None
    }
}

/// The kind of event that `tag` names, if it names one.
pub fn event_kind(tag: &str) -> (r: Option<EventKind>)
    ensures
        r == kind_named(tag@),
{
    if same_text(tag, "didReceiveSettings") {
        Some(EventKind::DidReceiveSettings)
    } else if same_text(tag, "didReceiveGlobalSettings") {
        Some(EventKind::DidReceiveGlobalSettings)
    } else if same_text(tag, "keyDown") {
        Some(EventKind::KeyDown)
    } else if same_text(tag, "keyUp") {
        Some(EventKind::KeyUp)
    } else if same_text(tag, "dialRotate") {
        Some(EventKind::DialRotate)
    } else if same_text(tag, "dialPress") {
        Some(EventKind::DialPress)
    } else if same_text(tag, "touchTap") {
        Some(EventKind::TouchTap)
    } else if same_text(tag, "willAppear") {
        Some(EventKind::WillAppear)
    } else if same_text(tag, "willDisappear") {
        Some(EventKind::WillDisappear)
    } else if same_text(tag, "titleParametersDidChange") {
        Some(EventKind::TitleParametersDidChange)
    } else if same_text(tag, "deviceDidConnect") {
        Some(EventKind::DeviceDidConnect)
    } else if same_text(tag, "deviceDidDisconnect") {
        Some(EventKind::DeviceDidDisconnect)
    } else if same_text(tag, "applicationDidLaunch") {
        Some(EventKind::ApplicationDidLaunch)
    } else if same_text(tag, "applicationDidTerminate") {
        Some(EventKind::ApplicationDidTerminate)
    } else if same_text(tag, "systemDidWakeUp") {
        Some(EventKind::SystemDidWakeUp)
    } else if same_text(tag, "propertyInspectorDidAppear") {
        Some(EventKind::PropertyInspectorDidAppear)
    } else if same_text(tag, "propertyInspectorDidDisappear") {
        Some(EventKind::PropertyInspectorDidDisappear)
    } else if same_text(tag, "sendToPlugin") {
        Some(EventKind::SendToPlugin)
    } else {
        None
    }
}

/// The frame names `action`, `context` and `device` as given.
pub open spec fn addressed_as(
    frame: Seq<char>,
    action: Seq<char>,
    context: Seq<char>,
    device: Seq<char>,
) -> bool {
    &&& field_str(frame, "action"@) == Some(action)
    &&& field_str(frame, "context"@) == Some(context)
    &&& field_str(frame, "device"@) == Some(device)
}

fn read_address(frame: &serde_json::Value) -> (r: Option<(String, String, String)>)
    ensures
        match r {
            Some(a) => addressed_as(value_text(*frame), a.0@, a.1@, a.2@),
            None => forall|x: Seq<char>, y: Seq<char>, z: Seq<char>|
                !addressed_as(value_text(*frame), x, y, z),
        },
{
    let action = read_str(frame, "action");
    let context = read_str(frame, "context");
    let device = read_str(frame, "device");
    match (action, context, device) {
        (Some(action), Some(context), Some(device)) => Some((action, context, device)),
        _ => None,
    }
}

pub open spec fn settings_event_read_as(frame: Seq<char>, e: DidReceiveSettingsEvent) -> bool {
    &&& addressed_as(frame, e.action@, e.context@, e.device@)
    &&& match json_member(frame, "payload"@) {
        Some(p) => settings_payload_read_as(p, e.payload),
        None => false,
    }
}

pub open spec fn global_event_read_as(frame: Seq<char>, e: DidReceiveGlobalSettingsEvent) -> bool {
    match json_member(frame, "payload"@) {
        Some(p) => global_payload_read_as(p, e.payload),
        None => false,
    }
}

/// A key event as read from a frame is never flagged a double tap: the
/// flag is set only while the event is dispatched.
pub open spec fn key_event_read_as(frame: Seq<char>, e: KeyEvent) -> bool {
    &&& addressed_as(frame, e.action@, e.context@, e.device@)
    &&& !e.is_double_tap
    &&& match json_member(frame, "payload"@) {
        Some(p) => key_payload_read_as(p, e.payload),
        None => false,
    }
}

pub open spec fn rotate_event_read_as(frame: Seq<char>, e: DialRotateEvent) -> bool {
    &&& addressed_as(frame, e.action@, e.context@, e.device@)
    &&& match json_member(frame, "payload"@) {
        Some(p) => rotate_payload_read_as(p, e.payload),
        None => false,
    }
}

pub open spec fn dial_press_event_read_as(frame: Seq<char>, e: DialPressEvent) -> bool {
    &&& addressed_as(frame, e.action@, e.context@, e.device@)
    &&& match json_member(frame, "payload"@) {
        Some(p) => dial_press_payload_read_as(p, e.payload),
        None => false,
    }
}

pub open spec fn tap_event_read_as(frame: Seq<char>, e: TouchTapEvent) -> bool {
    &&& addressed_as(frame, e.action@, e.context@, e.device@)
    &&& match json_member(frame, "payload"@) {
        Some(p) => tap_payload_read_as(p, e.payload),
        None => false,
    }
}

pub open spec fn appear_event_read_as(frame: Seq<char>, e: AppearEvent) -> bool {
    &&& addressed_as(frame, e.action@, e.context@, e.device@)
    &&& match json_member(frame, "payload"@) {
        Some(p) => appear_payload_read_as(p, e.payload),
        None => false,
    }
}

pub open spec fn title_event_read_as(frame: Seq<char>, e: TitleParametersDidChangeEvent) -> bool {
    &&& addressed_as(frame, e.action@, e.context@, e.device@)
    &&& match json_member(frame, "payload"@) {
        Some(p) => title_payload_read_as(p, e.payload),
        None => false,
    }
}

pub open spec fn connect_event_read_as(frame: Seq<char>, e: DeviceDidConnectEvent) -> bool {
    &&& field_str(frame, "device"@) == Some(e.device@)
    &&& match json_member(frame, "deviceInfo"@) {
        Some(d) => device_info_read_as(d, e.device_info),
        None => false,
    }
}

pub open spec fn disconnect_event_read_as(frame: Seq<char>, e: DeviceDidDisconnectEvent) -> bool {
    field_str(frame, "device"@) == Some(e.device@)
}

pub open spec fn application_event_read_as(frame: Seq<char>, e: ApplicationEvent) -> bool {
    field_str(frame, "application"@) == Some(e.application@)
}

pub open spec fn inspector_event_read_as(frame: Seq<char>, e: PropertyInspectorAppearEvent) -> bool {
    addressed_as(frame, e.action@, e.context@, e.device@)
}

pub open spec fn plugin_event_read_as(frame: Seq<char>, e: SendToPluginEvent) -> bool {
    &&& e.payload.wf()
    &&& field_str(frame, "action"@) == Some(e.action@)
    &&& field_str(frame, "context"@) == Some(e.context@)
    &&& field_settings(frame, "payload"@) == Some(e.payload@)
}

pub(crate) fn read_settings_event(frame: &serde_json::Value) -> (r: Option<DidReceiveSettingsEvent>)
    ensures
        match r {
            Some(e) => settings_event_read_as(value_text(*frame), e),
            None => forall|e: DidReceiveSettingsEvent| !settings_event_read_as(value_text(*frame), e),
        },
{
    let payload = match member(frame, "payload") {
        Some(p) => read_settings_payload(p),
        None => None,
    };
    match (read_address(frame), payload) {
        (Some(address), Some(payload)) => Some(
            DidReceiveSettingsEvent { action: address.0, context: address.1, device: address.2, payload },
        ),
        _ => None,
    }
}

pub(crate) fn read_global_event(frame: &serde_json::Value) -> (r: Option<DidReceiveGlobalSettingsEvent>)
    ensures
        match r {
            Some(e) => global_event_read_as(value_text(*frame), e),
            None => forall|e: DidReceiveGlobalSettingsEvent| !global_event_read_as(value_text(*frame), e),
        },
{
    match member(frame, "payload") {
        Some(p) => match read_global_payload(p) {
            Some(payload) => Some(DidReceiveGlobalSettingsEvent { payload }),
            None => None,
        },
        None => None,
    }
}

pub(crate) fn read_key_event(frame: &serde_json::Value) -> (r: Option<KeyEvent>)
    ensures
        match r {
            Some(e) => key_event_read_as(value_text(*frame), e),
            None => forall|e: KeyEvent| !key_event_read_as(value_text(*frame), e),
        },
{
    let payload = match member(frame, "payload") {
        Some(p) => read_key_payload(p),
        None => None,
    };
    match (read_address(frame), payload) {
        (Some(address), Some(payload)) => Some(
            KeyEvent {
                action: address.0,
                context: address.1,
                device: address.2,
                payload,
                is_double_tap: false,
            },
        ),
        _ => None,
    }
}

pub(crate) fn read_rotate_event(frame: &serde_json::Value) -> (r: Option<DialRotateEvent>)
    ensures
        match r {
            Some(e) => rotate_event_read_as(value_text(*frame), e),
            None => forall|e: DialRotateEvent| !rotate_event_read_as(value_text(*frame), e),
        },
{
    let payload = match member(frame, "payload") {
        Some(p) => read_rotate_payload(p),
        None => None,
    };
    match (read_address(frame), payload) {
        (Some(address), Some(payload)) => Some(
            DialRotateEvent { action: address.0, context: address.1, device: address.2, payload },
        ),
        _ => None,
    }
}

pub(crate) fn read_dial_press_event(frame: &serde_json::Value) -> (r: Option<DialPressEvent>)
    ensures
        match r {
            Some(e) => dial_press_event_read_as(value_text(*frame), e),
            None => forall|e: DialPressEvent| !dial_press_event_read_as(value_text(*frame), e),
        },
{
    let payload = match member(frame, "payload") {
        Some(p) => read_dial_press_payload(p),
        None => None,
    };
    match (read_address(frame), payload) {
        (Some(address), Some(payload)) => Some(
            DialPressEvent { action: address.0, context: address.1, device: address.2, payload },
        ),
        _ => None,
    }
}

pub(crate) fn read_tap_event(frame: &serde_json::Value) -> (r: Option<TouchTapEvent>)
    ensures
        match r {
            Some(e) => tap_event_read_as(value_text(*frame), e),
            None => forall|e: TouchTapEvent| !tap_event_read_as(value_text(*frame), e),
        },
{
    let payload = match member(frame, "payload") {
        Some(p) => read_tap_payload(p),
        None => None,
    };
    match (read_address(frame), payload) {
        (Some(address), Some(payload)) => Some(
            TouchTapEvent { action: address.0, context: address.1, device: address.2, payload },
        ),
        _ => None,
    }
}

pub(crate) fn read_appear_event(frame: &serde_json::Value) -> (r: Option<AppearEvent>)
    ensures
        match r {
            Some(e) => appear_event_read_as(value_text(*frame), e),
            None => forall|e: AppearEvent| !appear_event_read_as(value_text(*frame), e),
        },
{
    let payload = match member(frame, "payload") {
        Some(p) => read_appear_payload(p),
        None => None,
    };
    match (read_address(frame), payload) {
        (Some(address), Some(payload)) => Some(
            AppearEvent { action: address.0, context: address.1, device: address.2, payload },
        ),
        _ => None,
    }
}

pub(crate) fn read_title_event(frame: &serde_json::Value) -> (r: Option<TitleParametersDidChangeEvent>)
    ensures
        match r {
            Some(e) => title_event_read_as(value_text(*frame), e),
            None => forall|e: TitleParametersDidChangeEvent| !title_event_read_as(value_text(*frame), e),
        },
{
    let payload = match member(frame, "payload") {
        Some(p) => read_title_payload(p),
        None => None,
    };
    match (read_address(frame), payload) {
        (Some(address), Some(payload)) => Some(
            TitleParametersDidChangeEvent { action: address.0, context: address.1, device: address.2, payload },
        ),
        _ => None,
    }
}

pub(crate) fn read_connect_event(frame: &serde_json::Value) -> (r: Option<DeviceDidConnectEvent>)
    ensures
        match r {
            Some(e) => connect_event_read_as(value_text(*frame), e),
            None => forall|e: DeviceDidConnectEvent| !connect_event_read_as(value_text(*frame), e),
        },
{
    let info = match member(frame, "deviceInfo") {
        Some(d) => read_device_info(d),
        None => None,
    };
    match (read_str(frame, "device"), info) {
        (Some(device), Some(device_info)) => Some(DeviceDidConnectEvent { device, device_info }),
        _ => None,
    }
}

pub(crate) fn read_disconnect_event(frame: &serde_json::Value) -> (r: Option<DeviceDidDisconnectEvent>)
    ensures
        match r {
            Some(e) => disconnect_event_read_as(value_text(*frame), e),
            None => forall|e: DeviceDidDisconnectEvent| !disconnect_event_read_as(value_text(*frame), e),
        },
{
    match read_str(frame, "device") {
        Some(device) => Some(DeviceDidDisconnectEvent { device }),
        None => None,
    }
}

pub(crate) fn read_application_event(frame: &serde_json::Value) -> (r: Option<ApplicationEvent>)
    ensures
        match r {
            Some(e) => application_event_read_as(value_text(*frame), e),
            None => forall|e: ApplicationEvent| !application_event_read_as(value_text(*frame), e),
        },
{
    match read_str(frame, "application") {
        Some(application) => Some(ApplicationEvent { application }),
        None => None,
    }
}

pub(crate) fn read_inspector_event(frame: &serde_json::Value) -> (r: Option<PropertyInspectorAppearEvent>)
    ensures
        match r {
            Some(e) => inspector_event_read_as(value_text(*frame), e),
            None => forall|e: PropertyInspectorAppearEvent| !inspector_event_read_as(value_text(*frame), e),
        },
{
    match read_address(frame) {
        Some(address) => Some(
            PropertyInspectorAppearEvent {
                action: address.0,
                context: address.1,
                device: address.2,
            },
        ),
        None => None,
    }
}

pub(crate) fn read_plugin_event(frame: &serde_json::Value) -> (r: Option<SendToPluginEvent>)
    ensures
        match r {
            Some(e) => plugin_event_read_as(value_text(*frame), e),
            None => forall|e: SendToPluginEvent| !plugin_event_read_as(value_text(*frame), e),
        },
{
    let action = read_str(frame, "action");
    let context = read_str(frame, "context");
    let payload = read_settings(frame, "payload");
    match (action, context, payload) {
        (Some(action), Some(context), Some(payload)) => Some(
            SendToPluginEvent { action, context, payload },
        ),
        _ => None,
    }
}

/// The tag of a frame: the string under `event`, where the frame is JSON.
pub open spec fn frame_tag(frame: Seq<char>) -> Option<Seq<char>> {
    match json_parse(frame) {
        Some(t) => field_str(t, "event"@),
        None => None,
    }
}

/// The kind of an event.
pub open spec fn kind_of(e: InputEvent) -> EventKind {
    match e {
        InputEvent::DidReceiveSettings(_) => EventKind::DidReceiveSettings,
        InputEvent::DidReceiveGlobalSettings(_) => EventKind::DidReceiveGlobalSettings,
        InputEvent::KeyDown(_) => EventKind::KeyDown,
        InputEvent::KeyUp(_) => EventKind::KeyUp,
        InputEvent::DialRotate(_) => EventKind::DialRotate,
        InputEvent::DialPress(_) => EventKind::DialPress,
        InputEvent::TouchTap(_) => EventKind::TouchTap,
        InputEvent::WillAppear(_) => EventKind::WillAppear,
        InputEvent::WillDisappear(_) => EventKind::WillDisappear,
        InputEvent::TitleParametersDidChange(_) => EventKind::TitleParametersDidChange,
        InputEvent::DeviceDidConnect(_) => EventKind::DeviceDidConnect,
        InputEvent::DeviceDidDisconnect(_) => EventKind::DeviceDidDisconnect,
        InputEvent::ApplicationDidLaunch(_) => EventKind::ApplicationDidLaunch,
        InputEvent::ApplicationDidTerminate(_) => EventKind::ApplicationDidTerminate,
        InputEvent::SystemDidWakeUp(_) => EventKind::SystemDidWakeUp,
        InputEvent::PropertyInspectorDidAppear(_) => EventKind::PropertyInspectorDidAppear,
        InputEvent::PropertyInspectorDidDisappear(_) => EventKind::PropertyInspectorDidDisappear,
        InputEvent::SendToPlugin(_) => EventKind::SendToPlugin,
    }
}

/// The parts of `e` are what `frame` holds for an event of its kind.
pub open spec fn body_read_as(frame: Seq<char>, e: InputEvent) -> bool {
    match e {
        InputEvent::DidReceiveSettings(x) => settings_event_read_as(frame, x),
        InputEvent::DidReceiveGlobalSettings(x) => global_event_read_as(frame, x),
        InputEvent::KeyDown(x) => key_event_read_as(frame, x),
        InputEvent::KeyUp(x) => key_event_read_as(frame, x),
        InputEvent::DialRotate(x) => rotate_event_read_as(frame, x),
        InputEvent::DialPress(x) => dial_press_event_read_as(frame, x),
        InputEvent::TouchTap(x) => tap_event_read_as(frame, x),
        InputEvent::WillAppear(x) => appear_event_read_as(frame, x),
        InputEvent::WillDisappear(x) => appear_event_read_as(frame, x),
        InputEvent::TitleParametersDidChange(x) => title_event_read_as(frame, x),
        InputEvent::DeviceDidConnect(x) => connect_event_read_as(frame, x),
        InputEvent::DeviceDidDisconnect(x) => disconnect_event_read_as(frame, x),
        InputEvent::ApplicationDidLaunch(x) => application_event_read_as(frame, x),
        InputEvent::ApplicationDidTerminate(x) => application_event_read_as(frame, x),
        InputEvent::SystemDidWakeUp(_) => true,
        InputEvent::PropertyInspectorDidAppear(x) => inspector_event_read_as(frame, x),
        InputEvent::PropertyInspectorDidDisappear(x) => inspector_event_read_as(frame, x),
        InputEvent::SendToPlugin(x) => plugin_event_read_as(frame, x),
    }
}

/// `e` is the event that `frame` holds: the tag names its kind, and its
/// parts are what the frame holds.
pub open spec fn event_read_as(frame: Seq<char>, e: InputEvent) -> bool {
    match (json_parse(frame), frame_tag(frame)) {
        (Some(t), Some(tag)) => kind_named(tag) == Some(kind_of(e)) && body_read_as(t, e),
        _ => false,
    }
}

/// Reads the event of kind `kind` from `frame`.
pub(crate) fn read_event(kind: EventKind, frame: &serde_json::Value) -> (r: Option<InputEvent>)
    ensures
        match r {
            Some(e) => kind_of(e) == kind && body_read_as(value_text(*frame), e),
            None => forall|e: InputEvent|
                kind_of(e) == kind ==> !body_read_as(value_text(*frame), e),
        },
{
    match kind {
        EventKind::DidReceiveSettings => match read_settings_event(frame) {
            Some(e) => Some(InputEvent::DidReceiveSettings(e)),
            None => None,
        },
        EventKind::DidReceiveGlobalSettings => match read_global_event(frame) {
            Some(e) => Some(InputEvent::DidReceiveGlobalSettings(e)),
            None => None,
        },
        EventKind::KeyDown => match read_key_event(frame) {
            Some(e) => Some(InputEvent::KeyDown(e)),
            None => None,
        },
        EventKind::KeyUp => match read_key_event(frame) {
            Some(e) => Some(InputEvent::KeyUp(e)),
            None => None,
        },
        EventKind::DialRotate => match read_rotate_event(frame) {
            Some(e) => Some(InputEvent::DialRotate(e)),
            None => None,
        },
        EventKind::DialPress => match read_dial_press_event(frame) {
            Some(e) => Some(InputEvent::DialPress(e)),
            None => None,
        },
        EventKind::TouchTap => match read_tap_event(frame) {
            Some(e) => Some(InputEvent::TouchTap(e)),
            None => None,
        },
        EventKind::WillAppear => match read_appear_event(frame) {
            Some(e) => Some(InputEvent::WillAppear(e)),
            None => None,
        },
        EventKind::WillDisappear => match read_appear_event(frame) {
            Some(e) => Some(InputEvent::WillDisappear(e)),
            None => None,
        },
        EventKind::TitleParametersDidChange => match read_title_event(frame) {
            Some(e) => Some(InputEvent::TitleParametersDidChange(e)),
            None => None,
        },
        EventKind::DeviceDidConnect => match read_connect_event(frame) {
            Some(e) => Some(InputEvent::DeviceDidConnect(e)),
            None => None,
        },
        EventKind::DeviceDidDisconnect => match read_disconnect_event(frame) {
            Some(e) => Some(InputEvent::DeviceDidDisconnect(e)),
            None => None,
        },
        EventKind::ApplicationDidLaunch => match read_application_event(frame) {
            Some(e) => Some(InputEvent::ApplicationDidLaunch(e)),
            None => None,
        },
        EventKind::ApplicationDidTerminate => match read_application_event(frame) {
            Some(e) => Some(InputEvent::ApplicationDidTerminate(e)),
            None => None,
        },
        EventKind::SystemDidWakeUp => Some(InputEvent::SystemDidWakeUp(SystemDidWakeUpEvent {  })),
        EventKind::PropertyInspectorDidAppear => match read_inspector_event(frame) {
            Some(e) => Some(InputEvent::PropertyInspectorDidAppear(e)),
            None => None,
        },
        EventKind::PropertyInspectorDidDisappear => match read_inspector_event(frame) {
            Some(e) => Some(InputEvent::PropertyInspectorDidDisappear(e)),
            None => None,
        },
        EventKind::SendToPlugin => match read_plugin_event(frame) {
            Some(e) => Some(InputEvent::SendToPlugin(e)),
            None => None,
        },
    }
}

/// Decodes one inbound frame. A frame without a string under `event` is
/// malformed; one whose tag names no event of the protocol is unknown; one
/// of a known kind with a part missing or of the wrong type has an invalid
/// field. Every other frame is decoded to the event that it holds.
pub fn decode(frame: &str) -> (r: Result<InputEvent, DecodeError>)
    ensures
        match r {
            Ok(e) => event_read_as(frame@, e),
            Err(DecodeError::Malformed) => frame_tag(frame@).is_none(),
            Err(DecodeError::UnknownEvent) => frame_tag(frame@).is_some() && kind_named(
                frame_tag(frame@).unwrap(),
            ).is_none(),
            Err(DecodeError::InvalidField) => frame_tag(frame@).is_some() && kind_named(
                frame_tag(frame@).unwrap(),
            ).is_some() && forall|e: InputEvent| !event_read_as(frame@, e),
        },
{
    match parse(frame) {
        None => Err(DecodeError::Malformed),
        Some(value) => match read_str(&value, "event") {
            None => Err(DecodeError::Malformed),
            Some(tag) => match event_kind(tag.as_str()) {
                None => Err(DecodeError::UnknownEvent),
                Some(kind) => match read_event(kind, &value) {
                    Some(e) => Ok(e),
                    None => Err(DecodeError::InvalidField),
                },
            },
        },
    }
}

} // verus!
