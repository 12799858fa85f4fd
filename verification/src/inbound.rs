//! What it means for the payload of each inbound event to be the reading
//! of a JSON value, and the functions that do the reading. A JSON value is
//! spoken of by its compact text. Each `*_read_as` predicate says that
//! every part of the payload is what the value holds under the name that
//! the protocol gives it; each `read_*` function returns such a payload
//! where there is one.

use vstd::prelude::*;
use crate::args::{DeviceInfo, DeviceSize};
use crate::decode::{
    field_bool, field_i32, field_opt_bool, field_opt_coordinates, field_opt_i32, field_opt_str,
    field_settings, field_str, present, read_bool, read_i32, read_opt_bool,
    read_opt_coordinates, read_opt_i32, read_opt_str, read_present, read_settings, read_str,
    read_value_coordinates, read_value_i32, same_text, string_view, text_coordinates, text_i32,
};
use crate::events::{
    AppearEventPayload, Controller, DialPressEventPayload, DialRotateEventPayload,
    DidReceiveGlobalSettingsPayload, DidReceiveSettingsPayload, KeyEventPayload, TitleAlignment,
    TitleParameters, TitleParametersDidChangeEventPayload, TouchTapEventPayload,
};
use crate::json::{items, json_items, json_member, member, value_text, value_texts};

verus! {

/// The controller that a name stands for.
pub open spec fn controller_named(name: Seq<char>) -> Option<Controller> {
    if name == "Keypad"@ {
        Some(Controller::Keypad)
    } else if name == "Encoder"@ {
        Some(Controller::Encoder)
    } else {
        None
    }
}

/// The alignment that a name stands for.
pub open spec fn alignment_named(name: Seq<char>) -> Option<TitleAlignment> {
    if name == "bottom"@ {
        Some(TitleAlignment::Bottom)
    } else if name == "top"@ {
        Some(TitleAlignment::Top)
    } else if name == "middle"@ {
        Some(TitleAlignment::Middle)
    } else {
        None
    }
}

pub fn controller_of(name: &str) -> (r: Option<Controller>)
    ensures
        r == controller_named(name@),
{
    if same_text(name, "Keypad") {
        Some(Controller::Keypad)
    } else if same_text(name, "Encoder") {
        Some(Controller::Encoder)
    } else {
        None
    }
}

pub fn alignment_of(name: &str) -> (r: Option<TitleAlignment>)
    ensures
        r == alignment_named(name@),
{
    if same_text(name, "bottom") {
        Some(TitleAlignment::Bottom)
    } else if same_text(name, "top") {
        Some(TitleAlignment::Top)
    } else if same_text(name, "middle") {
        Some(TitleAlignment::Middle)
    } else {
        None
    }
}

/// The member `key` of `obj` as a controller.
pub open spec fn field_controller(obj: Seq<char>, key: Seq<char>) -> Option<Controller> {
    match field_str(obj, key) {
        Some(name) => controller_named(name),
        None => None,
    }
}

/// The member `key` of `obj` as an alignment.
pub open spec fn field_alignment(obj: Seq<char>, key: Seq<char>) -> Option<TitleAlignment> {
    match field_str(obj, key) {
        Some(name) => alignment_named(name),
        None => None,
    }
}

/// The member `key` of `obj` as a pair of `i32`: an array of exactly two.
pub open spec fn field_pair(obj: Seq<char>, key: Seq<char>) -> Option<(i32, i32)> {
    match json_member(obj, key) {
        Some(t) => match json_items(t) {
            Some(list) => if list.len() == 2 {
                match (text_i32(list[0]), text_i32(list[1])) {
                    (Some(a), Some(b)) => Some((a, b)),
                    _ => None,
                }
            } else {
                None
            },
            None => None,
        },
        None => None,
    }
}

fn read_pair(obj: &serde_json::Value, key: &str) -> (r: Option<(i32, i32)>)
    ensures
        r == field_pair(value_text(*obj), key@),
{
    match member(obj, key) {
        Some(t) => match items(t) {
            Some(list) => {
                if list.len() == 2 {
                    assert(value_texts(list@)[0] == value_text(list[0]));
                    assert(value_texts(list@)[1] == value_text(list[1]));
                    match read_value_i32(&list[0]) {
                        Some(a) => match read_value_i32(&list[1]) {
                            Some(b) => Some((a, b)),
                            None => None,
                        },
                        None => None,
                    }
                } else {
                    None
                }
            },
            None => None,
        },
        None => None,
    }
}

fn read_controller(obj: &serde_json::Value, key: &str) -> (r: Option<Controller>)
    ensures
        r == field_controller(value_text(*obj), key@),
{
    match read_str(obj, key) {
        Some(name) => controller_of(name.as_str()),
        None => None,
    }
}

fn read_alignment(obj: &serde_json::Value, key: &str) -> (r: Option<TitleAlignment>)
    ensures
        r == field_alignment(value_text(*obj), key@),
{
    match read_str(obj, key) {
        Some(name) => alignment_of(name.as_str()),
        None => None,
    }
}

/// `p` is the reading of `text` as the payload of a settings event.
pub open spec fn settings_payload_read_as(text: Seq<char>, p: DidReceiveSettingsPayload) -> bool {
    &&& p.settings.wf()
    &&& field_settings(text, "settings"@) == Some(p.settings@)
    &&& field_opt_coordinates(text, "coordinates"@) == Some(p.coordinates)
    &&& field_bool(text, "isInMultiAction"@) == Some(p.is_in_multi_action)
}

pub(crate) fn read_settings_payload(v: &serde_json::Value) -> (r: Option<DidReceiveSettingsPayload>)
    ensures
        match r {
            Some(p) => settings_payload_read_as(value_text(*v), p),
            None => forall|p: DidReceiveSettingsPayload| !settings_payload_read_as(value_text(*v), p),
        },
{
    let settings = read_settings(v, "settings");
    let coordinates = read_opt_coordinates(v, "coordinates");
    let multi = read_bool(v, "isInMultiAction");
    match (settings, coordinates, multi) {
        (Some(settings), Some(coordinates), Some(is_in_multi_action)) => Some(
            DidReceiveSettingsPayload { settings, coordinates, is_in_multi_action },
        ),
        _ => None,
    }
}

/// `p` is the reading of `text` as the payload of a global settings event.
pub open spec fn global_payload_read_as(text: Seq<char>, p: DidReceiveGlobalSettingsPayload) -> bool {
    &&& p.settings.wf()
    &&& field_settings(text, "settings"@) == Some(p.settings@)
}

pub(crate) fn read_global_payload(v: &serde_json::Value) -> (r: Option<DidReceiveGlobalSettingsPayload>)
    ensures
        match r {
            Some(p) => global_payload_read_as(value_text(*v), p),
            None => forall|p: DidReceiveGlobalSettingsPayload| !global_payload_read_as(value_text(*v), p),
        },
{
    match read_settings(v, "settings") {
        Some(settings) => Some(DidReceiveGlobalSettingsPayload { settings }),
        None => None,
    }
}

/// `p` is the reading of `text` as the payload of a key event.
pub open spec fn key_payload_read_as(text: Seq<char>, p: KeyEventPayload) -> bool {
    &&& p.settings.wf()
    &&& field_opt_i32(text, "state"@) == Some(p.state)
    &&& field_opt_i32(text, "userDesiredState"@) == Some(p.user_desired_state)
    &&& field_bool(text, "isInMultiAction"@) == Some(p.is_in_multi_action)
    &&& field_opt_coordinates(text, "coordinates"@) == Some(p.coordinates)
    &&& field_settings(text, "settings"@) == Some(p.settings@)
}

pub(crate) fn read_key_payload(v: &serde_json::Value) -> (r: Option<KeyEventPayload>)
    ensures
        match r {
            Some(p) => key_payload_read_as(value_text(*v), p),
            None => forall|p: KeyEventPayload| !key_payload_read_as(value_text(*v), p),
        },
{
    let state = read_opt_i32(v, "state");
    let desired = read_opt_i32(v, "userDesiredState");
    let multi = read_bool(v, "isInMultiAction");
    let coordinates = read_opt_coordinates(v, "coordinates");
    let settings = read_settings(v, "settings");
    match (state, desired, multi, coordinates, settings) {
        (
            Some(state),
            Some(user_desired_state),
            Some(is_in_multi_action),
            Some(coordinates),
            Some(settings),
        ) => Some(
            KeyEventPayload { state, user_desired_state, is_in_multi_action, coordinates, settings },
        ),
        _ => None,
    }
}

/// `p` is the reading of `text` as the payload of a dial rotation.
pub open spec fn rotate_payload_read_as(text: Seq<char>, p: DialRotateEventPayload) -> bool {
    &&& p.settings.wf()
    &&& field_i32(text, "ticks"@) == Some(p.ticks)
    &&& field_bool(text, "pressed"@) == Some(p.pressed)
    &&& field_settings(text, "settings"@) == Some(p.settings@)
}

pub(crate) fn read_rotate_payload(v: &serde_json::Value) -> (r: Option<DialRotateEventPayload>)
    ensures
        match r {
            Some(p) => rotate_payload_read_as(value_text(*v), p),
            None => forall|p: DialRotateEventPayload| !rotate_payload_read_as(value_text(*v), p),
        },
{
    let ticks = read_i32(v, "ticks");
    let pressed = read_bool(v, "pressed");
    let settings = read_settings(v, "settings");
    match (ticks, pressed, settings) {
        (Some(ticks), Some(pressed), Some(settings)) => Some(
            DialRotateEventPayload { ticks, pressed, settings },
        ),
        _ => None,
    }
}

/// `p` is the reading of `text` as the payload of a dial press.
pub open spec fn dial_press_payload_read_as(text: Seq<char>, p: DialPressEventPayload) -> bool {
    &&& p.settings.wf()
    &&& field_opt_bool(text, "pressed"@) == Some(p.pressed)
    &&& field_opt_coordinates(text, "coordinates"@) == Some(p.coordinates)
    &&& field_settings(text, "settings"@) == Some(p.settings@)
}

pub(crate) fn read_dial_press_payload(v: &serde_json::Value) -> (r: Option<DialPressEventPayload>)
    ensures
        match r {
            Some(p) => dial_press_payload_read_as(value_text(*v), p),
            None => forall|p: DialPressEventPayload| !dial_press_payload_read_as(value_text(*v), p),
        },
{
    let pressed = read_opt_bool(v, "pressed");
    let coordinates = read_opt_coordinates(v, "coordinates");
    let settings = read_settings(v, "settings");
    match (pressed, coordinates, settings) {
        (Some(pressed), Some(coordinates), Some(settings)) => Some(
            DialPressEventPayload { pressed, coordinates, settings },
        ),
        _ => None,
    }
}

/// `p` is the reading of `text` as the payload of a touch tap.
pub open spec fn tap_payload_read_as(text: Seq<char>, p: TouchTapEventPayload) -> bool {
    &&& p.settings.wf()
    &&& field_bool(text, "hold"@) == Some(p.hold)
    &&& match json_member(text, "coordinates"@) {
        Some(c) => text_coordinates(c) == Some(p.coordinates),
        None => false,
    }
    &&& field_pair(text, "tapPos"@) == Some((p.tap_pos[0], p.tap_pos[1]))
    &&& field_settings(text, "settings"@) == Some(p.settings@)
}

pub(crate) fn read_tap_payload(v: &serde_json::Value) -> (r: Option<TouchTapEventPayload>)
    ensures
        match r {
            Some(p) => tap_payload_read_as(value_text(*v), p),
            None => forall|p: TouchTapEventPayload| !tap_payload_read_as(value_text(*v), p),
        },
{
    let hold = read_bool(v, "hold");
    let coordinates = match member(v, "coordinates") {
        Some(c) => read_value_coordinates(c),
        None => None,
    };
    let pair = read_pair(v, "tapPos");
    let settings = read_settings(v, "settings");
    match (hold, coordinates, pair, settings) {
        (Some(hold), Some(coordinates), Some(pair), Some(settings)) => Some(
            TouchTapEventPayload { hold, coordinates, tap_pos: [pair.0, pair.1], settings },
        ),
        _ => None,
    }
}

/// `p` is the reading of `text` as the payload of an appearance.
pub open spec fn appear_payload_read_as(text: Seq<char>, p: AppearEventPayload) -> bool {
    &&& p.settings.wf()
    &&& field_opt_i32(text, "state"@) == Some(p.state)
    &&& field_bool(text, "isInMultiAction"@) == Some(p.is_in_multi_action)
    &&& field_opt_coordinates(text, "coordinates"@) == Some(p.coordinates)
    &&& field_settings(text, "settings"@) == Some(p.settings@)
    &&& field_controller(text, "controller"@) == Some(p.controller)
}

pub(crate) fn read_appear_payload(v: &serde_json::Value) -> (r: Option<AppearEventPayload>)
    ensures
        match r {
            Some(p) => appear_payload_read_as(value_text(*v), p),
            None => forall|p: AppearEventPayload| !appear_payload_read_as(value_text(*v), p),
        },
{
    let state = read_opt_i32(v, "state");
    let multi = read_bool(v, "isInMultiAction");
    let coordinates = read_opt_coordinates(v, "coordinates");
    let settings = read_settings(v, "settings");
    let controller = read_controller(v, "controller");
    match (state, multi, coordinates, settings, controller) {
        (
            Some(state),
            Some(is_in_multi_action),
            Some(coordinates),
            Some(settings),
            Some(controller),
        ) => Some(
            AppearEventPayload { state, is_in_multi_action, coordinates, settings, controller },
        ),
        _ => None,
    }
}

/// `p` is the reading of `text` as the parameters of a title.
pub open spec fn title_parameters_read_as(text: Seq<char>, p: TitleParameters) -> bool {
    &&& field_str(text, "fontFamily"@) == Some(p.font_family@)
    &&& field_i32(text, "fontSize"@) == Some(p.font_size)
    &&& field_str(text, "fontStyle"@) == Some(p.font_style@)
    &&& field_bool(text, "fontUnderline"@) == Some(p.font_underline)
    &&& field_bool(text, "showTitle"@) == Some(p.show_title)
    &&& field_alignment(text, "titleAlignment"@) == Some(p.title_alignment)
    &&& field_str(text, "titleColor"@) == Some(p.title_color@)
}

pub(crate) fn read_title_parameters(v: &serde_json::Value) -> (r: Option<TitleParameters>)
    ensures
        match r {
            Some(p) => title_parameters_read_as(value_text(*v), p),
            None => forall|p: TitleParameters| !title_parameters_read_as(value_text(*v), p),
        },
{
    let family = read_str(v, "fontFamily");
    let size = read_i32(v, "fontSize");
    let style = read_str(v, "fontStyle");
    let underline = read_bool(v, "fontUnderline");
    let show = read_bool(v, "showTitle");
    let alignment = read_alignment(v, "titleAlignment");
    let color = read_str(v, "titleColor");
    match (family, size, style, underline, show, alignment, color) {
        (
            Some(font_family),
            Some(font_size),
            Some(font_style),
            Some(font_underline),
            Some(show_title),
            Some(title_alignment),
            Some(title_color),
        ) => Some(
            TitleParameters {
                font_family,
                font_size,
                font_style,
                font_underline,
                show_title,
                title_alignment,
                title_color,
            },
        ),
        _ => None,
    }
}

/// `p` is the reading of `text` as the payload of a change of title parameters.
pub open spec fn title_payload_read_as(
    text: Seq<char>,
    p: TitleParametersDidChangeEventPayload,
) -> bool {
    &&& p.settings.wf()
    &&& field_i32(text, "state"@) == Some(p.state)
    &&& field_str(text, "title"@) == Some(p.title@)
    &&& match json_member(text, "titleParameters"@) {
        Some(t) => title_parameters_read_as(t, p.title_parameters),
        None => false,
    }
    &&& field_opt_coordinates(text, "coordinates"@) == Some(p.coordinates)
    &&& field_settings(text, "settings"@) == Some(p.settings@)
}

pub(crate) fn read_title_payload(v: &serde_json::Value) -> (r: Option<TitleParametersDidChangeEventPayload>)
    ensures
        match r {
            Some(p) => title_payload_read_as(value_text(*v), p),
            None => forall|p: TitleParametersDidChangeEventPayload| !title_payload_read_as(value_text(*v), p),
        },
{
    let state = read_i32(v, "state");
    let title = read_str(v, "title");
    let parameters = match member(v, "titleParameters") {
        Some(t) => read_title_parameters(t),
        None => None,
    };
    let coordinates = read_opt_coordinates(v, "coordinates");
    let settings = read_settings(v, "settings");
    match (state, title, parameters, coordinates, settings) {
        (Some(state), Some(title), Some(title_parameters), Some(coordinates), Some(settings)) => Some(
            TitleParametersDidChangeEventPayload {
                state,
                title,
                title_parameters,
                coordinates,
                settings,
            },
        ),
        _ => None,
    }
}

/// The size that the object `text` holds.
pub open spec fn text_size(text: Seq<char>) -> Option<DeviceSize> {
    match (field_i32(text, "columns"@), field_i32(text, "rows"@)) {
        (Some(columns), Some(rows)) => Some(DeviceSize { columns, rows }),
        _ => None,
    }
}

/// The member `key` of `obj` as an optional size.
pub open spec fn field_opt_size(obj: Seq<char>, key: Seq<char>) -> Option<Option<DeviceSize>> {
    match present(obj, key) {
        None => Some(None),
        Some(t) => match text_size(t) {
            Some(size) => Some(Some(size)),
            None => None,
        },
    }
}

fn read_opt_size(obj: &serde_json::Value, key: &str) -> (r: Option<Option<DeviceSize>>)
    ensures
        r == field_opt_size(value_text(*obj), key@),
{
    match read_present(obj, key) {
        None => Some(None),
        Some(t) => match (read_i32(t, "columns"), read_i32(t, "rows")) {
            (Some(columns), Some(rows)) => Some(Some(DeviceSize { columns, rows })),
            _ => None,
        },
    }
}

/// `d` is the reading of `text` as the description of a device.
pub open spec fn device_info_read_as(text: Seq<char>, d: DeviceInfo) -> bool {
    &&& field_opt_str(text, "id"@) == Some(string_view(d.id))
    &&& field_opt_str(text, "name"@) == Some(string_view(d.name))
    &&& field_opt_size(text, "size"@) == Some(d.size)
    &&& field_i32(text, "type"@) == Some(d.device_type)
}

pub(crate) fn read_device_info(v: &serde_json::Value) -> (r: Option<DeviceInfo>)
    ensures
        match r {
            Some(d) => device_info_read_as(value_text(*v), d),
            None => forall|d: DeviceInfo| !device_info_read_as(value_text(*v), d),
        },
{
    let id = read_opt_str(v, "id");
    let name = read_opt_str(v, "name");
    let size = read_opt_size(v, "size");
    let kind = read_i32(v, "type");
    match (id, name, size, kind) {
        (Some(id), Some(name), Some(size), Some(device_type)) => Some(
            DeviceInfo { id, name, size, device_type },
        ),
        _ => None,
    }
}

} // verus!
