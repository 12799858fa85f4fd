//! The frames of the protocol as plain values: the commands that go out
//! and the events that come in.

use vstd::prelude::*;
use crate::args::DeviceInfo;
use crate::settings::SettingsMap;

verus! {

/// Where a title or an image is shown.
#[derive(Clone, Copy, Debug, PartialEq, Eq)]
pub enum StreamDeckTarget {
    All,
    Hardware,
    Software,
}

/// Which state of a two-state action is meant.
#[derive(Clone, Copy, Debug, PartialEq, Eq)]
pub enum ActionState {
    First,
    Second,
}

pub struct RegistrationEvent {
    pub event: String,
    pub uuid: String,
}

pub struct ShowActionEvent {
    pub event: String,
    pub context: String,
}

pub struct SetStatePayload {
    pub state: i32,
}

pub struct SetStateEvent {
    pub event: String,
    pub context: String,
    pub payload: SetStatePayload,
}

/// A feedback command. The payload is a JSON text.
pub struct SetFeedbackEvent {
    pub event: String,
    pub context: String,
    pub payload: String,
}

pub struct SetFeedbackLayoutPayload {
    pub layout: String,
}

pub struct SetFeedbackLayoutEvent {
    pub event: String,
    pub context: String,
    pub payload: SetFeedbackLayoutPayload,
}

pub struct LogMessagePayload {
    pub message: String,
}

pub struct LogMessageEvent {
    pub event: String,
    pub payload: LogMessagePayload,
}

pub struct OpenUrlPayload {
    pub url: String,
}

pub struct OpenUrlEvent {
    pub event: String,
    pub payload: OpenUrlPayload,
}

pub struct SetSettingsEvent {
    pub event: String,
    pub context: String,
    pub payload: SettingsMap,
}

pub struct GetSettingsEvent {
    pub event: String,
    pub context: String,
}

pub struct SwitchToProfilePayload {
    pub profile: String,
}

pub struct SwitchToProfileEvent {
    pub event: String,
    pub context: String,
    pub device: String,
    pub payload: SwitchToProfilePayload,
}

pub struct SendToPropertyInspectorEvent {
    pub event: String,
    pub action: String,
    pub context: String,
    pub payload: SettingsMap,
}

pub struct SetTitleImagePayload {
    pub title: Option<String>,
    pub image: Option<String>,
    pub target: Option<StreamDeckTarget>,
    pub state: Option<ActionState>,
}

pub struct SetTitleImageEvent {
    pub event: String,
    pub context: String,
    pub payload: SetTitleImagePayload,
}

#[derive(Clone, Copy, Debug, PartialEq, Eq)]
pub struct PayloadCoordinates {
    pub column: i32,
    pub row: i32,
}

#[derive(Clone, Copy, Debug, PartialEq, Eq)]
pub struct EmptySettings {}

pub struct DidReceiveSettingsPayload {
    pub settings: SettingsMap,
    pub coordinates: Option<PayloadCoordinates>,
    pub is_in_multi_action: bool,
}

pub struct DidReceiveSettingsEvent {
    pub action: String,
    pub context: String,
    pub device: String,
    pub payload: DidReceiveSettingsPayload,
}

pub struct DidReceiveGlobalSettingsPayload {
    pub settings: SettingsMap,
}

pub struct DidReceiveGlobalSettingsEvent {
    pub payload: DidReceiveGlobalSettingsPayload,
}

pub struct KeyEventPayload {
    pub state: Option<i32>,
    pub user_desired_state: Option<i32>,
    pub is_in_multi_action: bool,
    pub coordinates: Option<PayloadCoordinates>,
    pub settings: SettingsMap,
}

pub struct KeyEvent {
    pub action: String,
    pub context: String,
    pub device: String,
    pub payload: KeyEventPayload,
    /// Set while the event is dispatched; no frame carries it.
    pub is_double_tap: bool,
}

pub struct DialRotateEventPayload {
    pub ticks: i32,
    pub pressed: bool,
    pub settings: SettingsMap,
}

pub struct DialRotateEvent {
    pub action: String,
    pub context: String,
    pub device: String,
    pub payload: DialRotateEventPayload,
}

pub struct DialPressEventPayload {
    pub pressed: Option<bool>,
    pub coordinates: Option<PayloadCoordinates>,
    pub settings: SettingsMap,
}

pub struct DialPressEvent {
    pub action: String,
    pub context: String,
    pub device: String,
    pub payload: DialPressEventPayload,
}

pub struct TouchTapEventPayload {
    pub hold: bool,
    pub coordinates: PayloadCoordinates,
    pub tap_pos: [i32; 2],
    pub settings: SettingsMap,
}

pub struct TouchTapEvent {
    pub action: String,
    pub context: String,
    pub device: String,
    pub payload: TouchTapEventPayload,
}

#[derive(Clone, Copy, Debug, PartialEq, Eq)]
pub enum Controller {
    Keypad,
    Encoder,
}

pub struct AppearEventPayload {
    pub state: Option<i32>,
    pub is_in_multi_action: bool,
    pub coordinates: Option<PayloadCoordinates>,
    pub settings: SettingsMap,
    pub controller: Controller,
}

pub struct AppearEvent {
    pub action: String,
    pub context: String,
    pub device: String,
    pub payload: AppearEventPayload,
}

#[derive(Clone, Copy, Debug, PartialEq, Eq)]
pub enum TitleAlignment {
    Bottom,
    Top,
    Middle,
}

pub struct TitleParameters {
    pub font_family: String,
    pub font_size: i32,
    pub font_style: String,
    pub font_underline: bool,
    pub show_title: bool,
    pub title_alignment: TitleAlignment,
    pub title_color: String,
}

pub struct TitleParametersDidChangeEventPayload {
    pub state: i32,
    pub title: String,
    pub title_parameters: TitleParameters,
    pub coordinates: Option<PayloadCoordinates>,
    pub settings: SettingsMap,
}

pub struct TitleParametersDidChangeEvent {
    pub action: String,
    pub context: String,
    pub device: String,
    pub payload: TitleParametersDidChangeEventPayload,
}

pub struct DeviceDidConnectEvent {
    pub device: String,
    pub device_info: DeviceInfo,
}

pub struct DeviceDidDisconnectEvent {
    pub device: String,
}

pub struct ApplicationEvent {
    pub application: String,
}

#[derive(Clone, Copy, Debug, PartialEq, Eq)]
pub struct SystemDidWakeUpEvent {}

pub struct PropertyInspectorAppearEvent {
    pub action: String,
    pub context: String,
    pub device: String,
}

pub struct SendToPluginEvent {
    pub action: String,
    pub context: String,
    pub payload: SettingsMap,
}

/// One inbound frame, decoded.
pub enum InputEvent {
    DidReceiveSettings(DidReceiveSettingsEvent),
    DidReceiveGlobalSettings(DidReceiveGlobalSettingsEvent),
    KeyDown(KeyEvent),
    KeyUp(KeyEvent),
    DialRotate(DialRotateEvent),
    DialPress(DialPressEvent),
    TouchTap(TouchTapEvent),
    WillAppear(AppearEvent),
    WillDisappear(AppearEvent),
    TitleParametersDidChange(TitleParametersDidChangeEvent),
    DeviceDidConnect(DeviceDidConnectEvent),
    DeviceDidDisconnect(DeviceDidDisconnectEvent),
    ApplicationDidLaunch(ApplicationEvent),
    ApplicationDidTerminate(ApplicationEvent),
    SystemDidWakeUp(SystemDidWakeUpEvent),
    PropertyInspectorDidAppear(PropertyInspectorAppearEvent),
    PropertyInspectorDidDisappear(PropertyInspectorAppearEvent),
    SendToPlugin(SendToPluginEvent),
}

} // verus!
