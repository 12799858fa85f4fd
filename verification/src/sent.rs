//! The command frames that go out to the host, each as its JSON text.

use vstd::prelude::*;
use vstd::string::StringExecFns;
use crate::events::{
    ActionState, GetSettingsEvent, LogMessageEvent, LogMessagePayload, OpenUrlEvent,
    OpenUrlPayload, RegistrationEvent, SendToPropertyInspectorEvent, SetFeedbackEvent,
    SetFeedbackLayoutEvent, SetFeedbackLayoutPayload, SetSettingsEvent, SetStateEvent,
    SetStatePayload, SetTitleImageEvent, SetTitleImagePayload, ShowActionEvent, StreamDeckTarget,
    SwitchToProfileEvent, SwitchToProfilePayload,
};
use crate::decode::string_view;
use crate::json::{integer, json_integer, json_string, object, object_text, pair_texts, quote};
use crate::settings::SettingsMap;

verus! {

/// A member whose value is a string.
pub open spec fn string_member(key: Seq<char>, s: Seq<char>) -> (Seq<char>, Seq<char>) {
    (json_string(key), json_string(s))
}

/// A member whose value is a JSON text already.
pub open spec fn text_member(key: Seq<char>, text: Seq<char>) -> (Seq<char>, Seq<char>) {
    (json_string(key), text)
}

/// The JSON text of an optional string: `null` where there is none.
pub open spec fn optional_string_text(o: Option<Seq<char>>) -> Seq<char> {
    match o {
        Some(s) => json_string(s),
        None => "null"@,
    }
}

/// The number that stands for a target on the wire.
pub open spec fn target_code(t: StreamDeckTarget) -> i64 {
    match t {
        StreamDeckTarget::All => 0,
        StreamDeckTarget::Hardware => 1,
        StreamDeckTarget::Software => 2,
    }
}

/// The number that stands for a state on the wire.
pub open spec fn state_code(s: ActionState) -> i64 {
    match s {
        ActionState::First => 0,
        ActionState::Second => 1,
    }
}

/// The JSON text of an optional target: `null` where there is none.
pub open spec fn optional_target_text(o: Option<StreamDeckTarget>) -> Seq<char> {
    match o {
        Some(t) => json_integer(target_code(t)),
        None => "null"@,
    }
}

/// The JSON text of an optional state: `null` where there is none.
pub open spec fn optional_state_text(o: Option<ActionState>) -> Seq<char> {
    match o {
        Some(s) => json_integer(state_code(s)),
        None => "null"@,
    }
}

/// The members of a settings blob: each key as a JSON string, with its value.
pub open spec fn settings_members(keys: Seq<Seq<char>>, values: Seq<Seq<char>>) -> Seq<
    (Seq<char>, Seq<char>),
> {
    Seq::new(keys.len(), |i: int| (json_string(keys[i]), values[i]))
}

/// The JSON object that holds a settings blob, its keys in their order.
pub open spec fn settings_text(keys: Seq<Seq<char>>, values: Seq<Seq<char>>) -> Seq<char> {
    object_text(settings_members(keys, values))
}

/// `{event, uuid}`
pub open spec fn registration_frame(event: Seq<char>, uuid: Seq<char>) -> Seq<char> {
    object_text(seq![string_member("event"@, event), string_member("uuid"@, uuid)])
}

/// `{event, context}`
pub open spec fn context_frame(event: Seq<char>, context: Seq<char>) -> Seq<char> {
    object_text(seq![string_member("event"@, event), string_member("context"@, context)])
}

/// `{event, context, payload}`
pub open spec fn payload_frame(event: Seq<char>, context: Seq<char>, payload: Seq<char>) -> Seq<
    char,
> {
    object_text(
        seq![
            string_member("event"@, event),
            string_member("context"@, context),
            text_member("payload"@, payload),
        ],
    )
}

/// `{event, payload}`
pub open spec fn bare_payload_frame(event: Seq<char>, payload: Seq<char>) -> Seq<char> {
    object_text(seq![string_member("event"@, event), text_member("payload"@, payload)])
}

/// An object with the one member `key`, a string.
pub open spec fn single_string_text(key: Seq<char>, s: Seq<char>) -> Seq<char> {
    object_text(seq![string_member(key, s)])
}

/// `{state}`
pub open spec fn state_payload_text(state: i32) -> Seq<char> {
    object_text(seq![text_member("state"@, json_integer(state as i64))])
}

/// `{title, image, target, state}`, with `null` for what is absent.
pub open spec fn title_image_payload_text(
    title: Option<Seq<char>>,
    image: Option<Seq<char>>,
    target: Option<StreamDeckTarget>,
    state: Option<ActionState>,
) -> Seq<char> {
    object_text(
        seq![
            text_member("title"@, optional_string_text(title)),
            text_member("image"@, optional_string_text(image)),
            text_member("target"@, optional_target_text(target)),
            text_member("state"@, optional_state_text(state)),
        ],
    )
}

/// `{event, context, device, payload: {profile}}`
pub open spec fn switch_profile_frame(
    event: Seq<char>,
    context: Seq<char>,
    device: Seq<char>,
    profile: Seq<char>,
) -> Seq<char> {
    object_text(
        seq![
            string_member("event"@, event),
            string_member("context"@, context),
            string_member("device"@, device),
            text_member("payload"@, single_string_text("profile"@, profile)),
        ],
    )
}

/// `{event, action, context, payload}`
pub open spec fn inspector_frame(
    event: Seq<char>,
    action: Seq<char>,
    context: Seq<char>,
    payload: Seq<char>,
) -> Seq<char> {
    object_text(
        seq![
            string_member("event"@, event),
            string_member("action"@, action),
            string_member("context"@, context),
            text_member("payload"@, payload),
        ],
    )
}

fn string_field(key: &str, s: &str) -> (r: (String, String))
    ensures
        (r.0@, r.1@) == string_member(key@, s@),
{
    (quote(key), quote(s))
}

fn text_field(key: &str, text: String) -> (r: (String, String))
    ensures
        (r.0@, r.1@) == text_member(key@, text@),
{
    (quote(key), text)
}

fn optional_string(o: &Option<String>) -> (r: String)
    ensures
        r@ == optional_string_text(string_view(*o)),
{
    match o {
        Some(s) => quote(s.as_str()),
        None => String::from_str("null"),
    }
}

fn optional_target(o: &Option<StreamDeckTarget>) -> (r: String)
    ensures
        r@ == optional_target_text(*o),
{
    match o {
        Some(StreamDeckTarget::All) => integer(0),
        Some(StreamDeckTarget::Hardware) => integer(1),
        Some(StreamDeckTarget::Software) => integer(2),
        None => String::from_str("null"),
    }
}

fn optional_state(o: &Option<ActionState>) -> (r: String)
    ensures
        r@ == optional_state_text(*o),
{
    match o {
        Some(ActionState::First) => integer(0),
        Some(ActionState::Second) => integer(1),
        None => String::from_str("null"),
    }
}

fn single_string(key: &str, s: &str) -> (r: String)
    ensures
        r@ == single_string_text(key@, s@),
{
    let fields = vec![string_field(key, s)];
    assert(pair_texts(fields@) =~= seq![string_member(key@, s@)]);
    object(&fields)
}

/// The JSON object that holds `settings`, its keys in their order.
pub fn settings_object(settings: &SettingsMap) -> (r: String)
    requires
        settings.wf(),
    ensures
        r@ == settings_text(settings.keys(), settings.values()),
{
    let mut fields: Vec<(String, String)> = Vec::new();
    let n = settings.len();
    let mut i: usize = 0;
    while i < n
        invariant
            settings.wf(),
            n == settings.keys().len(),
            n == settings.values().len(),
            i <= n,
            fields.len() == i,
            forall|j: int|
                0 <= j < i ==> (#[trigger] fields[j]).0@ == json_string(settings.keys()[j])
                    && fields[j].1@ == settings.values()[j],
        decreases n - i,
    {
        let k = quote(settings.key_at(i).as_str());
        let v = settings.value_at(i).clone();
        fields.push((k, v));
        i += 1;
    }
    assert(pair_texts(fields@) =~= settings_members(settings.keys(), settings.values()));
    object(&fields)
}

impl RegistrationEvent {
    pub fn to_json(&self) -> (r: String)
        ensures
            r@ == registration_frame(self.event@, self.uuid@),
    {
        let fields = vec![
            string_field("event", self.event.as_str()),
            string_field("uuid", self.uuid.as_str()),
        ];
        assert(pair_texts(fields@) =~= seq![
            string_member("event"@, self.event@),
            string_member("uuid"@, self.uuid@),
        ]);
        object(&fields)
    }
}

fn context_object(event: &str, context: &str) -> (r: String)
    ensures
        r@ == context_frame(event@, context@),
{
    let fields = vec![string_field("event", event), string_field("context", context)];
    assert(pair_texts(fields@) =~= seq![
        string_member("event"@, event@),
        string_member("context"@, context@),
    ]);
    object(&fields)
}

fn payload_object(event: &str, context: &str, payload: String) -> (r: String)
    ensures
        r@ == payload_frame(event@, context@, payload@),
{
    let fields = vec![
        string_field("event", event),
        string_field("context", context),
        text_field("payload", payload),
    ];
    assert(pair_texts(fields@) =~= seq![
        string_member("event"@, event@),
        string_member("context"@, context@),
        text_member("payload"@, payload@),
    ]);
    object(&fields)
}

fn bare_payload_object(event: &str, payload: String) -> (r: String)
    ensures
        r@ == bare_payload_frame(event@, payload@),
{
    let fields = vec![string_field("event", event), text_field("payload", payload)];
    assert(pair_texts(fields@) =~= seq![
        string_member("event"@, event@),
        text_member("payload"@, payload@),
    ]);
    object(&fields)
}

impl ShowActionEvent {
    pub fn to_json(&self) -> (r: String)
        ensures
            r@ == context_frame(self.event@, self.context@),
    {
        context_object(self.event.as_str(), self.context.as_str())
    }
}

impl GetSettingsEvent {
    pub fn to_json(&self) -> (r: String)
        ensures
            r@ == context_frame(self.event@, self.context@),
    {
        context_object(self.event.as_str(), self.context.as_str())
    }
}

impl SetStateEvent {
    pub fn to_json(&self) -> (r: String)
        ensures
            r@ == payload_frame(
                self.event@,
                self.context@,
                state_payload_text(self.payload.state),
            ),
    {
        let inner = vec![text_field("state", integer(self.payload.state as i64))];
        assert(pair_texts(inner@) =~= seq![
            text_member("state"@, json_integer(self.payload.state as i64)),
        ]);
        payload_object(self.event.as_str(), self.context.as_str(), object(&inner))
    }
}

impl SetFeedbackEvent {
    pub fn to_json(&self) -> (r: String)
        ensures
            r@ == payload_frame(self.event@, self.context@, self.payload@),
    {
        payload_object(self.event.as_str(), self.context.as_str(), self.payload.clone())
    }
}

impl SetFeedbackLayoutEvent {
    pub fn to_json(&self) -> (r: String)
        ensures
            r@ == payload_frame(
                self.event@,
                self.context@,
                single_string_text("layout"@, self.payload.layout@),
            ),
    {
        payload_object(
            self.event.as_str(),
            self.context.as_str(),
            single_string("layout", self.payload.layout.as_str()),
        )
    }
}

impl LogMessageEvent {
    pub fn to_json(&self) -> (r: String)
        ensures
            r@ == bare_payload_frame(
                self.event@,
                single_string_text("message"@, self.payload.message@),
            ),
    {
        bare_payload_object(
            self.event.as_str(),
            single_string("message", self.payload.message.as_str()),
        )
    }
}

impl OpenUrlEvent {
    pub fn to_json(&self) -> (r: String)
        ensures
            r@ == bare_payload_frame(self.event@, single_string_text("url"@, self.payload.url@)),
    {
        bare_payload_object(self.event.as_str(), single_string("url", self.payload.url.as_str()))
    }
}

impl SetSettingsEvent {
    pub fn to_json(&self) -> (r: String)
        requires
            self.payload.wf(),
        ensures
            r@ == payload_frame(
                self.event@,
                self.context@,
                settings_text(self.payload.keys(), self.payload.values()),
            ),
    {
        payload_object(self.event.as_str(), self.context.as_str(), settings_object(&self.payload))
    }
}

impl SwitchToProfileEvent {
    pub fn to_json(&self) -> (r: String)
        ensures
            r@ == switch_profile_frame(
                self.event@,
                self.context@,
                self.device@,
                self.payload.profile@,
            ),
    {
        let fields = vec![
            string_field("event", self.event.as_str()),
            string_field("context", self.context.as_str()),
            string_field("device", self.device.as_str()),
            text_field("payload", single_string("profile", self.payload.profile.as_str())),
        ];
        assert(pair_texts(fields@) =~= seq![
            string_member("event"@, self.event@),
            string_member("context"@, self.context@),
            string_member("device"@, self.device@),
            text_member("payload"@, single_string_text("profile"@, self.payload.profile@)),
        ]);
        object(&fields)
    }
}

impl SendToPropertyInspectorEvent {
    pub fn to_json(&self) -> (r: String)
        requires
            self.payload.wf(),
        ensures
            r@ == inspector_frame(
                self.event@,
                self.action@,
                self.context@,
                settings_text(self.payload.keys(), self.payload.values()),
            ),
    {
        let fields = vec![
            string_field("event", self.event.as_str()),
            string_field("action", self.action.as_str()),
            string_field("context", self.context.as_str()),
            text_field("payload", settings_object(&self.payload)),
        ];
        assert(pair_texts(fields@) =~= seq![
            string_member("event"@, self.event@),
            string_member("action"@, self.action@),
            string_member("context"@, self.context@),
            text_member("payload"@, settings_text(self.payload.keys(), self.payload.values())),
        ]);
        object(&fields)
    }
}

impl SetTitleImagePayload {
    pub fn to_json(&self) -> (r: String)
        ensures
            r@ == title_image_payload_text(
                string_view(self.title),
                string_view(self.image),
                self.target,
                self.state,
            ),
    {
        let fields = vec![
            text_field("title", optional_string(&self.title)),
            text_field("image", optional_string(&self.image)),
            text_field("target", optional_target(&self.target)),
            text_field("state", optional_state(&self.state)),
        ];
        assert(pair_texts(fields@) =~= seq![
            text_member("title"@, optional_string_text(string_view(self.title))),
            text_member("image"@, optional_string_text(string_view(self.image))),
            text_member("target"@, optional_target_text(self.target)),
            text_member("state"@, optional_state_text(self.state)),
        ]);
        object(&fields)
    }
}

impl SetTitleImageEvent {
    pub fn to_json(&self) -> (r: String)
        ensures
            r@ == payload_frame(
                self.event@,
                self.context@,
                title_image_payload_text(
                    string_view(self.payload.title),
                    string_view(self.payload.image),
                    self.payload.target,
                    self.payload.state,
                ),
            ),
    {
        payload_object(self.event.as_str(), self.context.as_str(), self.payload.to_json())
    }
}

pub fn set_title(
    context: String,
    title: Option<String>,
    target: Option<StreamDeckTarget>,
    state: Option<ActionState>,
) -> (r: String)
    ensures
        r@ == payload_frame(
            "setTitle"@,
            context@,
            title_image_payload_text(string_view(title), None, target, state),
        ),
{
    let event = SetTitleImageEvent {
        event: String::from_str("setTitle"),
        context,
        payload: SetTitleImagePayload { image: None, title, target, state },
    };
    event.to_json()
}

pub fn register(event: String, uuid: String) -> (r: String)
    ensures
        r@ == registration_frame(event@, uuid@),
{
    let event = RegistrationEvent { event, uuid };
    event.to_json()
}

pub fn show_ok(context: String) -> (r: String)
    ensures
        r@ == context_frame("showOk"@, context@),
{
    let event = ShowActionEvent { event: String::from_str("showOk"), context };
    event.to_json()
}

pub fn show_alert(context: String) -> (r: String)
    ensures
        r@ == context_frame("showAlert"@, context@),
{
    let event = ShowActionEvent { event: String::from_str("showAlert"), context };
    event.to_json()
}

pub fn set_state(context: String, state: i32) -> (r: String)
    ensures
        r@ == payload_frame("setState"@, context@, state_payload_text(state)),
{
    let event = SetStateEvent {
        event: String::from_str("setState"),
        payload: SetStatePayload { state },
        context,
    };
    event.to_json()
}

/// The feedback command for `context`. `feedback` is the JSON text of the
/// payload and goes into the frame as it is.
pub fn set_feedback(context: String, feedback: String) -> (r: String)
    ensures
        r@ == payload_frame("setFeedback"@, context@, feedback@),
{
    let event = SetFeedbackEvent {
        event: String::from_str("setFeedback"),
        payload: feedback,
        context,
    };
    event.to_json()
}

pub fn set_feedback_layout(context: String, layout: String) -> (r: String)
    ensures
        r@ == payload_frame(
            "setFeedbackLayout"@,
            context@,
            single_string_text("layout"@, layout@),
        ),
{
    let event = SetFeedbackLayoutEvent {
        event: String::from_str("setFeedbackLayout"),
        payload: SetFeedbackLayoutPayload { layout },
        context,
    };
    event.to_json()
}

pub fn log_message(message: String) -> (r: String)
    ensures
        r@ == bare_payload_frame("logMessage"@, single_string_text("message"@, message@)),
{
    let event = LogMessageEvent {
        event: String::from_str("logMessage"),
        payload: LogMessagePayload { message },
    };
    event.to_json()
}

pub fn open_url(url: String) -> (r: String)
    ensures
        r@ == bare_payload_frame("openUrl"@, single_string_text("url"@, url@)),
{
    let event = OpenUrlEvent {
        event: String::from_str("openUrl"),
        payload: OpenUrlPayload { url },
    };
    event.to_json()
}

pub fn switch_to_profile(context: String, device: String, profile: String) -> (r: String)
    ensures
        r@ == switch_profile_frame("switchToProfile"@, context@, device@, profile@),
{
    let event = SwitchToProfileEvent {
        event: String::from_str("switchToProfile"),
        context,
        device,
        payload: SwitchToProfilePayload { profile },
    };
    event.to_json()
}

pub fn send_to_property_inspector(action: String, context: String, payload: SettingsMap) -> (r:
    String)
    requires
        payload.wf(),
    ensures
        r@ == inspector_frame(
            "sendToPropertyInspector"@,
            action@,
            context@,
            settings_text(payload.keys(), payload.values()),
        ),
{
    let event = SendToPropertyInspectorEvent {
        event: String::from_str("sendToPropertyInspector"),
        action,
        context,
        payload,
    };
    event.to_json()
}

pub fn set_image(
    context: String,
    image: Option<String>,
    target: Option<StreamDeckTarget>,
    state: Option<ActionState>,
) -> (r: String)
    ensures
        r@ == payload_frame(
            "setImage"@,
            context@,
            title_image_payload_text(None, string_view(image), target, state),
        ),
{
    let event = SetTitleImageEvent {
        event: String::from_str("setImage"),
        context,
        payload: SetTitleImagePayload { title: None, image, target, state },
    };
    event.to_json()
}

pub fn get_settings_event(context: String) -> (r: String)
    ensures
        r@ == context_frame("getSettings"@, context@),
{
    let event = GetSettingsEvent { event: String::from_str("getSettings"), context };
    event.to_json()
}

pub fn set_settings(context: &String, payload: SettingsMap) -> (r: String)
    requires
        payload.wf(),
    ensures
        r@ == payload_frame(
            "setSettings"@,
            context@,
            settings_text(payload.keys(), payload.values()),
        ),
{
    let event = SetSettingsEvent {
        event: String::from_str("setSettings"),
        context: context.clone(),
        payload,
    };
    event.to_json()
}

pub fn get_global_settings_event(context: String) -> (r: String)
    ensures
        r@ == context_frame("getGlobalSettings"@, context@),
{
    let event = GetSettingsEvent { event: String::from_str("getGlobalSettings"), context };
    event.to_json()
}

pub fn set_global_settings(context: String, payload: SettingsMap) -> (r: String)
    requires
        payload.wf(),
    ensures
        r@ == payload_frame(
            "setGlobalSettings"@,
            context@,
            settings_text(payload.keys(), payload.values()),
        ),
{
    let event = SetSettingsEvent {
        event: String::from_str("setGlobalSettings"),
        context,
        payload,
    };
    event.to_json()
}

} // verus!
