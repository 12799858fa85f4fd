//! The session handle: the start-up arguments, the session's state, and
//! the queue of frames that wait to be written to the host.

use vstd::prelude::*;
use crate::args::StreamDeckArgs;
use crate::events::{ActionState, StreamDeckTarget};
use crate::decode::string_view;
use crate::sent::{
    bare_payload_frame, context_frame, inspector_frame, payload_frame,
    registration_frame, settings_text, single_string_text, state_payload_text,
    switch_profile_frame, title_image_payload_text,
};
use crate::settings::{merged, SettingsMap};
use crate::keyed::texts;
use crate::store::{visible_under, SessionStore};

verus! {

/// One session with the host. Frames that the session sends are appended to
/// `outbox`, in the order of the calls; whoever owns the connection takes
/// them from there and writes them out in that order.
pub struct StreamDeck {
    pub args: StreamDeckArgs,
    pub store: SessionStore,
    pub outbox: Vec<String>,
    /// Messages for the embedding program, where it asked for them.
    pub external: Option<Vec<String>>,
}

impl StreamDeck {
    pub open spec fn wf(&self) -> bool {
        self.store.wf()
    }

    /// The frames that wait to be written, oldest first.
    pub open spec fn pending(&self) -> Seq<Seq<char>> {
        texts(self.outbox@)
    }

    /// Everything but the outbox is as in `other`.
    pub open spec fn same_state_as(&self, other: &StreamDeck) -> bool {
        &&& self.args == other.args
        &&& self.store == other.store
        &&& self.external == other.external
    }

    /// A session with no state and nothing to write. `with_external` says
    /// whether the embedding program takes messages.
    pub fn new(args: StreamDeckArgs, with_external: bool) -> (r: Self)
        ensures
            r.wf(),
            r.args == args,
            r.pending() == Seq::<Seq<char>>::empty(),
            r.store.instances() == Map::<Seq<char>, Map<Seq<char>, Seq<char>>>::empty(),
            r.store.global() == Map::<Seq<char>, Seq<char>>::empty(),
            r.store.visibility() == Seq::<(Seq<char>, Seq<char>)>::empty(),
            r.external.is_some() == with_external,
            with_external ==> r.external.unwrap()@ == Seq::<String>::empty(),
    {
        let r = StreamDeck {
            args,
            store: SessionStore::new(),
            outbox: Vec::new(),
            external: if with_external {
                Some(Vec::new())
            } else {
                None
            },
        };
        assert(r.pending() =~= Seq::<Seq<char>>::empty());
        r
    }

    /// The shared settings.
    pub fn global_settings(&self) -> (r: SettingsMap)
        requires
            self.wf(),
        ensures
            r.wf(),
            r@ == self.store.global(),
    {
        self.store.global_settings()
    }

    /// The settings last stored for `context`, if any were.
    pub fn settings(&self, context: &String) -> (r: Option<SettingsMap>)
        requires
            self.wf(),
        ensures
            match r {
                Some(m) => m.wf() && self.store.instances().contains_key(context@)
                    && self.store.instances()[context@] == m@,
                None => !self.store.instances().contains_key(context@),
            },
    {
        self.store.settings(context)
    }

    /// Queues `data` for the embedding program.
    pub fn external(&mut self, data: String)
        requires
            old(self).external.is_some(),
        ensures
            final(self).external.is_some(),
            final(self).external.unwrap()@ == old(self).external.unwrap()@.push(data),
            final(self).args == old(self).args,
            final(self).store == old(self).store,
            final(self).outbox == old(self).outbox,
    {
        match &mut self.external {
            Some(queue) => {
                queue.push(data);
            },
            None => {},
        }
    }

    /// Queues one frame.
    pub fn send(&mut self, content: String)
        ensures
            final(self).pending() == old(self).pending().push(content@),
            final(self).same_state_as(old(self)),
    {
        self.outbox.push(content);
        assert(self.pending() =~= old(self).pending().push(content@));
    }

    /// Takes the frames that wait to be written, oldest first, and leaves
    /// the outbox empty.
    pub fn take_outbox(&mut self) -> (frames: Vec<String>)
        ensures
            texts(frames@) == old(self).pending(),
            final(self).pending() == Seq::<Seq<char>>::empty(),
            final(self).same_state_as(old(self)),
    {
        let mut frames: Vec<String> = Vec::new();
        frames.append(&mut self.outbox);
        assert(texts(frames@) =~= old(self).pending());
        assert(self.pending() =~= Seq::<Seq<char>>::empty());
        frames
    }

    /// Queues the registration of the plugin, then the request for the
    /// shared settings.
    pub fn register(&mut self)
        ensures
            final(self).pending() == old(self).pending().push(
                registration_frame(old(self).args.register_event@, old(self).args.plugin_uuid@),
            ).push(context_frame("getGlobalSettings"@, old(self).args.plugin_uuid@)),
            final(self).same_state_as(old(self)),
    {
        let uuid = self.args.plugin_uuid.clone();
        let frame = crate::sent::register(self.args.register_event.clone(), uuid.clone());
        self.send(frame);
        self.send(crate::sent::get_global_settings_event(uuid));
    }

    pub fn set_title(&mut self, context: String, title: Option<String>)
        ensures
            final(self).pending() == old(self).pending().push(
                payload_frame(
                    "setTitle"@,
                    context@,
                    title_image_payload_text(string_view(title), None, None, None),
                ),
            ),
            final(self).same_state_as(old(self)),
    {
        self.send(crate::sent::set_title(context, title, None, None));
    }

    /// The contexts visible under the handler `uuid`, in order of appearance.
    pub fn contexts_of(&self, uuid: &String) -> (r: Vec<String>)
        requires
            self.wf(),
        ensures
            texts(r@) == visible_under(self.store.visibility(), uuid@),
    {
        self.store.contexts_of(uuid)
    }

    pub fn set_title_extra(
        &mut self,
        context: String,
        title: Option<String>,
        target: Option<StreamDeckTarget>,
        state: Option<ActionState>,
    )
        ensures
            final(self).pending() == old(self).pending().push(
                payload_frame(
                    "setTitle"@,
                    context@,
                    title_image_payload_text(string_view(title), None, target, state),
                ),
            ),
            final(self).same_state_as(old(self)),
    {
        self.send(crate::sent::set_title(context, title, target, state));
    }

    pub fn set_image_b64(&mut self, context: String, base64: Option<String>)
        ensures
            final(self).pending() == old(self).pending().push(
                payload_frame(
                    "setImage"@,
                    context@,
                    title_image_payload_text(None, string_view(base64), None, None),
                ),
            ),
            final(self).same_state_as(old(self)),
    {
        self.send(crate::sent::set_image(context, base64, None, None));
    }

    pub fn show_ok(&mut self, context: String)
        ensures
            final(self).pending() == old(self).pending().push(context_frame("showOk"@, context@)),
            final(self).same_state_as(old(self)),
    {
        self.send(crate::sent::show_ok(context));
    }

    pub fn log(&mut self, message: String)
        ensures
            final(self).pending() == old(self).pending().push(
                bare_payload_frame("logMessage"@, single_string_text("message"@, message@)),
            ),
            final(self).same_state_as(old(self)),
    {
        self.send(crate::sent::log_message(message));
    }

    pub fn show_alert(&mut self, context: String)
        ensures
            final(self).pending() == old(self).pending().push(
                context_frame("showAlert"@, context@),
            ),
            final(self).same_state_as(old(self)),
    {
        self.send(crate::sent::show_alert(context));
    }

    /// Queues the switch of `device` to `profile`, in the plugin's name.
    pub fn switch_to_profile(&mut self, device: String, profile: String)
        ensures
            final(self).pending() == old(self).pending().push(
                switch_profile_frame(
                    "switchToProfile"@,
                    old(self).args.plugin_uuid@,
                    device@,
                    profile@,
                ),
            ),
            final(self).same_state_as(old(self)),
    {
        let uuid = self.args.plugin_uuid.clone();
        self.send(crate::sent::switch_to_profile(uuid, device, profile));
    }

    pub fn send_to_property_inspector(
        &mut self,
        action: String,
        context: String,
        payload: SettingsMap,
    )
        requires
            payload.wf(),
        ensures
            final(self).pending() == old(self).pending().push(
                inspector_frame(
                    "sendToPropertyInspector"@,
                    action@,
                    context@,
                    settings_text(payload.keys(), payload.values()),
                ),
            ),
            final(self).same_state_as(old(self)),
    {
        self.send(crate::sent::send_to_property_inspector(action, context, payload));
    }

    pub fn set_state(&mut self, context: String, state: i32)
        ensures
            final(self).pending() == old(self).pending().push(
                payload_frame("setState"@, context@, state_payload_text(state)),
            ),
            final(self).same_state_as(old(self)),
    {
        self.send(crate::sent::set_state(context, state));
    }

    /// Queues the feedback command for `context`; `feedback` is the JSON
    /// text of its payload.
    pub fn set_feedback(&mut self, context: String, feedback: String)
        ensures
            final(self).pending() == old(self).pending().push(
                payload_frame("setFeedback"@, context@, feedback@),
            ),
            final(self).same_state_as(old(self)),
    {
        self.send(crate::sent::set_feedback(context, feedback));
    }

    pub fn open_url(&mut self, url: String)
        ensures
            final(self).pending() == old(self).pending().push(
                bare_payload_frame("openUrl"@, single_string_text("url"@, url@)),
            ),
            final(self).same_state_as(old(self)),
    {
        self.send(crate::sent::open_url(url));
    }

    /// Queues the new settings of `context` for the host, then the request
    /// to have them sent back.
    pub fn set_settings(&mut self, context: String, settings: SettingsMap)
        requires
            settings.wf(),
        ensures
            final(self).pending() == old(self).pending().push(
                payload_frame(
                    "setSettings"@,
                    context@,
                    settings_text(settings.keys(), settings.values()),
                ),
            ).push(context_frame("getSettings"@, context@)),
            final(self).same_state_as(old(self)),
    {
        let frame = crate::sent::set_settings(&context, settings);
        self.send(frame);
        self.send(crate::sent::get_settings_event(context));
    }

    /// Merges `settings` into the shared settings, field by field. Where
    /// `update` is given, the merged settings are queued for the host as
    /// well, followed by the request to have them sent back.
    pub fn update_global_settings(&mut self, settings: &SettingsMap, update: Option<bool>)
        requires
            old(self).wf(),
            settings.wf(),
        ensures
            final(self).wf(),
            final(self).args == old(self).args,
            final(self).external == old(self).external,
            final(self).store.global() == merged(old(self).store.global(), settings@),
            final(self).store.instances() == old(self).store.instances(),
            final(self).store.visibility() == old(self).store.visibility(),
            update.is_none() ==> final(self).pending() == old(self).pending(),
            update.is_some() ==> final(self).pending() == old(self).pending().push(
                payload_frame(
                    "setGlobalSettings"@,
                    old(self).args.plugin_uuid@,
                    settings_text(
                        final(self).store.global_keys(),
                        final(self).store.global_values(),
                    ),
                ),
            ).push(context_frame("getGlobalSettings"@, old(self).args.plugin_uuid@)),
    {
        self.store.update_global_settings(settings);
        if update.is_some() {
            let all = self.store.global_settings();
            self.set_global_settings(all);
        }
    }

    /// Replaces the whole settings blob of `context`.
    pub fn update_instances_settings(&mut self, context: String, settings: SettingsMap)
        requires
            old(self).wf(),
            settings.wf(),
        ensures
            final(self).wf(),
            final(self).args == old(self).args,
            final(self).external == old(self).external,
            final(self).outbox == old(self).outbox,
            final(self).store.instances() == old(self).store.instances().insert(
                context@,
                settings@,
            ),
            final(self).store.global() == old(self).store.global(),
            final(self).store.visibility() == old(self).store.visibility(),
    {
        self.store.update_instances_settings(context, settings);
    }

    /// Queues `settings` as the shared settings for the host, then the
    /// request to have them sent back.
    pub fn set_global_settings(&mut self, settings: SettingsMap)
        requires
            settings.wf(),
        ensures
            final(self).pending() == old(self).pending().push(
                payload_frame(
                    "setGlobalSettings"@,
                    old(self).args.plugin_uuid@,
                    settings_text(settings.keys(), settings.values()),
                ),
            ).push(context_frame("getGlobalSettings"@, old(self).args.plugin_uuid@)),
            final(self).same_state_as(old(self)),
    {
        let uuid = self.args.plugin_uuid.clone();
        let frame = crate::sent::set_global_settings(uuid.clone(), settings);
        self.send(frame);
        self.send(crate::sent::get_global_settings_event(uuid));
    }
}

} // verus!
