//! Routing: what one inbound event does to the session's state, and which
//! handlers are to be called for it, in which order.

use vstd::prelude::*;
use vstd::string::StringExecFns;
use crate::codec::{
    decode, event_read_as, frame_tag, kind_named, kind_of, DecodeError, EventKind,
};
use crate::events::{InputEvent, KeyEvent};
use crate::press::{
    after_press, after_release, press_starts, release_outcome, state_of, PressState, PressTable,
};
use crate::registry::{shared_id, ActionManager};
use crate::settings::merged;
use crate::store::{appeared, without, Membership, SessionStore};

verus! {

/// The entry points of a handler.
#[derive(Clone, Copy, Debug, PartialEq, Eq)]
pub enum Callback {
    Appear,
    Disappear,
    KeyDown,
    KeyUp,
    LongPress,
    SettingsChanged,
    GlobalSettingsChanged,
    DialRotate,
    DialPress,
    TouchTap,
    TitleParametersChanged,
    DeviceConnect,
    DeviceDisconnect,
    ApplicationLaunch,
    ApplicationTerminate,
    SystemWakeUp,
    PropertyInspectorAppear,
    PropertyInspectorDisappear,
    SendToPlugin,
}

/// One call that is to be made: the place of the handler in the registry,
/// and the entry point.
#[derive(Clone, Copy, Debug, PartialEq, Eq)]
pub struct Invocation {
    pub handler: usize,
    pub callback: Callback,
}

/// The entry point that serves events of kind `kind`.
pub open spec fn callback_for(kind: EventKind) -> Callback {
    match kind {
        EventKind::DidReceiveSettings => Callback::SettingsChanged,
        EventKind::DidReceiveGlobalSettings => Callback::GlobalSettingsChanged,
        EventKind::KeyDown => Callback::KeyDown,
        EventKind::KeyUp => Callback::KeyUp,
        EventKind::DialRotate => Callback::DialRotate,
        EventKind::DialPress => Callback::DialPress,
        EventKind::TouchTap => Callback::TouchTap,
        EventKind::WillAppear => Callback::Appear,
        EventKind::WillDisappear => Callback::Disappear,
        EventKind::TitleParametersDidChange => Callback::TitleParametersChanged,
        EventKind::DeviceDidConnect => Callback::DeviceConnect,
        EventKind::DeviceDidDisconnect => Callback::DeviceDisconnect,
        EventKind::ApplicationDidLaunch => Callback::ApplicationLaunch,
        EventKind::ApplicationDidTerminate => Callback::ApplicationTerminate,
        EventKind::SystemDidWakeUp => Callback::SystemWakeUp,
        EventKind::PropertyInspectorDidAppear => Callback::PropertyInspectorAppear,
        EventKind::PropertyInspectorDidDisappear => Callback::PropertyInspectorDisappear,
        EventKind::SendToPlugin => Callback::SendToPlugin,
    }
}

/// Events of these kinds go to every handler.
pub open spec fn goes_to_all(kind: EventKind) -> bool {
    kind == EventKind::DidReceiveGlobalSettings || kind == EventKind::DeviceDidConnect || kind
        == EventKind::DeviceDidDisconnect || kind == EventKind::ApplicationDidLaunch || kind
        == EventKind::ApplicationDidTerminate || kind == EventKind::SystemDidWakeUp
}

/// The handler that an event names, where it names one.
pub open spec fn action_of(e: InputEvent) -> Option<Seq<char>> {
    match e {
        InputEvent::DidReceiveSettings(x) => Some(x.action@),
        InputEvent::KeyDown(x) => Some(x.action@),
        InputEvent::KeyUp(x) => Some(x.action@),
        InputEvent::DialRotate(x) => Some(x.action@),
        InputEvent::DialPress(x) => Some(x.action@),
        InputEvent::TouchTap(x) => Some(x.action@),
        InputEvent::WillAppear(x) => Some(x.action@),
        InputEvent::WillDisappear(x) => Some(x.action@),
        InputEvent::TitleParametersDidChange(x) => Some(x.action@),
        InputEvent::PropertyInspectorDidAppear(x) => Some(x.action@),
        InputEvent::PropertyInspectorDidDisappear(x) => Some(x.action@),
        InputEvent::SendToPlugin(x) => Some(x.action@),
        _ => None,
    }
}

/// The context that an event names, where it names one.
pub open spec fn context_of(e: InputEvent) -> Option<Seq<char>> {
    match e {
        InputEvent::DidReceiveSettings(x) => Some(x.context@),
        InputEvent::KeyDown(x) => Some(x.context@),
        InputEvent::KeyUp(x) => Some(x.context@),
        InputEvent::DialRotate(x) => Some(x.context@),
        InputEvent::DialPress(x) => Some(x.context@),
        InputEvent::TouchTap(x) => Some(x.context@),
        InputEvent::WillAppear(x) => Some(x.context@),
        InputEvent::WillDisappear(x) => Some(x.context@),
        InputEvent::TitleParametersDidChange(x) => Some(x.context@),
        InputEvent::PropertyInspectorDidAppear(x) => Some(x.context@),
        InputEvent::PropertyInspectorDidDisappear(x) => Some(x.context@),
        InputEvent::SendToPlugin(x) => Some(x.context@),
        _ => None,
    }
}

/// The settings of its context that an event carries, where it carries any.
pub open spec fn settings_of(e: InputEvent) -> Option<Map<Seq<char>, Seq<char>>> {
    match e {
        InputEvent::DidReceiveSettings(x) => Some(x.payload.settings@),
        InputEvent::KeyDown(x) => Some(x.payload.settings@),
        InputEvent::KeyUp(x) => Some(x.payload.settings@),
        InputEvent::DialRotate(x) => Some(x.payload.settings@),
        InputEvent::DialPress(x) => Some(x.payload.settings@),
        InputEvent::TouchTap(x) => Some(x.payload.settings@),
        InputEvent::WillAppear(x) => Some(x.payload.settings@),
        InputEvent::WillDisappear(x) => Some(x.payload.settings@),
        InputEvent::TitleParametersDidChange(x) => Some(x.payload.settings@),
        _ => None,
    }
}

/// Every settings blob that the event carries is well formed.
pub open spec fn event_wf(e: InputEvent) -> bool {
    match e {
        InputEvent::DidReceiveSettings(x) => x.payload.settings.wf(),
        InputEvent::DidReceiveGlobalSettings(x) => x.payload.settings.wf(),
        InputEvent::KeyDown(x) => x.payload.settings.wf(),
        InputEvent::KeyUp(x) => x.payload.settings.wf(),
        InputEvent::DialRotate(x) => x.payload.settings.wf(),
        InputEvent::DialPress(x) => x.payload.settings.wf(),
        InputEvent::TouchTap(x) => x.payload.settings.wf(),
        InputEvent::WillAppear(x) => x.payload.settings.wf(),
        InputEvent::WillDisappear(x) => x.payload.settings.wf(),
        InputEvent::TitleParametersDidChange(x) => x.payload.settings.wf(),
        InputEvent::SendToPlugin(x) => x.payload.wf(),
        _ => true,
    }
}

/// The call of `callback` on the handler registered under `id`: nothing
/// where none is registered under it.
pub open spec fn call_to(ids: Seq<Seq<char>>, id: Seq<char>, callback: Callback) -> Seq<
    Invocation,
> {
    if ids.contains(id) {
        seq![Invocation { handler: ids.index_of(id) as usize, callback }]
    } else {
        Seq::empty()
    }
}

/// The calls of `callback` on each of `n` handlers, once each, in the order
/// of the registry.
pub open spec fn call_to_all(n: nat, callback: Callback) -> Seq<Invocation> {
    Seq::new(n, |i: int| Invocation { handler: i as usize, callback })
}

/// The calls that are to be made for `e`, in their order, where the
/// registry holds `ids`. `deliver` is what the press rules decide for a
/// release and plays no part in other events.
pub open spec fn plan_for(e: InputEvent, ids: Seq<Seq<char>>, deliver: bool) -> Seq<Invocation> {
    let callback = callback_for(kind_of(e));
    if goes_to_all(kind_of(e)) {
        call_to_all(ids.len(), callback)
    } else if kind_of(e) == EventKind::SendToPlugin {
        call_to(ids, shared_id(), callback) + call_to(ids, action_of(e).unwrap(), callback)
    } else if kind_of(e) == EventKind::KeyUp && !deliver {
        Seq::empty()
    } else {
        call_to(ids, action_of(e).unwrap(), callback)
    }
}

/// The settings of the contexts after `e`: the blob that the event carries
/// replaces that of its context.
pub open spec fn instances_after(
    before: Map<Seq<char>, Map<Seq<char>, Seq<char>>>,
    e: InputEvent,
) -> Map<Seq<char>, Map<Seq<char>, Seq<char>>> {
    match settings_of(e) {
        Some(settings) => before.insert(context_of(e).unwrap(), settings),
        None => before,
    }
}

/// The shared settings after `e`: those that the event carries are merged in.
pub open spec fn global_after(before: Map<Seq<char>, Seq<char>>, e: InputEvent) -> Map<
    Seq<char>,
    Seq<char>,
> {
    match e {
        InputEvent::DidReceiveGlobalSettings(x) => merged(before, x.payload.settings@),
        _ => before,
    }
}

/// The visible contexts after `e`.
pub open spec fn visibility_after(before: Seq<Membership>, e: InputEvent) -> Seq<Membership> {
    match e {
        InputEvent::WillAppear(x) => appeared(before, x.action@, x.context@),
        InputEvent::WillDisappear(x) => without(before, x.context@),
        _ => before,
    }
}

/// The long-press threshold, in milliseconds, of the handler at place `i`:
/// zero, which stands for none, where `thresholds` does not reach so far.
pub open spec fn threshold_at(thresholds: Seq<u64>, i: int) -> u64 {
    if 0 <= i < thresholds.len() {
        thresholds[i]
    } else {
        0
    }
}

/// The threshold of the handler that a press on `e` is for.
pub open spec fn threshold_for(e: InputEvent, ids: Seq<Seq<char>>, thresholds: Seq<u64>) -> u64 {
    threshold_at(thresholds, ids.index_of(action_of(e).unwrap()))
}

/// The press states after `e` has arrived at `now`: a release is recorded;
/// a press is recorded where its handler is registered.
pub open spec fn presses_after(
    before: Map<Seq<char>, PressState>,
    e: InputEvent,
    ids: Seq<Seq<char>>,
    thresholds: Seq<u64>,
    now: u64,
) -> Map<Seq<char>, PressState> {
    match e {
        InputEvent::KeyUp(x) => before.insert(x.context@, after_release(now)),
        InputEvent::KeyDown(x) => if ids.contains(x.action@) {
            before.insert(
                x.context@,
                after_press(state_of(before, x.context@), now, threshold_for(e, ids, thresholds)),
            )
        } else {
            before
        },
        _ => before,
    }
}

/// Whether the caller is to start polling the context of `e` for a long
/// press: `e` is a press for a registered handler that asks for long
/// presses, and no earlier press on the context is still held.
pub open spec fn polls(
    before: Map<Seq<char>, PressState>,
    e: InputEvent,
    ids: Seq<Seq<char>>,
    thresholds: Seq<u64>,
) -> bool {
    match e {
        InputEvent::KeyDown(x) => ids.contains(x.action@) && press_starts(
            state_of(before, x.context@),
            threshold_for(e, ids, thresholds),
        ),
        _ => false,
    }
}

/// Whether the callback for `e` is to be made as far as the press rules go.
pub open spec fn delivered(before: Map<Seq<char>, PressState>, e: InputEvent, now: u64) -> bool {
    match e {
        InputEvent::KeyUp(x) => release_outcome(state_of(before, x.context@), now).deliver,
        _ => true,
    }
}

/// The event as it is handed to the handlers: a release carries the flag
/// that the press rules give it.
pub open spec fn event_after(before: Map<Seq<char>, PressState>, e: InputEvent, now: u64)
    -> InputEvent {
    match e {
        InputEvent::KeyUp(x) => InputEvent::KeyUp(
            KeyEvent {
                is_double_tap: release_outcome(state_of(before, x.context@), now).is_double_tap,
                ..x
            },
        ),
        _ => e,
    }
}

fn call_one<H>(manager: &ActionManager<H>, id: &String, callback: Callback) -> (r: Vec<Invocation>)
    requires
        manager.wf(),
    ensures
        r@ == call_to(manager.ids(), id@, callback),
{
    match place_of(manager, id) {
        Some(i) => {
            let r = vec![Invocation { handler: i, callback }];
            assert(r@ =~= call_to(manager.ids(), id@, callback));
            r
        },
        None => {
            let r: Vec<Invocation> = Vec::new();
            assert(r@ =~= call_to(manager.ids(), id@, callback));
            r
        },
    }
}

fn place_of<H>(manager: &ActionManager<H>, id: &String) -> (r: Option<usize>)
    requires
        manager.wf(),
    ensures
        match r {
            Some(i) => manager.ids().contains(id@) && i == manager.ids().index_of(id@),
            None => !manager.ids().contains(id@),
        },
{
    proof {
        manager.lemma_entries();
    }
    match manager.position(id) {
        Some(i) => {
            proof {
                let j = manager.ids().index_of(id@);
                assert(manager.ids().contains(id@));
                assert(0 <= j < manager.ids().len() && manager.ids()[j] == id@);
            }
            Some(i)
        },
        None => None,
    }
}

fn call_all<H>(manager: &ActionManager<H>, callback: Callback) -> (r: Vec<Invocation>)
    requires
        manager.wf(),
    ensures
        r@ == call_to_all(manager.ids().len(), callback),
{
    let n = manager.len();
    let mut r: Vec<Invocation> = Vec::new();
    let mut i: usize = 0;
    while i < n
        invariant
            i <= n,
            r@ == call_to_all(i as nat, callback),
        decreases n - i,
    {
        r.push(Invocation { handler: i, callback });
        assert(r@ =~= call_to_all((i + 1) as nat, callback));
        i += 1;
    }
    r
}

/// What is to be done for one event.
pub struct Dispatched {
    /// The calls that are to be made, in their order.
    pub plan: Vec<Invocation>,
    /// The event is a press whose context is to be polled for a long press.
    pub poll: bool,
}

/// Takes one decoded event that arrived at `now`, in milliseconds: brings
/// the store up to date with the settings that the event carries, records
/// a press or a release, and returns the calls that are to be made, in
/// their order. `thresholds` holds the long-press threshold of each
/// handler, in milliseconds, at the handler's place in the registry. A
/// release carries its double-tap flag afterwards. An event for a handler
/// that is not registered brings the store up to date all the same and
/// leads to no call.
pub fn dispatch<H>(
    event: &mut InputEvent,
    manager: &ActionManager<H>,
    store: &mut SessionStore,
    presses: &mut PressTable,
    thresholds: &Vec<u64>,
    now: u64,
) -> (r: Dispatched)
    requires
        manager.wf(),
        old(store).wf(),
        old(presses).wf(),
        event_wf(*old(event)),
    ensures
        final(store).wf(),
        final(presses).wf(),
        event_wf(*final(event)),
        *final(event) == event_after(old(presses)@, *old(event), now),
        final(store).instances() == instances_after(old(store).instances(), *old(event)),
        final(store).global() == global_after(old(store).global(), *old(event)),
        final(store).visibility() == visibility_after(old(store).visibility(), *old(event)),
        final(presses)@ == presses_after(
            old(presses)@,
            *old(event),
            manager.ids(),
            thresholds@,
            now,
        ),
        r.plan@ == plan_for(
            *old(event),
            manager.ids(),
            delivered(old(presses)@, *old(event), now),
        ),
        r.poll == polls(old(presses)@, *old(event), manager.ids(), thresholds@),
{
    let mut poll = false;
    let plan = match event {
        InputEvent::DidReceiveSettings(e) => {
            store.update_instances_settings(e.context.clone(), e.payload.settings.clone());
            call_one(manager, &e.action, Callback::SettingsChanged)
        },
        InputEvent::DidReceiveGlobalSettings(e) => {
            store.update_global_settings(&e.payload.settings);
            call_all(manager, Callback::GlobalSettingsChanged)
        },
        InputEvent::KeyDown(e) => {
            store.update_instances_settings(e.context.clone(), e.payload.settings.clone());
            match place_of(manager, &e.action) {
                Some(i) => {
                    let threshold = if i < thresholds.len() {
                        thresholds[i]
                    } else {
                        0
                    };
                    poll = presses.press(&e.context, now, threshold);
                },
                None => {},
            }
            call_one(manager, &e.action, Callback::KeyDown)
        },
        InputEvent::KeyUp(e) => {
            store.update_instances_settings(e.context.clone(), e.payload.settings.clone());
            let outcome = presses.release(&e.context, now);
            e.is_double_tap = outcome.is_double_tap;
            if outcome.deliver {
                call_one(manager, &e.action, Callback::KeyUp)
            } else {
                Vec::new()
            }
        },
        InputEvent::DialRotate(e) => {
            store.update_instances_settings(e.context.clone(), e.payload.settings.clone());
            call_one(manager, &e.action, Callback::DialRotate)
        },
        InputEvent::DialPress(e) => {
            store.update_instances_settings(e.context.clone(), e.payload.settings.clone());
            call_one(manager, &e.action, Callback::DialPress)
        },
        InputEvent::TouchTap(e) => {
            store.update_instances_settings(e.context.clone(), e.payload.settings.clone());
            call_one(manager, &e.action, Callback::TouchTap)
        },
        InputEvent::WillAppear(e) => {
            store.update_instances_settings(e.context.clone(), e.payload.settings.clone());
            store.appear(e.action.clone(), e.context.clone());
            call_one(manager, &e.action, Callback::Appear)
        },
        InputEvent::WillDisappear(e) => {
            store.update_instances_settings(e.context.clone(), e.payload.settings.clone());
            store.disappear(&e.context);
            call_one(manager, &e.action, Callback::Disappear)
        },
        InputEvent::TitleParametersDidChange(e) => {
            store.update_instances_settings(e.context.clone(), e.payload.settings.clone());
            call_one(manager, &e.action, Callback::TitleParametersChanged)
        },
        InputEvent::DeviceDidConnect(_) => call_all(manager, Callback::DeviceConnect),
        InputEvent::DeviceDidDisconnect(_) => call_all(manager, Callback::DeviceDisconnect),
        InputEvent::ApplicationDidLaunch(_) => call_all(manager, Callback::ApplicationLaunch),
        InputEvent::ApplicationDidTerminate(_) => call_all(manager, Callback::ApplicationTerminate),
        InputEvent::SystemDidWakeUp(_) => call_all(manager, Callback::SystemWakeUp),
        InputEvent::PropertyInspectorDidAppear(e) => call_one(manager, &e.action, Callback::PropertyInspectorAppear),
        InputEvent::PropertyInspectorDidDisappear(e) => call_one(manager, &e.action, Callback::PropertyInspectorDisappear),
        InputEvent::SendToPlugin(e) => {
            let shared = String::from_str("shared");
            let mut plan = call_one(manager, &shared, Callback::SendToPlugin);
            let mut own = call_one(manager, &e.action, Callback::SendToPlugin);
            plan.append(&mut own);
            plan
        },
    };
    Dispatched { plan, poll }
}

/// The event without the flag that dispatching gives a release.
pub open spec fn unflagged(e: InputEvent) -> InputEvent {
    match e {
        InputEvent::KeyUp(x) => InputEvent::KeyUp(
            KeyEvent { is_double_tap: false, ..x },
        ),
        _ => e,
    }
}

/// What one frame led to: the event as it is handed to the handlers, and
/// the calls that are to be made, in their order.
pub struct Handled {
    pub event: InputEvent,
    pub plan: Vec<Invocation>,
    /// The event is a press whose context is to be polled for a long press.
    pub poll: bool,
}

/// One step of the dispatch loop: decodes `frame`, which arrived at `now`,
/// and dispatches the event. A frame that cannot be decoded is dropped: it
/// changes nothing and leads to no call.
pub fn handle_frame<H>(
    frame: &str,
    manager: &ActionManager<H>,
    store: &mut SessionStore,
    presses: &mut PressTable,
    thresholds: &Vec<u64>,
    now: u64,
) -> (r: Result<Handled, DecodeError>)
    requires
        manager.wf(),
        old(store).wf(),
        old(presses).wf(),
    ensures
        final(store).wf(),
        final(presses).wf(),
        match r {
            Ok(h) => {
                let e = unflagged(h.event);
                &&& event_read_as(frame@, e)
                &&& event_wf(h.event)
                &&& h.event == event_after(old(presses)@, e, now)
                &&& final(store).instances() == instances_after(old(store).instances(), e)
                &&& final(store).global() == global_after(old(store).global(), e)
                &&& final(store).visibility() == visibility_after(old(store).visibility(), e)
                &&& final(presses)@ == presses_after(
                    old(presses)@,
                    e,
                    manager.ids(),
                    thresholds@,
                    now,
                )
                &&& h.plan@ == plan_for(e, manager.ids(), delivered(old(presses)@, e, now))
                &&& h.poll == polls(old(presses)@, e, manager.ids(), thresholds@)
            },
            Err(err) => {
                &&& final(store).instances() == old(store).instances()
                &&& final(store).global() == old(store).global()
                &&& final(store).visibility() == old(store).visibility()
                &&& final(presses)@ == old(presses)@
                &&& forall|e: InputEvent| !event_read_as(frame@, e)
                &&& err == DecodeError::Malformed <==> frame_tag(frame@).is_none()
                &&& err == DecodeError::UnknownEvent <==> (frame_tag(frame@).is_some()
                    && kind_named(frame_tag(frame@).unwrap()).is_none())
            },
        },
{
    match decode(frame) {
        Ok(decoded) => {
            let mut event = decoded;
            proof {
                lemma_read_event_wf(frame@, decoded);
            }
            let done = dispatch(&mut event, manager, store, presses, thresholds, now);
            assert(unflagged(event) == decoded);
            Ok(Handled { event, plan: done.plan, poll: done.poll })
        },
        Err(err) => Err(err),
    }
}

/// An event that was read from a frame carries well-formed settings.
pub proof fn lemma_read_event_wf(frame: Seq<char>, e: InputEvent)
    requires
        event_read_as(frame, e),
    ensures
        event_wf(e),
        unflagged(e) == e,
{
}

/// An event that goes to all reaches every registered handler once, in the
/// order of the registry, whatever else the event holds.
pub proof fn lemma_broadcast_reaches_each_once(
    e: InputEvent,
    ids: Seq<Seq<char>>,
    deliver: bool,
    i: int,
)
    requires
        goes_to_all(kind_of(e)),
        0 <= i < ids.len() <= usize::MAX,
    ensures
        plan_for(e, ids, deliver).len() == ids.len(),
        plan_for(e, ids, deliver)[i] == (Invocation {
            handler: i as usize,
            callback: callback_for(kind_of(e)),
        }),
        forall|j: int|
            0 <= j < ids.len() && (#[trigger] plan_for(e, ids, deliver)[j]).handler == i ==> j
                == i,
{
}

/// An event for one handler leads to at most one call, and to none where
/// the handler is not registered; a message for the plugin leads to at most
/// two, the catch-all handler first.
pub proof fn lemma_addressed_event_calls(e: InputEvent, ids: Seq<Seq<char>>, deliver: bool)
    requires
        !goes_to_all(kind_of(e)),
        ids.len() <= usize::MAX,
    ensures
        kind_of(e) != EventKind::SendToPlugin ==> plan_for(e, ids, deliver).len() <= 1,
        kind_of(e) != EventKind::SendToPlugin && !ids.contains(action_of(e).unwrap())
            ==> plan_for(e, ids, deliver).len() == 0,
        kind_of(e) == EventKind::SendToPlugin ==> plan_for(e, ids, deliver).len() <= 2,
        kind_of(e) == EventKind::SendToPlugin && ids.contains(shared_id()) ==> plan_for(
            e,
            ids,
            deliver,
        )[0].handler == ids.index_of(shared_id()),
{
    if ids.contains(shared_id()) {
        let j = ids.index_of(shared_id());
        assert(0 <= j < ids.len() && ids[j] == shared_id());
    }
}

/// A release that the press rules suppress leads to no call, and one that
/// they deliver leads to the call of its handler's release entry point.
pub proof fn lemma_release_calls(e: InputEvent, ids: Seq<Seq<char>>, deliver: bool)
    requires
        kind_of(e) == EventKind::KeyUp,
    ensures
        !deliver ==> plan_for(e, ids, deliver) == Seq::<Invocation>::empty(),
        deliver ==> plan_for(e, ids, deliver) == call_to(
            ids,
            action_of(e).unwrap(),
            Callback::KeyUp,
        ),
{
}

/// After an event the store holds, for the context of the event, the
/// settings that the event carried; the settings of every other context,
/// and all settings after an event that carries none, are as before.
pub proof fn lemma_settings_follow_events(
    before: Map<Seq<char>, Map<Seq<char>, Seq<char>>>,
    e: InputEvent,
    context: Seq<char>,
)
    ensures
        settings_of(e).is_some() ==> context_of(e).is_some(),
        settings_of(e).is_some() && context_of(e) == Some(context) ==> instances_after(
            before,
            e,
        ).contains_key(context) && instances_after(before, e)[context] == settings_of(e).unwrap(),
        settings_of(e).is_none() || context_of(e) != Some(context) ==> (instances_after(
            before,
            e,
        ).contains_key(context) <==> before.contains_key(context)),
        (settings_of(e).is_none() || context_of(e) != Some(context)) && before.contains_key(
            context,
        ) ==> instances_after(before, e)[context] == before[context],
{
}

} // verus!
