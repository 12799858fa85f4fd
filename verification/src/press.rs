//! Press timing: long-press detection and suppression of repeated releases,
//! one small state machine per context, driven by timestamps in milliseconds.

use vstd::prelude::*;
use crate::keyed::KeyedList;

verus! {

/// A release that follows the previous transition by less than this many
/// milliseconds counts as a repeated tap.
pub const DOUBLE_TAP_WINDOW_MS: u64 = 500;

/// The period, in milliseconds, at which a held press is polled.
pub const POLL_TICK_MS: u64 = 100;

/// A press that is being held and has not yet fired or been released.
#[derive(Clone, Copy, Debug, PartialEq, Eq)]
pub struct PendingPress {
    pub pressed_at: u64,
    pub threshold: u64,
}

/// What is remembered of one context between press events.
#[derive(Clone, Copy, Debug, PartialEq, Eq)]
pub struct PressState {
    /// When the last release or long-press firing happened, if any did.
    pub last_transition: Option<u64>,
    /// A long press has fired and its release has not been seen yet.
    pub long_press_fired: bool,
    /// The held press that is being polled, if any.
    pub pending: Option<PendingPress>,
}

/// What one poll of a held press decides.
#[derive(Clone, Copy, Debug, PartialEq, Eq)]
pub enum TickOutcome {
    /// The threshold is not reached: poll again after `POLL_TICK_MS`.
    Wait,
    /// The threshold is reached: deliver the long press and stop polling.
    Fire,
    /// Nothing is held any more: stop polling.
    Stop,
}

/// What a release decides.
#[derive(Clone, Copy, Debug, PartialEq, Eq)]
pub struct ReleaseOutcome {
    /// The release came within the window after the previous transition.
    pub is_double_tap: bool,
    /// The release callback is to be invoked.
    pub deliver: bool,
}

/// Milliseconds from `from` to `to`, zero where the clock went backwards.
pub open spec fn elapsed(from: u64, to: u64) -> u64 {
    if to >= from {
        (to - from) as u64
    } else {
        0
    }
}

/// The state of a context that no press event has touched.
pub open spec fn initial() -> PressState {
    PressState { last_transition: None, long_press_fired: false, pending: None }
}

/// A press starts polling exactly when the handler asks for long presses
/// (`threshold > 0`) and no earlier press is still held.
pub open spec fn press_starts(s: PressState, threshold: u64) -> bool {
    threshold > 0 && s.pending.is_none()
}

pub open spec fn after_press(s: PressState, now: u64, threshold: u64) -> PressState {
    if press_starts(s, threshold) {
        PressState { pending: Some(PendingPress { pressed_at: now, threshold }), ..s }
    } else {
        s
    }
}

pub open spec fn tick_outcome(s: PressState, now: u64) -> TickOutcome {
    match s.pending {
        None => TickOutcome::Stop,
        Some(p) => if elapsed(p.pressed_at, now) >= p.threshold {
            TickOutcome::Fire
        } else {
            TickOutcome::Wait
        },
    }
}

pub open spec fn after_tick(s: PressState, now: u64) -> PressState {
    if tick_outcome(s, now) == TickOutcome::Fire {
        PressState { last_transition: Some(now), long_press_fired: true, pending: None }
    } else {
        s
    }
}

pub open spec fn release_outcome(s: PressState, now: u64) -> ReleaseOutcome {
    let is_double_tap = match s.last_transition {
        Some(t) => elapsed(t, now) < DOUBLE_TAP_WINDOW_MS,
        None => false,
    };
    ReleaseOutcome { is_double_tap, deliver: !s.long_press_fired && !is_double_tap }
}

pub open spec fn after_release(now: u64) -> PressState {
    PressState { last_transition: Some(now), long_press_fired: false, pending: None }
}

/// The state that `table` holds for `context`.
pub open spec fn state_of(table: Map<Seq<char>, PressState>, context: Seq<char>) -> PressState {
    if table.contains_key(context) {
        table[context]
    } else {
        initial()
    }
}

fn elapsed_ms(from: u64, to: u64) -> (r: u64)
    ensures
        r == elapsed(from, to),
{
    if to >= from {
        to - from
    } else {
        0
    }
}

impl PressState {
    pub fn new() -> (r: Self)
        ensures
            r == initial(),
    {
        PressState { last_transition: None, long_press_fired: false, pending: None }
    }

    /// Records a press at `now` for a handler whose long-press threshold is
    /// `threshold` milliseconds. Returns whether polling starts.
    pub fn press(&mut self, now: u64, threshold: u64) -> (started: bool)
        ensures
            started == press_starts(*old(self), threshold),
            *final(self) == after_press(*old(self), now, threshold),
    {
        if threshold > 0 && self.pending.is_none() {
            self.pending = Some(PendingPress { pressed_at: now, threshold });
            true
        } else {
            false
        }
    }

    /// One poll of the held press at `now`.
    pub fn tick(&mut self, now: u64) -> (outcome: TickOutcome)
        ensures
            outcome == tick_outcome(*old(self), now),
            *final(self) == after_tick(*old(self), now),
    {
        match self.pending {
            None => TickOutcome::Stop,
            Some(p) => {
                if elapsed_ms(p.pressed_at, now) >= p.threshold {
                    self.last_transition = Some(now);
                    self.long_press_fired = true;
                    self.pending = None;
                    TickOutcome::Fire
                } else {
                    TickOutcome::Wait
                }
            },
        }
    }

    /// Records a release at `now`, which also ends any held press.
    pub fn release(&mut self, now: u64) -> (outcome: ReleaseOutcome)
        ensures
            outcome == release_outcome(*old(self), now),
            *final(self) == after_release(now),
    {
        let is_double_tap = match self.last_transition {
            Some(t) => elapsed_ms(t, now) < DOUBLE_TAP_WINDOW_MS,
            None => false,
        };
        let deliver = !self.long_press_fired && !is_double_tap;
        self.last_transition = Some(now);
        self.long_press_fired = false;
        self.pending = None;
        ReleaseOutcome { is_double_tap, deliver }
    }
}

/// The press state of every context seen so far.
pub struct PressTable {
    states: KeyedList<PressState>,
}

impl PressTable {
    pub closed spec fn wf(&self) -> bool {
        self.states.wf()
    }

    pub closed spec fn view(&self) -> Map<Seq<char>, PressState> {
        self.states@
    }

    pub fn new() -> (r: Self)
        ensures
            r.wf(),
            r@ == Map::<Seq<char>, PressState>::empty(),
    {
        PressTable { states: KeyedList::new() }
    }

    /// The state held for `context`; the initial state where none is.
    pub fn state(&self, context: &String) -> (s: PressState)
        requires
            self.wf(),
        ensures
            s == state_of(self@, context@),
    {
        match self.states.get(context) {
            Some(s) => *s,
            None => PressState::new(),
        }
    }

    /// A press on `context` at `now`; `threshold` is the long-press threshold
    /// of the handler that owns the context, zero for none. Returns whether
    /// the caller is to start polling the context.
    pub fn press(&mut self, context: &String, now: u64, threshold: u64) -> (started: bool)
        requires
            old(self).wf(),
        ensures
            final(self).wf(),
            started == press_starts(state_of(old(self)@, context@), threshold),
            final(self)@ == old(self)@.insert(
                context@,
                after_press(state_of(old(self)@, context@), now, threshold),
            ),
    {
        let mut s = self.state(context);
        let started = s.press(now, threshold);
        self.states.insert(context.clone(), s);
        started
    }

    /// One poll of `context` at `now`.
    pub fn tick(&mut self, context: &String, now: u64) -> (outcome: TickOutcome)
        requires
            old(self).wf(),
        ensures
            final(self).wf(),
            outcome == tick_outcome(state_of(old(self)@, context@), now),
            final(self)@ == old(self)@.insert(
                context@,
                after_tick(state_of(old(self)@, context@), now),
            ),
    {
        let mut s = self.state(context);
        let outcome = s.tick(now);
        self.states.insert(context.clone(), s);
        outcome
    }

    /// A release on `context` at `now`.
    pub fn release(&mut self, context: &String, now: u64) -> (outcome: ReleaseOutcome)
        requires
            old(self).wf(),
        ensures
            final(self).wf(),
            outcome == release_outcome(state_of(old(self)@, context@), now),
            final(self)@ == old(self)@.insert(context@, after_release(now)),
    {
        let mut s = self.state(context);
        let outcome = s.release(now);
        self.states.insert(context.clone(), s);
        outcome
    }
}

/// The instant of the `k`-th poll of a press made at `pressed_at`: the first
/// poll comes at once, each later one a tick after the one before.
pub open spec fn poll_time(pressed_at: u64, k: nat) -> int {
    pressed_at + k * POLL_TICK_MS
}

/// The state after the first `k` polls of a press made at `pressed_at`, with
/// no other event between them.
pub open spec fn after_polls(s: PressState, pressed_at: u64, k: nat) -> PressState
    decreases k,
{
    if k == 0 {
        s
    } else {
        after_tick(
            after_polls(s, pressed_at, (k - 1) as nat),
            poll_time(pressed_at, (k - 1) as nat) as u64,
        )
    }
}

/// Whether the `k`-th poll fires, the polls before it having run.
pub open spec fn poll_fires(s: PressState, pressed_at: u64, k: nat) -> bool {
    tick_outcome(after_polls(s, pressed_at, k), poll_time(pressed_at, k) as u64)
        == TickOutcome::Fire
}

/// How many of the first `k` polls fire.
pub open spec fn fire_count(s: PressState, pressed_at: u64, k: nat) -> nat
    decreases k,
{
    if k == 0 {
        0
    } else {
        fire_count(s, pressed_at, (k - 1) as nat) + if poll_fires(
            s,
            pressed_at,
            (k - 1) as nat,
        ) {
            1nat
        } else {
            0nat
        }
    }
}

/// The number of the first poll that comes no earlier than `threshold`
/// milliseconds after the press.
pub open spec fn firing_poll(threshold: u64) -> nat {
    ((threshold + POLL_TICK_MS - 1) / (POLL_TICK_MS as int)) as nat
}

/// A press that is held past its threshold fires once, at the first poll
/// that is at least `threshold` milliseconds after the press: no poll
/// before it fires and none after it does.
pub proof fn lemma_held_press_fires_once(s: PressState, pressed_at: u64, threshold: u64, k: nat)
    requires
        press_starts(s, threshold),
        poll_time(pressed_at, k) <= u64::MAX,
    ensures
        poll_fires(after_press(s, pressed_at, threshold), pressed_at, k) <==> k == firing_poll(
            threshold,
        ),
        fire_count(after_press(s, pressed_at, threshold), pressed_at, k) == if k > firing_poll(
            threshold,
        ) {
            1nat
        } else {
            0nat
        },
        poll_time(pressed_at, firing_poll(threshold)) >= pressed_at + threshold,
        firing_poll(threshold) > 0 ==> poll_time(pressed_at, (firing_poll(threshold) - 1) as nat)
            < pressed_at + threshold,
    decreases k,
{
    let s1 = after_press(s, pressed_at, threshold);
    lemma_polls_state(s, pressed_at, threshold, k);
    if k > 0 {
        lemma_held_press_fires_once(s, pressed_at, threshold, (k - 1) as nat);
    }
}

/// The state in which the `k`-th poll of a held press finds the context.
proof fn lemma_polls_state(s: PressState, pressed_at: u64, threshold: u64, k: nat)
    requires
        press_starts(s, threshold),
        poll_time(pressed_at, k) <= u64::MAX,
    ensures
        k <= firing_poll(threshold) ==> after_polls(
            after_press(s, pressed_at, threshold),
            pressed_at,
            k,
        ) == after_press(s, pressed_at, threshold),
        k > firing_poll(threshold) ==> after_polls(
            after_press(s, pressed_at, threshold),
            pressed_at,
            k,
        ).pending.is_none(),
    decreases k,
{
    if k > 0 {
        lemma_polls_state(s, pressed_at, threshold, (k - 1) as nat);
    }
}

/// A release that comes less than `threshold` milliseconds after the press
/// ends it: no poll up to the release fires, and no poll after it does.
pub proof fn lemma_release_cancels_long_press(
    s: PressState,
    pressed_at: u64,
    threshold: u64,
    released_at: u64,
)
    requires
        press_starts(s, threshold),
        pressed_at <= released_at,
        released_at - pressed_at < threshold,
    ensures
        forall|t: u64|
            t <= released_at ==> #[trigger] tick_outcome(
                after_press(s, pressed_at, threshold),
                t,
            ) == TickOutcome::Wait && after_tick(after_press(s, pressed_at, threshold), t)
                == after_press(s, pressed_at, threshold),
        forall|t: u64| #[trigger]
            tick_outcome(after_release(released_at), t) == TickOutcome::Stop && after_tick(
                after_release(released_at),
                t,
            ) == after_release(released_at),
{
}

/// Of two releases in a row on one context, the second is flagged and its
/// callback skipped exactly when it comes within the window after the first.
/// The first is delivered where no long press has fired before it and no
/// transition lies within the window before it.
pub proof fn lemma_second_release(s: PressState, first: u64, second: u64)
    requires
        first <= second,
    ensures
        second - first < DOUBLE_TAP_WINDOW_MS ==> release_outcome(after_release(first), second)
            == (ReleaseOutcome { is_double_tap: true, deliver: false }),
        second - first >= DOUBLE_TAP_WINDOW_MS ==> release_outcome(after_release(first), second)
            == (ReleaseOutcome { is_double_tap: false, deliver: true }),
        !s.long_press_fired && (s.last_transition.is_none() || elapsed(
            s.last_transition.unwrap(),
            first,
        ) >= DOUBLE_TAP_WINDOW_MS) ==> release_outcome(s, first) == (ReleaseOutcome {
            is_double_tap: false,
            deliver: true,
        }),
{
}

} // verus!
