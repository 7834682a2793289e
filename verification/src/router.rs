//! The event router: the one place where events are turned, in arrival
//! order, into state changes and into work for the collaborators.

use crate::devices::{
    added, lemma_added, lemma_removed, removed, DeviceSupervisor, SupervisorAction,
};
use crate::inhibit::{
    accepts_resource, after_acquired, after_release, after_request, idle_state, release_destroys,
    request_acquires, state_wf, InhibitController, InhibitDecision, InhibitState,
    DEFAULT_HOLD_SECONDS,
};
use crate::registry::{
    callback_in, holds, ids_of, is_random_uuid, lemma_listing_exists, valid_timeout,
    NotificationRegistry, RegisterError, TimerRequest,
};
use crate::types::{kind_named, phase_text, Event, Phase, SessionKind, SubscriptionId};
use vstd::prelude::*;

verus! {

/// Work that the router hands to a collaborator.
#[derive(Debug, Clone, PartialEq, Eq)]
pub enum Action {
    /// Destroy the native timer of this subscription.
    DestroyTimer(SubscriptionId),
    /// Flush the outgoing requests of the protocol connection.
    Flush,
    /// Put this event on the router's own inbound stream.
    Emit(Event),
    /// Set up the script engine's host bindings again and load the script.
    ReloadScript,
    /// Store the power state in the script engine's settings.
    SetOnBattery(bool),
    /// Call the script function of this name: with the one argument given,
    /// or with none.
    Invoke { callback: String, argument: Option<&'static str> },
    /// Acquire the sleep inhibitor, and report the end of the hold window
    /// after this many seconds.
    AcquireInhibitor { hold_seconds: u64 },
    /// Destroy the sleep inhibitor.
    DestroyInhibitor,
    /// Start a watcher for this device.
    SpawnWatcher(String),
    /// Signal the watcher of this device to end.
    CancelWatcher(String),
}

/// What an action is, with text taken as sequences of characters.
pub enum Effect {
    DestroyTimer(SubscriptionId),
    Flush,
    Emit(Event),
    ReloadScript,
    SetOnBattery(bool),
    Invoke(Seq<char>, Option<Seq<char>>),
    AcquireInhibitor(u64),
    DestroyInhibitor,
    SpawnWatcher(Seq<char>),
    CancelWatcher(Seq<char>),
}

/// Why a session handler was not bound.
#[derive(Debug, Clone, Copy, PartialEq, Eq, Structural)]
pub enum HandlerError {
    /// The name names no session signal.
    UnknownSignal,
    /// The signal is one that scripts cannot bind a handler to.
    NotBindable,
}

/// Everything the router knows, as mathematical values.
pub struct RouterState {
    /// The live subscriptions: the callback name under each identifier.
    pub subscriptions: Map<SubscriptionId, Seq<char>>,
    /// The state of the sleep inhibitor.
    pub inhibit: InhibitState,
    /// The length of the inhibitor's hold window, in seconds.
    pub hold_seconds: u64,
    /// The names of the watched devices, oldest first.
    pub watched: Seq<Seq<char>>,
    /// The script function bound to the lock signal.
    pub lock_handler: Option<Seq<char>>,
    /// The script function bound to the unlock signal.
    pub unlock_handler: Option<Seq<char>>,
    /// The script function bound to the signal that sleep is coming.
    pub sleep_handler: Option<Seq<char>>,
    /// Whether the machine runs on battery, as last reported.
    pub on_battery: bool,
}

/// The single serialization point of the daemon's state.
#[derive(Debug)]
pub struct EventRouter {
    registry: NotificationRegistry,
    inhibit: InhibitController,
    devices: DeviceSupervisor,
    lock_handler: Option<String>,
    unlock_handler: Option<String>,
    sleep_handler: Option<String>,
    on_battery: bool,
}

impl View for Action {
    type V = Effect;

    open spec fn view(&self) -> Effect {
        match *self {
            Action::DestroyTimer(id) => Effect::DestroyTimer(id),
            Action::Flush => Effect::Flush,
            Action::Emit(event) => Effect::Emit(event),
            Action::ReloadScript => Effect::ReloadScript,
            Action::SetOnBattery(on_battery) => Effect::SetOnBattery(on_battery),
            Action::Invoke { callback, argument } => Effect::Invoke(
                callback@,
                match argument {
                    Some(text) => Some(text@),
                    None => None,
                },
            ),
            Action::AcquireInhibitor { hold_seconds } => Effect::AcquireInhibitor(hold_seconds),
            Action::DestroyInhibitor => Effect::DestroyInhibitor,
            Action::SpawnWatcher(name) => Effect::SpawnWatcher(name@),
            Action::CancelWatcher(name) => Effect::CancelWatcher(name@),
        }
    }
}

/// The effects that a sequence of actions stands for.
pub open spec fn effects_of(actions: Seq<Action>) -> Seq<Effect> {
    actions.map_values(|a: Action| a@)
}

/// Whether scripts can bind a handler to a signal: they can to all but the
/// wake-up signal.
pub open spec fn bindable(kind: SessionKind) -> bool {
    kind != SessionKind::Wakeup
}

/// The script function bound to a signal.
pub open spec fn handler_of(s: RouterState, kind: SessionKind) -> Option<Seq<char>> {
    match kind {
        SessionKind::Lock => s.lock_handler,
        SessionKind::Unlock => s.unlock_handler,
        SessionKind::PrepareSleep => s.sleep_handler,
        SessionKind::Wakeup => None,
    }
}

/// The state with which a router starts: nothing registered, bound or
/// watched, no hold window open, and the machine taken to run on battery.
pub open spec fn initial_state() -> RouterState {
    RouterState {
        subscriptions: Map::empty(),
        inhibit: idle_state(),
        hold_seconds: DEFAULT_HOLD_SECONDS,
        watched: Seq::empty(),
        lock_handler: None,
        unlock_handler: None,
        sleep_handler: None,
        on_battery: true,
    }
}

/// The router's invariant: those of its parts.
pub open spec fn router_wf(s: RouterState) -> bool {
    &&& s.subscriptions.dom().finite()
    &&& state_wf(s.inhibit)
    &&& s.watched.no_duplicates()
}

/// The state after an event.
pub open spec fn next_state(s: RouterState, event: Event) -> RouterState {
    match event {
        Event::ConfigChanged => RouterState { subscriptions: Map::empty(), ..s },
        Event::BatteryStateChanged(on_battery) => RouterState { on_battery, ..s },
        Event::DeviceAdded(id) => RouterState { watched: added(s.watched, id@), ..s },
        Event::DeviceRemoved(id) => RouterState { watched: removed(s.watched, id@), ..s },
        Event::DeviceActivity(_) => RouterState { inhibit: after_request(s.inhibit), ..s },
        Event::InhibitRequested => RouterState { inhibit: after_request(s.inhibit), ..s },
        Event::SessionSignal(_) => s,
        Event::IdleTransition(_, _) => s,
        Event::FlushRequested => s,
        Event::ScriptReloadRequested => s,
    }
}

/// The effects of a request to inhibit sleep.
pub open spec fn inhibit_effects(s: RouterState) -> Seq<Effect> {
    if request_acquires(s.inhibit) {
        seq![Effect::AcquireInhibitor(s.hold_seconds)]
    } else {
        Seq::empty()
    }
}

/// The effects of an event, in the order in which they are to happen.
pub open spec fn effects(s: RouterState, event: Event) -> Seq<Effect> {
    match event {
        Event::ConfigChanged => ids_of(s.subscriptions).map_values(
            |id: SubscriptionId| Effect::DestroyTimer(id),
        ) + seq![Effect::Flush, Effect::Emit(Event::ScriptReloadRequested)],
        Event::ScriptReloadRequested => seq![Effect::ReloadScript],
        Event::BatteryStateChanged(on_battery) => seq![Effect::SetOnBattery(on_battery)],
        Event::SessionSignal(kind) => match handler_of(s, kind) {
            Some(callback) => seq![Effect::Invoke(callback, None)],
            None => Seq::empty(),
        },
        Event::IdleTransition(id, phase) => match callback_in(s.subscriptions, id) {
            Some(callback) => seq![Effect::Invoke(callback, Some(phase_text(phase)))],
            None => Seq::empty(),
        },
        Event::DeviceAdded(id) => if s.watched.contains(id@) {
            Seq::empty()
        } else {
            seq![Effect::SpawnWatcher(id@)]
        },
        Event::DeviceRemoved(id) => if s.watched.contains(id@) {
            seq![Effect::CancelWatcher(id@)]
        } else {
            Seq::empty()
        },
        Event::DeviceActivity(_) => inhibit_effects(s),
        Event::InhibitRequested => inhibit_effects(s),
        Event::FlushRequested => seq![Effect::Flush],
    }
}

/// The state after the hold window of the inhibitor ran out.
pub open spec fn after_hold(s: RouterState) -> RouterState {
    RouterState { inhibit: after_release(s.inhibit), ..s }
}

/// The state after the events `events`, handled one after another in
/// their order.
pub open spec fn state_after(s: RouterState, events: Seq<Event>) -> RouterState
    decreases events.len(),
{
    if events.len() == 0 {
        s
    } else {
        state_after(next_state(s, events[0]), events.skip(1))
    }
}

/// The effects of the events `events`, handled one after another in their
/// order: those of the first event, then those of the second in the state
/// that the first left, and so on.
pub open spec fn effects_along(s: RouterState, events: Seq<Event>) -> Seq<Effect>
    decreases events.len(),
{
    if events.len() == 0 {
        Seq::empty()
    } else {
        effects(s, events[0]) + effects_along(next_state(s, events[0]), events.skip(1))
    }
}

/// Handling a stream in two parts comes to the same as handling it whole:
/// nothing is reordered and nothing is batched across events.
pub proof fn lemma_stream_splits(s: RouterState, first: Seq<Event>, rest: Seq<Event>)
    ensures
        state_after(s, first + rest) == state_after(state_after(s, first), rest),
        effects_along(s, first + rest) == effects_along(s, first) + effects_along(
            state_after(s, first),
            rest,
        ),
    decreases first.len(),
{
    if first.len() == 0 {
        assert(first + rest =~= rest);
    } else {
        let all = first + rest;
        assert(all[0] == first[0]);
        assert(all.skip(1) =~= first.skip(1) + rest);
        lemma_stream_splits(next_state(s, first[0]), first.skip(1), rest);
        assert(effects(s, first[0]) + (effects_along(next_state(s, first[0]), first.skip(1))
            + effects_along(state_after(s, first), rest)) =~= (effects(s, first[0])
            + effects_along(next_state(s, first[0]), first.skip(1))) + effects_along(
            state_after(s, first),
            rest,
        ));
    }
}

/// Every stream of events leaves the router's invariant standing.
pub proof fn lemma_stream_keeps_invariant(s: RouterState, events: Seq<Event>)
    requires
        router_wf(s),
    ensures
        router_wf(state_after(s, events)),
    decreases events.len(),
{
    if events.len() > 0 {
        lemma_events_keep_invariant(s, events[0]);
        lemma_stream_keeps_invariant(next_state(s, events[0]), events.skip(1));
    }
}

/// Every event leaves the router's invariant standing.
pub proof fn lemma_events_keep_invariant(s: RouterState, event: Event)
    requires
        router_wf(s),
    ensures
        router_wf(next_state(s, event)),
        router_wf(after_hold(s)),
{
    match event {
        Event::DeviceAdded(id) => {
            lemma_added(s.watched, id@);
        },
        Event::DeviceRemoved(id) => {
            lemma_removed(s.watched, id@);
        },
        _ => {},
    }
}

/// A change of the configuration empties the registry and has every timer
/// that was live destroyed, in ascending order of the identifiers, each
/// once and none else, before the reload is asked for.
pub proof fn lemma_config_change_tears_down(s: RouterState)
    requires
        router_wf(s),
    ensures
        next_state(s, Event::ConfigChanged).subscriptions.dom().len() == 0,
        effects(s, Event::ConfigChanged).len() == s.subscriptions.dom().len() + 2,
        forall|i: int|
            0 <= i < ids_of(s.subscriptions).len() ==> #[trigger] effects(s, Event::ConfigChanged)[i]
                == Effect::DestroyTimer(ids_of(s.subscriptions)[i]),
        forall|id: SubscriptionId|
            s.subscriptions.contains_key(id) <==> ids_of(s.subscriptions).contains(id),
        ids_of(s.subscriptions).no_duplicates(),
        effects(s, Event::ConfigChanged)[s.subscriptions.dom().len() as int] == Effect::Flush,
        effects(s, Event::ConfigChanged).last() == Effect::Emit(Event::ScriptReloadRequested),
        forall|id: SubscriptionId, phase: Phase|
            effects(next_state(s, Event::ConfigChanged), Event::IdleTransition(id, phase)).len()
                == 0,
{
    lemma_listing_exists(s.subscriptions.dom());
    let all = effects(s, Event::ConfigChanged);
    let ids = ids_of(s.subscriptions);
    assert forall|i: int| 0 <= i < ids.len() implies #[trigger] all[i] == Effect::DestroyTimer(
        ids[i],
    ) by {}
}

/// An idle transition of a subscription that is not registered does
/// nothing: no callback is invoked and the state stays as it is.
pub proof fn lemma_unknown_transition_is_silent(s: RouterState, id: SubscriptionId, phase: Phase)
    requires
        !holds(s.subscriptions, id),
    ensures
        effects(s, Event::IdleTransition(id, phase)).len() == 0,
        next_state(s, Event::IdleTransition(id, phase)) == s,
{
}

/// Activity opens a hold window, acquiring the inhibitor if none was open;
/// activity inside the window acquires nothing and changes nothing; when
/// the window runs out the inhibitor is destroyed exactly if it was
/// acquired, and no window is open any more.
pub proof fn lemma_activity_holds_one_window(s: RouterState, device: String, acquired: bool)
    requires
        router_wf(s),
        !s.inhibit.active,
    ensures
        ({
            let first = Event::DeviceActivity(device);
            let opened = next_state(s, first);
            let held = if acquired {
                RouterState { inhibit: after_acquired(opened.inhibit), ..opened }
            } else {
                opened
            };
            &&& effects(s, first) == seq![Effect::AcquireInhibitor(s.hold_seconds)]
            &&& opened.inhibit.active
            &&& effects(held, Event::DeviceActivity(device)).len() == 0
            &&& effects(held, Event::InhibitRequested).len() == 0
            &&& next_state(held, Event::DeviceActivity(device)) == held
            &&& release_destroys(held.inhibit) == acquired
            &&& !after_hold(held).inhibit.active
            &&& !after_hold(held).inhibit.resource_held
        }),
{
}

impl EventRouter {
    /// The router's state as mathematical values.
    pub closed spec fn view(&self) -> RouterState {
        RouterState {
            subscriptions: self.registry.entries(),
            inhibit: self.inhibit@,
            hold_seconds: self.inhibit.hold(),
            watched: self.devices.watched(),
            lock_handler: match self.lock_handler {
                Some(name) => Some(name@),
                None => None,
            },
            unlock_handler: match self.unlock_handler {
                Some(name) => Some(name@),
                None => None,
            },
            sleep_handler: match self.sleep_handler {
                Some(name) => Some(name@),
                None => None,
            },
            on_battery: self.on_battery,
        }
    }

    /// The router's invariant.
    pub open spec fn wf(&self) -> bool {
        router_wf(self@)
    }

    /// A router in its initial state.
    pub fn new() -> (router: Self)
        ensures
            router@ == initial_state(),
            router.wf(),
    {
        EventRouter {
            registry: NotificationRegistry::new(),
            inhibit: InhibitController::new(),
            devices: DeviceSupervisor::new(),
            lock_handler: None,
            unlock_handler: None,
            sleep_handler: None,
            on_battery: true,
        }
    }

    /// A router in its initial state, but for the length of the inhibitor's
    /// hold window.
    pub fn with_hold_seconds(hold_seconds: u64) -> (router: Self)
        ensures
            router@ == (RouterState { hold_seconds, ..initial_state() }),
            router.wf(),
    {
        EventRouter {
            registry: NotificationRegistry::new(),
            inhibit: InhibitController::with_hold_seconds(hold_seconds),
            devices: DeviceSupervisor::new(),
            lock_handler: None,
            unlock_handler: None,
            sleep_handler: None,
            on_battery: true,
        }
    }

    /// Whether the machine runs on battery, as last reported.
    pub fn on_battery(&self) -> (on_battery: bool)
        ensures
            on_battery == self@.on_battery,
    {
        self.on_battery
    }

    /// The state of the sleep inhibitor.
    pub fn inhibit_state(&self) -> (state: InhibitState)
        ensures
            state == self@.inhibit,
    {
        self.inhibit.state()
    }

    /// The number of live subscriptions.
    pub fn subscription_count(&self) -> (n: usize)
        ensures
            n == self@.subscriptions.len(),
    {
        self.registry.len()
    }

    /// The number of watched devices.
    pub fn watched_count(&self) -> (n: usize)
        ensures
            n == self@.watched.len(),
    {
        self.devices.len()
    }

    /// Registers an idle subscription for the script, under a freshly drawn
    /// identifier, and says which native timer is to be created for it.
    ///
    /// The identifier is random: should it name a live subscription
    /// already, nothing is registered.
    pub fn register(&mut self, callback_name: String, timeout_seconds: i32) -> (r: Result<
        TimerRequest,
        RegisterError,
    >)
        requires
            old(self).wf(),
        ensures
            final(self).wf(),
            !valid_timeout(timeout_seconds) <==> r == Err::<TimerRequest, RegisterError>(
                RegisterError::InvalidTimeout,
            ),
            valid_timeout(timeout_seconds) && r is Err ==> r == Err::<TimerRequest, RegisterError>(
                RegisterError::IdentifierInUse,
            ),
            valid_timeout(timeout_seconds) && r is Err ==> exists|drawn: SubscriptionId| #[trigger]
                is_random_uuid(drawn) && holds(old(self)@.subscriptions, drawn),
            r matches Ok(request) ==> !holds(old(self)@.subscriptions, request.id)
                && is_random_uuid(request.id) && request.millis == timeout_seconds * 1000
                && final(self)@ == (RouterState {
                subscriptions: old(self)@.subscriptions.insert(request.id, callback_name@),
                ..old(self)@
            }),
            r is Err ==> final(self)@ == old(self)@,
    {
        self.registry.register(callback_name, timeout_seconds)
    }

    /// Registers an idle subscription under an identifier that the caller
    /// drew. An invalid timeout is refused first, then an identifier that
    /// is in use.
    pub fn register_with_id(
        &mut self,
        id: SubscriptionId,
        callback_name: String,
        timeout_seconds: i32,
    ) -> (r: Result<TimerRequest, RegisterError>)
        requires
            old(self).wf(),
        ensures
            final(self).wf(),
            r is Ok <==> valid_timeout(timeout_seconds) && !holds(old(self)@.subscriptions, id),
            !valid_timeout(timeout_seconds) <==> r == Err::<TimerRequest, RegisterError>(
                RegisterError::InvalidTimeout,
            ),
            valid_timeout(timeout_seconds) && holds(old(self)@.subscriptions, id) <==> r == Err::<
                TimerRequest,
                RegisterError,
            >(RegisterError::IdentifierInUse),
            r matches Ok(request) ==> request.id == id && request.millis == timeout_seconds * 1000
                && final(self)@ == (RouterState {
                subscriptions: old(self)@.subscriptions.insert(id, callback_name@),
                ..old(self)@
            }),
            r is Err ==> final(self)@ == old(self)@,
    {
        self.registry.register_with_id(id, callback_name, timeout_seconds)
    }

    /// Binds a script function to a session signal, given by its name, for
    /// the script. A later binding for the same signal replaces an earlier
    /// one. A name that names no signal, and the wake-up signal, are
    /// refused and change nothing.
    pub fn register_session_handler(&mut self, signal_kind: &str, callback_name: String) -> (r:
        Result<SessionKind, HandlerError>)
        requires
            old(self).wf(),
        ensures
            final(self).wf(),
            match kind_named(signal_kind@) {
                None => r == Err::<SessionKind, HandlerError>(HandlerError::UnknownSignal)
                    && final(self)@ == old(self)@,
                Some(kind) => if bindable(kind) {
                    &&& r == Ok::<SessionKind, HandlerError>(kind)
                    &&& handler_of(final(self)@, kind) == Some(callback_name@)
                    &&& forall|other: SessionKind|
                        other != kind ==> handler_of(final(self)@, other) == handler_of(
                            old(self)@,
                            other,
                        )
                    &&& final(self)@.subscriptions == old(self)@.subscriptions
                    &&& final(self)@.inhibit == old(self)@.inhibit
                    &&& final(self)@.hold_seconds == old(self)@.hold_seconds
                    &&& final(self)@.watched == old(self)@.watched
                    &&& final(self)@.on_battery == old(self)@.on_battery
                } else {
                    r == Err::<SessionKind, HandlerError>(HandlerError::NotBindable)
                        && final(self)@ == old(self)@
                },
            },
    {
        match SessionKind::parse(signal_kind) {
            None => Err(HandlerError::UnknownSignal),
            Some(kind) => match kind {
                SessionKind::Lock => {
                    self.lock_handler = Some(callback_name);
                    Ok(kind)
                },
                SessionKind::Unlock => {
                    self.unlock_handler = Some(callback_name);
                    Ok(kind)
                },
                SessionKind::PrepareSleep => {
                    self.sleep_handler = Some(callback_name);
                    Ok(kind)
                },
                SessionKind::Wakeup => Err(HandlerError::NotBindable),
            },
        }
    }

    /// Records that the collaborator acquired the sleep inhibitor. It is
    /// taken in when a hold window is open that holds none; otherwise the
    /// state stays as it was and the answer is `false`: the caller destroys
    /// what it acquired.
    pub fn inhibitor_acquired(&mut self) -> (accepted: bool)
        requires
            old(self).wf(),
        ensures
            final(self).wf(),
            accepted == accepts_resource(old(self)@.inhibit),
            final(self)@ == (RouterState {
                inhibit: after_acquired(old(self)@.inhibit),
                ..old(self)@
            }),
    {
        self.inhibit.resource_acquired()
    }

    /// The hold window of the inhibitor ran out: the inhibitor is to be
    /// destroyed if one is held, and no window is open afterwards.
    pub fn hold_expired(&mut self) -> (actions: Vec<Action>)
        requires
            old(self).wf(),
        ensures
            final(self).wf(),
            final(self)@ == after_hold(old(self)@),
            effects_of(actions@) == if release_destroys(old(self)@.inhibit) {
                seq![Effect::DestroyInhibitor]
            } else {
                Seq::<Effect>::empty()
            },
    {
        let mut actions: Vec<Action> = Vec::new();
        if self.inhibit.release() {
            actions.push(Action::DestroyInhibitor);
            assert(effects_of(actions@) =~= seq![Effect::DestroyInhibitor]);
        } else {
            assert(effects_of(actions@) =~= Seq::<Effect>::empty());
        }
        actions
    }

    fn request_inhibit(&mut self) -> (actions: Vec<Action>)
        requires
            old(self).wf(),
        ensures
            final(self).wf(),
            final(self)@ == (RouterState {
                inhibit: after_request(old(self)@.inhibit),
                ..old(self)@
            }),
            effects_of(actions@) == inhibit_effects(old(self)@),
    {
        let mut actions: Vec<Action> = Vec::new();
        match self.inhibit.request_inhibit() {
            InhibitDecision::Acquire { hold_seconds } => {
                actions.push(Action::AcquireInhibitor { hold_seconds });
                assert(effects_of(actions@) =~= seq![Effect::AcquireInhibitor(hold_seconds)]);
            },
            InhibitDecision::AlreadyActive => {
                assert(effects_of(actions@) =~= Seq::<Effect>::empty());
            },
        }
        actions
    }

    fn config_changed(&mut self) -> (actions: Vec<Action>)
        requires
            old(self).wf(),
        ensures
            final(self).wf(),
            final(self)@ == next_state(old(self)@, Event::ConfigChanged),
            effects_of(actions@) == effects(old(self)@, Event::ConfigChanged),
    {
        let released = self.registry.clear_all();
        let mut actions: Vec<Action> = Vec::new();
        let mut i: usize = 0;
        let ghost destroys = released@.map_values(|id: SubscriptionId| Effect::DestroyTimer(id));
        while i < released.len()
            invariant
                i <= released.len(),
                destroys == released@.map_values(|id: SubscriptionId| Effect::DestroyTimer(id)),
                effects_of(actions@) == destroys.subrange(0, i as int),
            decreases released.len() - i,
        {
            let ghost before = actions@;
            actions.push(Action::DestroyTimer(released[i]));
            assert(destroys[i as int] == Effect::DestroyTimer(released@[i as int]));
            assert(effects_of(actions@) =~= effects_of(before).push(destroys[i as int]));
            assert(effects_of(actions@) =~= destroys.subrange(0, i + 1));
            i = i + 1;
        }
        assert(destroys.subrange(0, i as int) =~= destroys);
        actions.push(Action::Flush);
        actions.push(Action::Emit(Event::ScriptReloadRequested));
        assert(effects_of(actions@) =~= destroys + seq![
            Effect::Flush,
            Effect::Emit(Event::ScriptReloadRequested),
        ]);
        actions
    }

    fn session_signal(&self, kind: SessionKind) -> (actions: Vec<Action>)
        ensures
            effects_of(actions@) == effects(self@, Event::SessionSignal(kind)),
    {
        let handler = match kind {
            SessionKind::Lock => &self.lock_handler,
            SessionKind::Unlock => &self.unlock_handler,
            SessionKind::PrepareSleep => &self.sleep_handler,
            SessionKind::Wakeup => &None,
        };
        let mut actions: Vec<Action> = Vec::new();
        match handler {
            Some(name) => {
                actions.push(Action::Invoke { callback: name.clone(), argument: None });
                assert(handler_of(self@, kind) == Some(name@));
                assert(effects_of(actions@) =~= seq![Effect::Invoke(name@, None)]);
            },
            None => {
                assert(handler_of(self@, kind) is None);
                assert(effects_of(actions@) =~= Seq::<Effect>::empty());
            },
        }
        actions
    }

    fn idle_transition(&self, id: SubscriptionId, phase: Phase) -> (actions: Vec<Action>)
        ensures
            effects_of(actions@) == effects(self@, Event::IdleTransition(id, phase)),
    {
        let mut actions: Vec<Action> = Vec::new();
        match self.registry.deliver(id, phase) {
            Some(delivery) => {
                let ghost callback = delivery.callback@;
                actions.push(
                    Action::Invoke { callback: delivery.callback, argument: Some(delivery.argument) },
                );
                assert(callback_in(self@.subscriptions, id) == Some(callback));
                assert(effects_of(actions@) =~= seq![
                    Effect::Invoke(callback, Some(phase_text(phase))),
                ]);
            },
            None => {
                assert(effects_of(actions@) =~= Seq::<Effect>::empty());
            },
        }
        actions
    }

    fn device_added(&mut self, id: String) -> (actions: Vec<Action>)
        requires
            old(self).wf(),
        ensures
            final(self).wf(),
            final(self)@ == next_state(old(self)@, Event::DeviceAdded(id)),
            effects_of(actions@) == effects(old(self)@, Event::DeviceAdded(id)),
    {
        let mut actions: Vec<Action> = Vec::new();
        match self.devices.on_added(id) {
            SupervisorAction::Spawn(name) => {
                actions.push(Action::SpawnWatcher(name));
                assert(effects_of(actions@) =~= seq![Effect::SpawnWatcher(name@)]);
            },
            _ => {
                assert(effects_of(actions@) =~= Seq::<Effect>::empty());
            },
        }
        actions
    }

    fn device_removed(&mut self, id: String) -> (actions: Vec<Action>)
        requires
            old(self).wf(),
        ensures
            final(self).wf(),
            final(self)@ == next_state(old(self)@, Event::DeviceRemoved(id)),
            effects_of(actions@) == effects(old(self)@, Event::DeviceRemoved(id)),
    {
        let mut actions: Vec<Action> = Vec::new();
        match self.devices.on_removed(id.as_str()) {
            SupervisorAction::Cancel(name) => {
                actions.push(Action::CancelWatcher(name));
                assert(effects_of(actions@) =~= seq![Effect::CancelWatcher(name@)]);
            },
            _ => {
                assert(effects_of(actions@) =~= Seq::<Effect>::empty());
            },
        }
        actions
    }

    /// Handles one event: changes the state as the event asks and says, in
    /// order, what the collaborators are to do.
    pub fn handle(&mut self, event: Event) -> (actions: Vec<Action>)
        requires
            old(self).wf(),
        ensures
            final(self).wf(),
            final(self)@ == next_state(old(self)@, event),
            effects_of(actions@) == effects(old(self)@, event),
    {
        match event {
            Event::ConfigChanged => self.config_changed(),
            Event::ScriptReloadRequested => {
                let mut actions: Vec<Action> = Vec::new();
                actions.push(Action::ReloadScript);
                assert(effects_of(actions@) =~= seq![Effect::ReloadScript]);
                actions
            },
            Event::BatteryStateChanged(on_battery) => {
                self.on_battery = on_battery;
                let mut actions: Vec<Action> = Vec::new();
                actions.push(Action::SetOnBattery(on_battery));
                assert(effects_of(actions@) =~= seq![Effect::SetOnBattery(on_battery)]);
                actions
            },
            Event::SessionSignal(kind) => self.session_signal(kind),
            Event::IdleTransition(id, phase) => self.idle_transition(id, phase),
            Event::DeviceAdded(id) => self.device_added(id),
            Event::DeviceRemoved(id) => self.device_removed(id),
            Event::DeviceActivity(_) => self.request_inhibit(),
            Event::InhibitRequested => self.request_inhibit(),
            Event::FlushRequested => {
                let mut actions: Vec<Action> = Vec::new();
                actions.push(Action::Flush);
                assert(effects_of(actions@) =~= seq![Effect::Flush]);
                actions
            },
        }
    }

    /// Handles the events that have arrived, strictly in the order of their
    /// arrival, and says, in order, what the collaborators are to do.
    pub fn run(&mut self, inbound: Vec<Event>) -> (actions: Vec<Action>)
        requires
            old(self).wf(),
        ensures
            final(self).wf(),
            final(self)@ == state_after(old(self)@, inbound@),
            effects_of(actions@) == effects_along(old(self)@, inbound@),
    {
        let mut inbound = inbound;
        let mut actions: Vec<Action> = Vec::new();
        let ghost all = inbound@;
        let ghost start = self@;
        proof {
            assert(effects_of(actions@) =~= Seq::<Effect>::empty());
            assert(Seq::<Event>::empty() + all =~= all);
        }
        let ghost mut done: Seq<Event> = Seq::empty();
        while inbound.len() > 0
            invariant
                self.wf(),
                done + inbound@ == all,
                self@ == state_after(start, done),
                effects_of(actions@) == effects_along(start, done),
            decreases inbound.len(),
        {
            let ghost before = self@;
            let ghost so_far = actions@;
            let event = inbound.remove(0);
            let mut more = self.handle(event);
            let ghost added = more@;
            actions.append(&mut more);
            proof {
                let one = seq![event];
                lemma_stream_splits(start, done, one);
                let none = Seq::<Event>::empty();
                let then = next_state(before, event);
                assert(one[0] == event);
                assert(one.skip(1) =~= none);
                assert(state_after(then, none) == then);
                assert(effects_along(then, none) =~= Seq::<Effect>::empty());
                assert(state_after(before, one) == then);
                assert(effects_along(before, one) =~= effects(before, event));
                assert(effects_of(actions@) =~= effects_of(so_far) + effects_of(added));
                assert((done + one) + inbound@ =~= all);
                done = done + one;
            }
        }
        proof {
            assert(done =~= all);
        }
        actions
    }
}

} // verus!
