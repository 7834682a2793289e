//! Messages that flow through the coordination core.

use vstd::prelude::*;

verus! {

/// Identifies one idle subscription for the lifetime of the process.
pub type SubscriptionId = u128;

/// Requests addressed to the configuration file provisioner.
#[derive(Debug, Clone, Copy, PartialEq, Eq, Structural)]
pub enum FileRequest {
    /// Write the default configuration to disk.
    Write,
}

/// What the producers put on the inbound channel.
#[derive(Debug, Clone, PartialEq, Eq)]
pub enum Request {
    /// Load the user script again.
    LuaReload,
    /// A session signal, by its name on the bus.
    LuaMethod(String),
    /// The configuration file changed.
    Reset,
    /// The power source changed; `true` on battery.
    OnBattery(bool),
    /// Flush the outgoing protocol requests.
    Flush,
    /// Input activity asks for sleep to be held off.
    Inhibit,
}

/// The session signals that can reach a script handler.
#[derive(Debug, Clone, Copy, PartialEq, Eq, Hash, Structural)]
pub enum SessionKind {
    Lock,
    Unlock,
    PrepareSleep,
    Wakeup,
}

/// The two phases of an idle subscription.
#[derive(Debug, Clone, Copy, PartialEq, Eq, Hash, Structural)]
pub enum Phase {
    Idled,
    Resumed,
}

/// One event of the merged inbound stream.
#[derive(Debug, Clone, PartialEq, Eq)]
pub enum Event {
    ConfigChanged,
    BatteryStateChanged(bool),
    SessionSignal(SessionKind),
    IdleTransition(SubscriptionId, Phase),
    DeviceAdded(String),
    DeviceRemoved(String),
    DeviceActivity(String),
    InhibitRequested,
    FlushRequested,
    ScriptReloadRequested,
}

/// The name under which a session signal travels.
pub open spec fn kind_name(kind: SessionKind) -> Seq<char> {
    match kind {
        SessionKind::Lock => "Lock"@,
        SessionKind::Unlock => "Unlock"@,
        SessionKind::PrepareSleep => "PrepareSleep"@,
        SessionKind::Wakeup => "Wakeup"@,
    }
}

/// The session signal that `name` names, if any.
pub open spec fn kind_named(name: Seq<char>) -> Option<SessionKind> {
    if name == "Lock"@ {
        Some(SessionKind::Lock)
    } else if name == "Unlock"@ {
        Some(SessionKind::Unlock)
    } else if name == "PrepareSleep"@ {
        Some(SessionKind::PrepareSleep)
    } else if name == "Wakeup"@ {
        Some(SessionKind::Wakeup)
    } else {
        None
    }
}

/// The argument a callback receives for a phase.
pub open spec fn phase_text(phase: Phase) -> Seq<char> {
    match phase {
        Phase::Idled => "idled"@,
        Phase::Resumed => "resumed"@,
    }
}

/// The signal that the bus's "prepare for sleep" announces: going to sleep
/// when `start` holds, waking up when it does not.
pub open spec fn sleep_signal(start: bool) -> SessionKind {
    if start {
        SessionKind::PrepareSleep
    } else {
        SessionKind::Wakeup
    }
}

/// The event that a request stands for; none for a signal name that is not
/// one of the four session signals.
pub open spec fn event_of(request: Request) -> Option<Event> {
    match request {
        Request::LuaReload => Some(Event::ScriptReloadRequested),
        Request::LuaMethod(name) => match kind_named(name@) {
            Some(kind) => Some(Event::SessionSignal(kind)),
            None => None,
        },
        Request::Reset => Some(Event::ConfigChanged),
        Request::OnBattery(on_battery) => Some(Event::BatteryStateChanged(on_battery)),
        Request::Flush => Some(Event::FlushRequested),
        Request::Inhibit => Some(Event::InhibitRequested),
    }
}

/// The four signal names differ from one another, so a kind is found again
/// from its name.
pub proof fn lemma_kind_round_trip(kind: SessionKind)
    ensures
        kind_named(kind_name(kind)) == Some(kind),
{
    reveal_strlit("Lock");
    reveal_strlit("Unlock");
    reveal_strlit("PrepareSleep");
    reveal_strlit("Wakeup");
    assert("Lock"@.len() == 4);
    assert("Unlock"@.len() == 6);
    assert("PrepareSleep"@.len() == 12);
    assert("Wakeup"@[0] == 'W');
    assert("Unlock"@[0] == 'U');
}

/// Tells whether two strings hold the same text.
pub fn same_text(a: &str, b: &str) -> (same: bool)
    ensures
        same == (a@ == b@),
{
    let x = a.to_owned();
    let y = b.to_owned();
    x == y
}

impl SessionKind {
    /// The name under which this signal travels.
    pub fn name(self) -> (name: &'static str)
        ensures
            name@ == kind_name(self),
    {
        match self {
            SessionKind::Lock => "Lock",
            SessionKind::Unlock => "Unlock",
            SessionKind::PrepareSleep => "PrepareSleep",
            SessionKind::Wakeup => "Wakeup",
        }
    }

    /// Finds the signal that `name` names.
    pub fn parse(name: &str) -> (kind: Option<SessionKind>)
        ensures
            kind == kind_named(name@),
    {
        if same_text(name, "Lock") {
            Some(SessionKind::Lock)
        } else if same_text(name, "Unlock") {
            Some(SessionKind::Unlock)
        } else if same_text(name, "PrepareSleep") {
            Some(SessionKind::PrepareSleep)
        } else if same_text(name, "Wakeup") {
            Some(SessionKind::Wakeup)
        } else {
            None
        }
    }

    /// The signal announced by "prepare for sleep" with the given flag.
    pub fn from_prepare_for_sleep(start: bool) -> (kind: SessionKind)
        ensures
            kind == sleep_signal(start),
    {
        if start {
            SessionKind::PrepareSleep
        } else {
            SessionKind::Wakeup
        }
    }
}

impl Phase {
    /// The argument a callback receives for this phase.
    pub fn argument(self) -> (text: &'static str)
        ensures
            text@ == phase_text(self),
    {
        match self {
            Phase::Idled => "idled",
            Phase::Resumed => "resumed",
        }
    }
}

impl Request {
    /// The request that carries a session signal.
    pub fn session_signal(kind: SessionKind) -> (request: Request)
        ensures
            request matches Request::LuaMethod(name) && name@ == kind_name(kind),
            event_of(request) == Some(Event::SessionSignal(kind)),
    {
        proof {
            lemma_kind_round_trip(kind);
        }
        Request::LuaMethod(kind.name().to_owned())
    }

    /// Turns the request into the event it stands for. A signal name that
    /// names no session signal gives nothing.
    pub fn into_event(self) -> (event: Option<Event>)
        ensures
            event == event_of(self),
    {
        match self {
            Request::LuaReload => Some(Event::ScriptReloadRequested),
            Request::LuaMethod(name) => match SessionKind::parse(name.as_str()) {
                Some(kind) => Some(Event::SessionSignal(kind)),
                None => None,
            },
            Request::Reset => Some(Event::ConfigChanged),
            Request::OnBattery(on_battery) => Some(Event::BatteryStateChanged(on_battery)),
            Request::Flush => Some(Event::FlushRequested),
            Request::Inhibit => Some(Event::InhibitRequested),
        }
    }
}

} // verus!
