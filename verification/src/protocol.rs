//! The compositor's globals: which of the announced interfaces the daemon
//! binds, and what it may do once they are bound.

use crate::types::same_text;
use std::collections::HashMap;
use vstd::prelude::*;

verus! {

broadcast use vstd::std_specs::hash::group_hash_axioms;

/// The version at which every global is bound.
pub const BIND_VERSION: u32 = 1;

/// The globals that the daemon binds.
#[derive(Debug, Clone, Copy, PartialEq, Eq, Hash, Structural)]
pub enum Global {
    Seat,
    IdleNotifier,
    Activation,
    ActivationToken,
    IdleInhibitor,
    IdleInhibitManager,
    GammaControl,
    GammaControlManager,
    Compositor,
    Output,
}

/// What the daemon does about one announced global.
#[derive(Debug, Clone, Copy, PartialEq, Eq, Structural)]
pub struct GlobalDecision {
    /// The global to bind, if the interface is one of the daemon's.
    pub bind: Option<Global>,
    /// Create a surface on the compositor that was just bound.
    pub create_surface: bool,
    /// Set up the script engine and load the user script: the seat and the
    /// idle notifier are both there.
    pub start_script: bool,
}

/// What the daemon keeps of an output.
#[derive(Debug, Clone, PartialEq, Eq)]
pub struct Output {
    /// The name under which the registry announced the output.
    pub reg_name: u32,
    /// The output's own name, once it is known.
    pub name: Option<String>,
    /// The size of the output's gamma ramp.
    pub ramp_size: usize,
    /// Whether the output's colour is waiting to be set.
    pub color_changed: bool,
}

/// Which globals are bound, as mathematical values.
pub struct Bound {
    pub seat: bool,
    pub idle_notifier: bool,
    pub inhibit_manager: bool,
    pub surface: bool,
    /// The outputs, each under its registry name.
    pub outputs: Map<u32, Output>,
}

/// What the daemon has bound so far.
#[derive(Debug)]
pub struct ProtocolState {
    seat: bool,
    idle_notifier: bool,
    inhibit_manager: bool,
    surface: bool,
    outputs: HashMap<u32, Output>,
}

/// The interface name of a global.
pub open spec fn interface_name(global: Global) -> Seq<char> {
    match global {
        Global::Seat => "wl_seat"@,
        Global::IdleNotifier => "ext_idle_notifier_v1"@,
        Global::Activation => "xdg_activation_v1"@,
        Global::ActivationToken => "xdg_activation_token_v1"@,
        Global::IdleInhibitor => "zwp_idle_inhibitor_v1"@,
        Global::IdleInhibitManager => "zwp_idle_inhibit_manager_v1"@,
        Global::GammaControl => "zwlr_gamma_control_v1"@,
        Global::GammaControlManager => "zwlr_gamma_control_manager_v1"@,
        Global::Compositor => "wl_compositor"@,
        Global::Output => "wl_output"@,
    }
}

/// The global with the interface name `interface`, if the daemon binds it.
pub open spec fn global_named(interface: Seq<char>) -> Option<Global> {
    if interface == "wl_seat"@ {
        Some(Global::Seat)
    } else if interface == "ext_idle_notifier_v1"@ {
        Some(Global::IdleNotifier)
    } else if interface == "xdg_activation_v1"@ {
        Some(Global::Activation)
    } else if interface == "xdg_activation_token_v1"@ {
        Some(Global::ActivationToken)
    } else if interface == "zwp_idle_inhibitor_v1"@ {
        Some(Global::IdleInhibitor)
    } else if interface == "zwp_idle_inhibit_manager_v1"@ {
        Some(Global::IdleInhibitManager)
    } else if interface == "zwlr_gamma_control_v1"@ {
        Some(Global::GammaControl)
    } else if interface == "zwlr_gamma_control_manager_v1"@ {
        Some(Global::GammaControlManager)
    } else if interface == "wl_compositor"@ {
        Some(Global::Compositor)
    } else if interface == "wl_output"@ {
        Some(Global::Output)
    } else {
        None
    }
}

/// Nothing bound.
pub open spec fn nothing_bound() -> Bound {
    Bound {
        seat: false,
        idle_notifier: false,
        inhibit_manager: false,
        surface: false,
        outputs: Map::empty(),
    }
}

/// An output as it is when it was just bound: nothing is known of it but
/// its registry name.
pub open spec fn new_output(name: u32) -> Output {
    Output { reg_name: name, name: None, ramp_size: 0, color_changed: false }
}

/// The outputs after the one with the registry name `name` was bound: it
/// stands under that name, in place of what stood there before.
pub open spec fn with_output(outputs: Map<u32, Output>, name: u32) -> Map<u32, Output> {
    outputs.insert(name, new_output(name))
}

/// What is bound after the global `global` was announced under the
/// registry name `name`.
pub open spec fn after_global(b: Bound, name: u32, global: Option<Global>) -> Bound {
    match global {
        Some(Global::Seat) => Bound { seat: true, ..b },
        Some(Global::IdleNotifier) => Bound { idle_notifier: true, ..b },
        Some(Global::IdleInhibitManager) => Bound { inhibit_manager: true, ..b },
        Some(Global::Compositor) => Bound { surface: true, ..b },
        Some(Global::Output) => Bound { outputs: with_output(b.outputs, name), ..b },
        _ => b,
    }
}

/// The decision on an announced global: bind it if it is one of the
/// daemon's; create a surface on the compositor; start the script when the
/// seat arrives with the idle notifier there, or the other way round.
pub open spec fn decision_on(b: Bound, global: Option<Global>) -> GlobalDecision {
    GlobalDecision {
        bind: global,
        create_surface: global == Some(Global::Compositor),
        start_script: (global == Some(Global::Seat) && b.idle_notifier) || (global == Some(
            Global::IdleNotifier,
        ) && b.seat),
    }
}

/// Whether the script can run: it needs the seat and the idle notifier.
pub open spec fn script_ready(b: Bound) -> bool {
    b.seat && b.idle_notifier
}

/// Whether the sleep inhibitor can be acquired: it needs the inhibit
/// manager and a surface.
pub open spec fn inhibitor_available(b: Bound) -> bool {
    b.inhibit_manager && b.surface
}

/// The script is started only when it can run, and starting never comes
/// with an interface that is not the seat's or the idle notifier's.
pub proof fn lemma_script_starts_when_ready(b: Bound, name: u32, global: Option<Global>)
    ensures
        decision_on(b, global).start_script ==> script_ready(after_global(b, name, global)),
        script_ready(after_global(b, name, global)) && !script_ready(b) ==> decision_on(
            b,
            global,
        ).start_script,
{
}

/// The ten interface names differ from one another, so a global is found
/// again from its interface name.
pub proof fn lemma_interface_round_trip(global: Global)
    ensures
        global_named(interface_name(global)) == Some(global),
{
    reveal_strlit("wl_seat");
    reveal_strlit("ext_idle_notifier_v1");
    reveal_strlit("xdg_activation_v1");
    reveal_strlit("xdg_activation_token_v1");
    reveal_strlit("zwp_idle_inhibitor_v1");
    reveal_strlit("zwp_idle_inhibit_manager_v1");
    reveal_strlit("zwlr_gamma_control_v1");
    reveal_strlit("zwlr_gamma_control_manager_v1");
    reveal_strlit("wl_compositor");
    reveal_strlit("wl_output");
    assert("wl_seat"@.len() == 7);
    assert("ext_idle_notifier_v1"@.len() == 20);
    assert("xdg_activation_v1"@.len() == 17);
    assert("xdg_activation_token_v1"@.len() == 23);
    assert("zwp_idle_inhibitor_v1"@.len() == 21);
    assert("zwp_idle_inhibit_manager_v1"@.len() == 27);
    assert("zwlr_gamma_control_v1"@.len() == 21);
    assert("zwlr_gamma_control_manager_v1"@.len() == 29);
    assert("wl_compositor"@.len() == 13);
    assert("wl_output"@.len() == 9);
    assert("zwp_idle_inhibitor_v1"@[2] == 'p');
    assert("zwlr_gamma_control_v1"@[2] == 'l');
}

impl Global {
    /// The interface name of the global.
    pub fn interface(self) -> (name: &'static str)
        ensures
            name@ == interface_name(self),
    {
        match self {
            Global::Seat => "wl_seat",
            Global::IdleNotifier => "ext_idle_notifier_v1",
            Global::Activation => "xdg_activation_v1",
            Global::ActivationToken => "xdg_activation_token_v1",
            Global::IdleInhibitor => "zwp_idle_inhibitor_v1",
            Global::IdleInhibitManager => "zwp_idle_inhibit_manager_v1",
            Global::GammaControl => "zwlr_gamma_control_v1",
            Global::GammaControlManager => "zwlr_gamma_control_manager_v1",
            Global::Compositor => "wl_compositor",
            Global::Output => "wl_output",
        }
    }

    /// Finds the global with the interface name `interface`.
    pub fn parse(interface: &str) -> (global: Option<Global>)
        ensures
            global == global_named(interface@),
    {
        if same_text(interface, "wl_seat") {
            Some(Global::Seat)
        } else if same_text(interface, "ext_idle_notifier_v1") {
            Some(Global::IdleNotifier)
        } else if same_text(interface, "xdg_activation_v1") {
            Some(Global::Activation)
        } else if same_text(interface, "xdg_activation_token_v1") {
            Some(Global::ActivationToken)
        } else if same_text(interface, "zwp_idle_inhibitor_v1") {
            Some(Global::IdleInhibitor)
        } else if same_text(interface, "zwp_idle_inhibit_manager_v1") {
            Some(Global::IdleInhibitManager)
        } else if same_text(interface, "zwlr_gamma_control_v1") {
            Some(Global::GammaControl)
        } else if same_text(interface, "zwlr_gamma_control_manager_v1") {
            Some(Global::GammaControlManager)
        } else if same_text(interface, "wl_compositor") {
            Some(Global::Compositor)
        } else if same_text(interface, "wl_output") {
            Some(Global::Output)
        } else {
            None
        }
    }
}

impl View for ProtocolState {
    type V = Bound;

    closed spec fn view(&self) -> Bound {
        Bound {
            seat: self.seat,
            idle_notifier: self.idle_notifier,
            inhibit_manager: self.inhibit_manager,
            surface: self.surface,
            outputs: self.outputs@,
        }
    }
}

impl ProtocolState {
    /// The state's invariant: the outputs are finite in number.
    pub open spec fn wf(&self) -> bool {
        self@.outputs.dom().finite()
    }

    /// The state before any global was announced.
    pub fn new() -> (state: Self)
        ensures
            state@ == nothing_bound(),
            state.wf(),
    {
        ProtocolState {
            seat: false,
            idle_notifier: false,
            inhibit_manager: false,
            surface: false,
            outputs: HashMap::new(),
        }
    }

    /// Whether the script can run.
    pub fn is_script_ready(&self) -> (ready: bool)
        ensures
            ready == script_ready(self@),
    {
        self.seat && self.idle_notifier
    }

    /// Whether the sleep inhibitor can be acquired. Where it cannot, a
    /// hold window still opens, with no resource in it.
    pub fn is_inhibitor_available(&self) -> (available: bool)
        ensures
            available == inhibitor_available(self@),
    {
        self.inhibit_manager && self.surface
    }

    /// What is kept of the output with the registry name `name`.
    pub fn output(&self, name: u32) -> (found: Option<&Output>)
        ensures
            found is Some <==> self@.outputs.contains_key(name),
            found matches Some(output) ==> *output == self@.outputs[name],
    {
        self.outputs.get(&name)
    }

    /// The number of outputs that are bound.
    pub fn output_count(&self) -> (n: usize)
        ensures
            n == self@.outputs.dom().len(),
    {
        self.outputs.len()
    }

    /// Handles the announcement of a global with the registry name `name`
    /// and the interface `interface`.
    pub fn on_global(&mut self, name: u32, interface: &str) -> (decision: GlobalDecision)
        requires
            old(self).wf(),
        ensures
            final(self).wf(),
            decision == decision_on(old(self)@, global_named(interface@)),
            final(self)@ == after_global(old(self)@, name, global_named(interface@)),
    {
        let global = Global::parse(interface);
        let mut create_surface = false;
        let mut start_script = false;
        match global {
            Some(Global::Seat) => {
                self.seat = true;
                start_script = self.idle_notifier;
            },
            Some(Global::IdleNotifier) => {
                self.idle_notifier = true;
                start_script = self.seat;
            },
            Some(Global::IdleInhibitManager) => {
                self.inhibit_manager = true;
            },
            Some(Global::Compositor) => {
                self.surface = true;
                create_surface = true;
            },
            Some(Global::Output) => {
                let output = Output {
                    reg_name: name,
                    name: None,
                    ramp_size: 0,
                    color_changed: false,
                };
                self.outputs.insert(name, output);
            },
            _ => {},
        }
        GlobalDecision { bind: global, create_surface, start_script }
    }
}

} // verus!
