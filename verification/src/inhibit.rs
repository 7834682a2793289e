//! The sleep inhibitor: one native resource, held for one bounded window
//! after qualifying activity and never acquired twice.

use crate::config::TIMEOUT_SEC;
use vstd::prelude::*;

verus! {

/// The hold window, in seconds, of a controller made by `new`.
pub const DEFAULT_HOLD_SECONDS: u64 = TIMEOUT_SEC;

/// Whether sleep is being held off, and whether the native resource that
/// does so is held.
#[derive(Debug, Clone, Copy, PartialEq, Eq, Structural)]
pub struct InhibitState {
    /// A hold window is open.
    pub active: bool,
    /// The native inhibitor was acquired in this window and not yet destroyed.
    pub resource_held: bool,
}

/// What a request to inhibit asks of the session collaborator.
#[derive(Debug, Clone, Copy, PartialEq, Eq, Structural)]
pub enum InhibitDecision {
    /// Acquire the native inhibitor, and let the release follow after this
    /// many seconds.
    Acquire { hold_seconds: u64 },
    /// A window is open already: do nothing.
    AlreadyActive,
}

/// Guards the single sleep inhibitor.
#[derive(Debug)]
pub struct InhibitController {
    state: InhibitState,
    hold_seconds: u64,
}

/// The state before any request.
pub open spec fn idle_state() -> InhibitState {
    InhibitState { active: false, resource_held: false }
}

/// A resource is only ever held inside a window.
pub open spec fn state_wf(s: InhibitState) -> bool {
    s.resource_held ==> s.active
}

/// Whether a request in state `s` acquires the resource.
pub open spec fn request_acquires(s: InhibitState) -> bool {
    !s.active
}

/// The state after a request to inhibit.
pub open spec fn after_request(s: InhibitState) -> InhibitState {
    if s.active {
        s
    } else {
        InhibitState { active: true, resource_held: false }
    }
}

/// Whether state `s` takes an acquired resource in: a window is open and
/// holds none yet.
pub open spec fn accepts_resource(s: InhibitState) -> bool {
    s.active && !s.resource_held
}

/// The state after the collaborator reported an acquired resource.
pub open spec fn after_acquired(s: InhibitState) -> InhibitState {
    if accepts_resource(s) {
        InhibitState { active: true, resource_held: true }
    } else {
        s
    }
}

/// Whether the release in state `s` destroys a resource.
pub open spec fn release_destroys(s: InhibitState) -> bool {
    s.resource_held
}

/// The state after the hold window ran out.
pub open spec fn after_release(s: InhibitState) -> InhibitState {
    idle_state()
}

/// The state after `n` requests in a row.
pub open spec fn after_requests(s: InhibitState, n: nat) -> InhibitState
    decreases n,
{
    if n == 0 {
        s
    } else {
        after_requests(after_request(s), (n - 1) as nat)
    }
}

/// How many of `n` requests in a row, starting in state `s`, acquire the
/// resource.
pub open spec fn acquisitions(s: InhibitState, n: nat) -> nat
    decreases n,
{
    if n == 0 {
        0
    } else {
        (if request_acquires(s) {
            1nat
        } else {
            0nat
        }) + acquisitions(after_request(s), (n - 1) as nat)
    }
}

/// Requests made while a window is open acquire nothing and change nothing,
/// however many they are.
pub proof fn lemma_requests_while_active(s: InhibitState, n: nat)
    requires
        s.active,
    ensures
        acquisitions(s, n) == 0,
        after_requests(s, n) == s,
    decreases n,
{
    if n > 0 {
        lemma_requests_while_active(s, (n - 1) as nat);
    }
}

/// Of any run of requests with no release between them, at most one
/// acquires the resource: the first, and only if no window was open.
pub proof fn lemma_at_most_one_acquisition(s: InhibitState, n: nat)
    ensures
        acquisitions(s, n) <= 1,
        acquisitions(s, n) == 1 <==> n > 0 && !s.active,
        n > 0 ==> after_requests(s, n).active,
    decreases n,
{
    if n > 0 {
        lemma_requests_while_active(after_request(s), (n - 1) as nat);
    }
}

/// The release destroys a resource exactly when one was acquired in the
/// window that it ends, and leaves no window and no resource behind, so a
/// second release destroys nothing.
pub proof fn lemma_release_matches_acquire(s: InhibitState, acquired: bool)
    requires
        state_wf(s),
        !s.active,
    ensures
        ({
            let opened = after_request(s);
            let held = if acquired {
                after_acquired(opened)
            } else {
                opened
            };
            &&& request_acquires(s)
            &&& state_wf(held)
            &&& release_destroys(held) == acquired
            &&& after_release(held) == idle_state()
            &&& !release_destroys(after_release(held))
        }),
{
}

/// Every step keeps the invariant that a resource is held only inside a
/// window.
pub proof fn lemma_steps_keep_invariant(s: InhibitState)
    requires
        state_wf(s),
    ensures
        state_wf(after_request(s)),
        state_wf(after_acquired(s)),
        state_wf(after_release(s)),
{
}

impl View for InhibitController {
    type V = InhibitState;

    closed spec fn view(&self) -> InhibitState {
        self.state
    }
}

impl InhibitController {
    /// The controller's invariant.
    pub open spec fn wf(&self) -> bool {
        state_wf(self@)
    }

    /// The length of the hold window, in seconds.
    pub closed spec fn hold(&self) -> u64 {
        self.hold_seconds
    }

    /// A controller with no window open and the default hold window.
    pub fn new() -> (c: Self)
        ensures
            c@ == idle_state(),
            c.hold() == DEFAULT_HOLD_SECONDS,
            c.wf(),
    {
        InhibitController {
            state: InhibitState { active: false, resource_held: false },
            hold_seconds: DEFAULT_HOLD_SECONDS,
        }
    }

    /// A controller with no window open and a hold window of the given
    /// length.
    pub fn with_hold_seconds(hold_seconds: u64) -> (c: Self)
        ensures
            c@ == idle_state(),
            c.hold() == hold_seconds,
            c.wf(),
    {
        InhibitController {
            state: InhibitState { active: false, resource_held: false },
            hold_seconds,
        }
    }

    /// The current state.
    pub fn state(&self) -> (s: InhibitState)
        ensures
            s == self@,
    {
        self.state
    }

    /// Whether a hold window is open.
    pub fn is_active(&self) -> (active: bool)
        ensures
            active == self@.active,
    {
        self.state.active
    }

    /// The length of the hold window, in seconds.
    pub fn hold_seconds(&self) -> (seconds: u64)
        ensures
            seconds == self.hold(),
    {
        self.hold_seconds
    }

    /// Asks for sleep to be held off. With no window open, one opens and
    /// the resource is to be acquired; inside a window the request changes
    /// nothing, and the window is not extended.
    pub fn request_inhibit(&mut self) -> (decision: InhibitDecision)
        requires
            old(self).wf(),
        ensures
            final(self).wf(),
            final(self)@ == after_request(old(self)@),
            final(self).hold() == old(self).hold(),
            request_acquires(old(self)@) ==> decision == (InhibitDecision::Acquire {
                hold_seconds: old(self).hold(),
            }),
            !request_acquires(old(self)@) ==> decision == InhibitDecision::AlreadyActive,
    {
        if self.state.active {
            InhibitDecision::AlreadyActive
        } else {
            self.state = InhibitState { active: true, resource_held: false };
            InhibitDecision::Acquire { hold_seconds: self.hold_seconds }
        }
    }

    /// Records that the native resource was acquired. It is taken in when a
    /// window is open that holds none; otherwise the state stays as it was
    /// and the answer is `false`: the caller destroys what it acquired.
    pub fn resource_acquired(&mut self) -> (accepted: bool)
        requires
            old(self).wf(),
        ensures
            final(self).wf(),
            accepted == accepts_resource(old(self)@),
            final(self)@ == after_acquired(old(self)@),
            final(self).hold() == old(self).hold(),
    {
        if self.state.active && !self.state.resource_held {
            self.state = InhibitState { active: true, resource_held: true };
            true
        } else {
            false
        }
    }

    /// Ends the hold window. The answer says whether the native resource
    /// is to be destroyed: it is when one was held.
    pub fn release(&mut self) -> (destroy: bool)
        requires
            old(self).wf(),
        ensures
            final(self).wf(),
            destroy == release_destroys(old(self)@),
            final(self)@ == after_release(old(self)@),
            final(self).hold() == old(self).hold(),
    {
        let destroy = self.state.resource_held;
        self.state = InhibitState { active: false, resource_held: false };
        destroy
    }
}

} // verus!
