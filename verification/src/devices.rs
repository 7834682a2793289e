//! Input devices: which hotplugged devices qualify for watching, which are
//! being watched, and what a watcher makes of what it reads.

use crate::types::{same_text, Event};
use vstd::prelude::*;
use vstd::string::*;

verus! {

/// What the hotplug monitor knows of a device.
#[derive(Debug, Clone, PartialEq, Eq)]
pub struct DeviceInfo {
    /// The kernel's name for the device, where it is valid text.
    pub sysname: Option<String>,
    /// The value of the device's joystick property, where it has one.
    pub joystick_property: Option<String>,
}

/// The kind of a hotplug event.
#[derive(Debug, Clone, Copy, PartialEq, Eq, Structural)]
pub enum HotplugKind {
    Add,
    Remove,
    /// A change, a bind, an unbind or an unknown kind.
    Other,
}

/// The kind of an input event read from a device.
#[derive(Debug, Clone, Copy, PartialEq, Eq, Structural)]
pub enum InputKind {
    Key,
    AbsAxis,
    Synchronization,
    Other,
}

/// What one read on a watched device came to.
#[derive(Debug, Clone, Copy, PartialEq, Eq, Structural)]
pub enum ReadOutcome {
    /// An input event of the given kind.
    Input(InputKind),
    /// The read failed: the device is gone.
    Failed,
    /// The watcher found itself cancelled before the read.
    Cancelled,
}

/// What a watcher does after one read.
#[derive(Debug, Clone, Copy, PartialEq, Eq, Structural)]
pub enum WatchStep {
    /// Report activity of the device and read again.
    Activity,
    /// Read again.
    Ignore,
    /// Close the device and end.
    Stop,
}

/// What the supervisor asks of the task runner.
#[derive(Debug, Clone, PartialEq, Eq)]
pub enum SupervisorAction {
    /// Start a watcher for the device with this name.
    Spawn(String),
    /// Signal the watcher of the device with this name to end.
    Cancel(String),
    /// Nothing to do.
    Nothing,
}

/// The devices that have a watcher, in the order in which they were added.
#[derive(Debug)]
pub struct DeviceSupervisor {
    watched: Vec<String>,
}

/// The name under which a qualifying device is watched: its kernel name,
/// provided that it carries the joystick property and the name starts with
/// `event`.
pub open spec fn qualifying_name(sysname: Option<Seq<char>>, has_property: bool) -> Option<
    Seq<char>,
> {
    match sysname {
        Some(name) => if has_property && "event"@.is_prefix_of(name) {
            Some(name)
        } else {
            None
        },
        None => None,
    }
}

/// The watched devices after `id` was added: a device that is watched
/// already is not added again.
pub open spec fn added(watched: Seq<Seq<char>>, id: Seq<char>) -> Seq<Seq<char>> {
    if watched.contains(id) {
        watched
    } else {
        watched.push(id)
    }
}

/// The watched devices after `id` was removed.
pub open spec fn removed(watched: Seq<Seq<char>>, id: Seq<char>) -> Seq<Seq<char>> {
    if watched.contains(id) {
        watched.remove(watched.index_of(id))
    } else {
        watched
    }
}

/// What a watcher does after a read: a key event is activity; axis and
/// synchronization events and all others are passed over; a failed read or
/// a cancellation ends the watch.
pub open spec fn step_of(outcome: ReadOutcome) -> WatchStep {
    match outcome {
        ReadOutcome::Input(InputKind::Key) => WatchStep::Activity,
        ReadOutcome::Input(_) => WatchStep::Ignore,
        ReadOutcome::Failed => WatchStep::Stop,
        ReadOutcome::Cancelled => WatchStep::Stop,
    }
}

/// Adding a device and removing it again leaves no entry for it; where it
/// was not watched before, the supervisor is back where it was. Removing a
/// device that is not watched changes nothing.
pub proof fn lemma_add_then_remove(watched: Seq<Seq<char>>, id: Seq<char>)
    requires
        watched.no_duplicates(),
    ensures
        added(watched, id).no_duplicates(),
        added(watched, id).contains(id),
        removed(watched, id).no_duplicates(),
        !removed(watched, id).contains(id),
        !removed(added(watched, id), id).contains(id),
        !watched.contains(id) ==> removed(added(watched, id), id) == watched,
        !watched.contains(id) ==> removed(watched, id) == watched,
{
    lemma_added(watched, id);
    lemma_removed(watched, id);
    lemma_removed(added(watched, id), id);
    if !watched.contains(id) {
        let a = watched.push(id);
        assert(a[watched.len() as int] == id);
        let at = a.index_of(id);
        assert(at == watched.len()) by {
            if at < watched.len() {
                assert(watched[at] == id);
            }
        }
        assert(a.remove(at) =~= watched);
    }
}

/// Adding keeps the entries distinct, keeps every entry, and holds `id`.
pub proof fn lemma_added(watched: Seq<Seq<char>>, id: Seq<char>)
    requires
        watched.no_duplicates(),
    ensures
        added(watched, id).no_duplicates(),
        added(watched, id).contains(id),
        forall|other: Seq<char>| watched.contains(other) ==> added(watched, id).contains(other),
{
    let a = added(watched, id);
    if !watched.contains(id) {
        assert(a[watched.len() as int] == id);
        assert forall|i: int, j: int| 0 <= i < a.len() && 0 <= j < a.len() && i != j implies a[i]
            != a[j] by {
            if i < watched.len() {
                assert(watched[i] == a[i]);
            }
            if j < watched.len() {
                assert(watched[j] == a[j]);
            }
        }
        assert forall|other: Seq<char>| watched.contains(other) implies a.contains(other) by {
            let k = watched.index_of(other);
            assert(a[k] == other);
        }
    }
}

/// Removing keeps the entries distinct, drops `id` and nothing else.
pub proof fn lemma_removed(watched: Seq<Seq<char>>, id: Seq<char>)
    requires
        watched.no_duplicates(),
    ensures
        removed(watched, id).no_duplicates(),
        !removed(watched, id).contains(id),
        forall|other: Seq<char>|
            other != id ==> (watched.contains(other) <==> removed(watched, id).contains(other)),
{
    let r = removed(watched, id);
    if watched.contains(id) {
        let at = watched.index_of(id);
        assert forall|i: int| 0 <= i < r.len() implies r[i] == watched[if i < at {
            i
        } else {
            i + 1
        }] by {}
        assert forall|i: int, j: int| 0 <= i < r.len() && 0 <= j < r.len() && i != j implies r[i]
            != r[j] by {}
        if r.contains(id) {
            let k = r.index_of(id);
            assert(r[k] == id);
            assert(false);
        }
        assert forall|other: Seq<char>| other != id implies (watched.contains(other)
            <==> r.contains(other)) by {
            if watched.contains(other) {
                let k = watched.index_of(other);
                assert(k != at);
                let m = if k < at {
                    k
                } else {
                    k - 1
                };
                assert(r[m] == other);
            }
            if r.contains(other) {
                let k = r.index_of(other);
                assert(watched[if k < at {
                    k
                } else {
                    k + 1
                }] == other);
            }
        }
    }
}

/// Tells whether `s` starts with `prefix`.
pub fn starts_with(s: &str, prefix: &str) -> (b: bool)
    ensures
        b == prefix@.is_prefix_of(s@),
{
    let n = s.unicode_len();
    let p = prefix.unicode_len();
    if p > n {
        false
    } else {
        same_text(s.substring_char(0, p), prefix)
    }
}

/// The path of the device node of a device: its kernel name under
/// `/dev/input/`.
pub fn device_node(sysname: &str) -> (path: String)
    ensures
        path@ == "/dev/input/"@ + sysname@,
{
    "/dev/input/".to_owned().concat(sysname)
}

impl DeviceInfo {
    /// The name under which the device is watched, if it qualifies.
    pub open spec fn joystick_name(&self) -> Option<Seq<char>> {
        qualifying_name(
            match self.sysname {
                Some(s) => Some(s@),
                None => None,
            },
            self.joystick_property is Some,
        )
    }

    /// The name under which the device is watched, if it qualifies: it
    /// carries the joystick property, whatever its value, and its kernel
    /// name starts with `event`.
    pub fn joystick_sysname(&self) -> (name: Option<String>)
        ensures
            match self.joystick_name() {
                Some(id) => name matches Some(n) && n@ == id,
                None => name is None,
            },
    {
        if self.joystick_property.is_some() {
            match &self.sysname {
                Some(sysname) => {
                    if starts_with(sysname.as_str(), "event") {
                        Some(sysname.clone())
                    } else {
                        None
                    }
                },
                None => None,
            }
        } else {
            None
        }
    }
}

/// Decides what a watcher does after a read.
pub fn watch_step(outcome: ReadOutcome) -> (step: WatchStep)
    ensures
        step == step_of(outcome),
{
    match outcome {
        ReadOutcome::Input(kind) => match kind {
            InputKind::Key => WatchStep::Activity,
            InputKind::AbsAxis => WatchStep::Ignore,
            InputKind::Synchronization => WatchStep::Ignore,
            InputKind::Other => WatchStep::Ignore,
        },
        ReadOutcome::Failed => WatchStep::Stop,
        ReadOutcome::Cancelled => WatchStep::Stop,
    }
}

/// The event by which a watcher reports activity of the device
/// `device_id`.
pub fn activity_event(device_id: &str) -> (event: Event)
    ensures
        event matches Event::DeviceActivity(id) && id@ == device_id@,
{
    Event::DeviceActivity(device_id.to_owned())
}

/// The event that a watcher of the device `device_id` sends after a read,
/// or after the attempt to open the device: activity for a key event, the
/// removal of the device for a failure, which in this way is forgotten and
/// can be added again, and nothing otherwise.
pub fn watch_event(outcome: ReadOutcome, device_id: &str) -> (event: Option<Event>)
    ensures
        match outcome {
            ReadOutcome::Input(InputKind::Key) => event matches Some(Event::DeviceActivity(id))
                && id@ == device_id@,
            ReadOutcome::Failed => event matches Some(Event::DeviceRemoved(id)) && id@
                == device_id@,
            _ => event is None,
        },
{
    match outcome {
        ReadOutcome::Input(kind) => match kind {
            InputKind::Key => Some(activity_event(device_id)),
            _ => None,
        },
        ReadOutcome::Failed => Some(Event::DeviceRemoved(device_id.to_owned())),
        ReadOutcome::Cancelled => None,
    }
}

/// Turns a hotplug event into the event that the router is sent: the
/// arrival or departure of a qualifying device, and nothing for a device
/// that does not qualify or for an event of another kind.
pub fn hotplug_event(kind: HotplugKind, device: &DeviceInfo) -> (event: Option<Event>)
    ensures
        match device.joystick_name() {
            Some(id) => match kind {
                HotplugKind::Add => event matches Some(Event::DeviceAdded(n)) && n@ == id,
                HotplugKind::Remove => event matches Some(Event::DeviceRemoved(n)) && n@ == id,
                HotplugKind::Other => event is None,
            },
            None => event is None,
        },
{
    match device.joystick_sysname() {
        Some(id) => match kind {
            HotplugKind::Add => Some(Event::DeviceAdded(id)),
            HotplugKind::Remove => Some(Event::DeviceRemoved(id)),
            HotplugKind::Other => None,
        },
        None => None,
    }
}

impl DeviceSupervisor {
    /// The names of the watched devices, oldest first.
    pub closed spec fn watched(&self) -> Seq<Seq<char>> {
        self.watched@.map_values(|name: String| name@)
    }

    /// The supervisor's invariant: no device is watched twice.
    pub open spec fn wf(&self) -> bool {
        self.watched().no_duplicates()
    }

    /// A supervisor that tracks nothing.
    pub fn new() -> (s: Self)
        ensures
            s.wf(),
            s.watched() == Seq::<Seq<char>>::empty(),
    {
        let s = DeviceSupervisor { watched: Vec::new() };
        assert(s.watched() =~= Seq::<Seq<char>>::empty());
        s
    }

    /// The number of watched devices.
    pub fn len(&self) -> (n: usize)
        ensures
            n == self.watched().len(),
    {
        self.watched.len()
    }

    fn position(&self, device_id: &str) -> (at: Option<usize>)
        requires
            self.wf(),
        ensures
            at is Some <==> self.watched().contains(device_id@),
            at matches Some(i) ==> i < self.watched().len() && i == self.watched().index_of(
                device_id@,
            ),
    {
        let wanted = device_id.to_owned();
        let mut i: usize = 0;
        while i < self.watched.len()
            invariant
                i <= self.watched.len(),
                wanted@ == device_id@,
                self.wf(),
                self.watched().len() == self.watched@.len(),
                forall|j: int| 0 <= j < i ==> (#[trigger] self.watched()[j]) != device_id@,
            decreases self.watched.len() - i,
        {
            assert(self.watched()[i as int] == self.watched@[i as int]@);
            if self.watched[i] == wanted {
                proof {
                    let all = self.watched();
                    assert(all[i as int] == device_id@);
                    assert(all.contains(device_id@));
                    let k = all.index_of(device_id@);
                    assert(0 <= k < all.len() && all[k] == device_id@);
                    assert(k == i);
                }
                return Some(i);
            }
            i = i + 1;
        }
        None
    }

    /// Tells whether the device `device_id` has a watcher.
    pub fn is_watched(&self, device_id: &str) -> (watched: bool)
        requires
            self.wf(),
        ensures
            watched == self.watched().contains(device_id@),
    {
        self.position(device_id).is_some()
    }

    /// A device appeared. Where it has no watcher yet, one is to be started
    /// and the device is watched from now on; a device that is watched
    /// already is passed over, and its watcher stays.
    pub fn on_added(&mut self, device_id: String) -> (action: SupervisorAction)
        requires
            old(self).wf(),
        ensures
            final(self).wf(),
            final(self).watched() == added(old(self).watched(), device_id@),
            old(self).watched().contains(device_id@) ==> action == SupervisorAction::Nothing,
            !old(self).watched().contains(device_id@) ==> (action matches SupervisorAction::Spawn(
                id,
            ) && id@ == device_id@),
    {
        proof {
            lemma_added(self.watched(), device_id@);
        }
        if self.position(device_id.as_str()).is_some() {
            SupervisorAction::Nothing
        } else {
            let ghost before = self.watched();
            let name = device_id.clone();
            self.watched.push(device_id);
            assert(self.watched() =~= before.push(device_id@));
            SupervisorAction::Spawn(name)
        }
    }

    /// A device went away. Where it has a watcher, that watcher is to be
    /// cancelled and the device is watched no longer; otherwise nothing
    /// happens.
    pub fn on_removed(&mut self, device_id: &str) -> (action: SupervisorAction)
        requires
            old(self).wf(),
        ensures
            final(self).wf(),
            final(self).watched() == removed(old(self).watched(), device_id@),
            !final(self).watched().contains(device_id@),
            old(self).watched().contains(device_id@) ==> (action matches SupervisorAction::Cancel(
                id,
            ) && id@ == device_id@),
            !old(self).watched().contains(device_id@) ==> action == SupervisorAction::Nothing,
    {
        proof {
            lemma_removed(self.watched(), device_id@);
        }
        match self.position(device_id) {
            Some(i) => {
                let ghost before = self.watched();
                let name = self.watched.remove(i);
                assert(self.watched() =~= before.remove(i as int));
                SupervisorAction::Cancel(name)
            },
            None => SupervisorAction::Nothing,
        }
    }

    /// Handles one hotplug event: a device that does not qualify is passed
    /// over; a qualifying one is added or removed by the event's kind.
    pub fn on_hotplug(&mut self, kind: HotplugKind, device: &DeviceInfo) -> (action:
        SupervisorAction)
        requires
            old(self).wf(),
        ensures
            final(self).wf(),
            match device.joystick_name() {
                Some(id) => match kind {
                    HotplugKind::Add => {
                        &&& final(self).watched() == added(old(self).watched(), id)
                        &&& old(self).watched().contains(id) ==> action == SupervisorAction::Nothing
                        &&& !old(self).watched().contains(id) ==> (action matches SupervisorAction::Spawn(
                            n,
                        ) && n@ == id)
                    },
                    HotplugKind::Remove => {
                        &&& final(self).watched() == removed(old(self).watched(), id)
                        &&& old(self).watched().contains(id) ==> (action matches SupervisorAction::Cancel(
                            n,
                        ) && n@ == id)
                        &&& !old(self).watched().contains(id) ==> action
                            == SupervisorAction::Nothing
                    },
                    HotplugKind::Other => final(self).watched() == old(self).watched() && action
                        == SupervisorAction::Nothing,
                },
                None => final(self).watched() == old(self).watched() && action
                    == SupervisorAction::Nothing,
            },
    {
        match device.joystick_sysname() {
            Some(id) => match kind {
                HotplugKind::Add => self.on_added(id),
                HotplugKind::Remove => self.on_removed(id.as_str()),
                HotplugKind::Other => SupervisorAction::Nothing,
            },
            None => SupervisorAction::Nothing,
        }
    }
}

} // verus!
