//! A fixed table of joystick slots: up to five opened joystick devices,
//! each in a slot of its own, and the pause switch of their idle timer.

use crate::command::{base_name, executable_name};
use crate::types::same_text;
use vstd::prelude::*;
use vstd::string::*;

verus! {

/// The number of joysticks that can be open at a time.
pub const JOYSTICKS_MAX: usize = 5;

/// The first slot that a joystick can take; those before it are reserved.
pub const JOYSTICKS_FD_START: usize = 3;

/// The number of slots in the table.
pub const FDS_MAX: usize = 8;

/// The idle timeout, in seconds, with which a table starts.
pub const IDLE_TIMEOUT_SECONDS: u64 = 30;

/// The device to open, and the slot that its descriptor is to take.
#[derive(Debug, Clone, PartialEq, Eq)]
pub struct OpenRequest {
    pub slot: usize,
    pub path: String,
}

/// The two signals that switch the idle timer.
#[derive(Debug, Clone, Copy, PartialEq, Eq, Structural)]
pub enum Switch {
    /// The first user-defined signal: pause.
    Pause,
    /// The second user-defined signal: resume.
    Resume,
}

/// The slots, a descriptor or -1 in each, and the pause switch.
#[derive(Debug)]
pub struct JoystickSlots {
    paused: bool,
    timeout_sec: u64,
    fds: Vec<i32>,
}

/// Whether a device qualifies: its system path ends with `/event`, and its
/// joystick property, where it has one, is `1`.
pub open spec fn qualifies(syspath: Seq<char>, property: Option<Seq<char>>) -> bool {
    "/event"@.is_suffix_of(syspath) && match property {
        Some(value) => value == "1"@,
        None => true,
    }
}

/// The path under which a qualifying device is opened: `/dev/input`
/// followed at once by the last component of its system path.
pub open spec fn input_path(syspath: Seq<char>) -> Seq<char> {
    "/dev/input"@ + base_name(syspath)
}

/// Whether slot `slot` of `fds` can take a joystick: it is one of the
/// joystick slots and holds no descriptor.
pub open spec fn is_free(fds: Seq<i32>, slot: int) -> bool {
    JOYSTICKS_FD_START <= slot < FDS_MAX && slot < fds.len() && fds[slot] < 0
}

/// The first free joystick slot of `fds` from `from` on.
pub open spec fn first_free_from(fds: Seq<i32>, from: int) -> Option<int>
    decreases FDS_MAX - from,
{
    if from >= FDS_MAX || from < 0 {
        None
    } else if is_free(fds, from) {
        Some(from)
    } else {
        first_free_from(fds, from + 1)
    }
}

/// The first free joystick slot of `fds`.
pub open spec fn first_free(fds: Seq<i32>) -> Option<int> {
    first_free_from(fds, JOYSTICKS_FD_START as int)
}

/// The first free slot is free and no slot before it is.
pub proof fn lemma_first_free(fds: Seq<i32>, from: int)
    requires
        0 <= from,
    ensures
        match first_free_from(fds, from) {
            Some(slot) => from <= slot && is_free(fds, slot) && forall|other: int|
                from <= other < slot ==> !is_free(fds, other),
            None => forall|other: int| from <= other ==> !is_free(fds, other),
        },
    decreases FDS_MAX - from,
{
    if from < FDS_MAX && !is_free(fds, from) {
        lemma_first_free(fds, from + 1);
    }
}

/// Tells whether `s` ends with `suffix`.
pub fn ends_with(s: &str, suffix: &str) -> (b: bool)
    ensures
        b == suffix@.is_suffix_of(s@),
{
    let n = s.unicode_len();
    let k = suffix.unicode_len();
    if k > n {
        false
    } else {
        same_text(s.substring_char(n - k, n), suffix)
    }
}

impl JoystickSlots {
    /// The descriptors in the slots; -1 marks an empty slot.
    pub closed spec fn fds(&self) -> Seq<i32> {
        self.fds@
    }

    /// Whether the idle timer is paused.
    pub closed spec fn paused(&self) -> bool {
        self.paused
    }

    /// The idle timeout, in seconds.
    pub closed spec fn timeout(&self) -> u64 {
        self.timeout_sec
    }

    /// The table's invariant: it has all its slots.
    pub open spec fn wf(&self) -> bool {
        self.fds().len() == FDS_MAX
    }

    /// A table with every slot empty, the timer running and the default
    /// timeout.
    pub fn new() -> (slots: Self)
        ensures
            slots.wf(),
            forall|i: int| 0 <= i < FDS_MAX ==> slots.fds()[i] == -1,
            !slots.paused(),
            slots.timeout() == IDLE_TIMEOUT_SECONDS,
    {
        let mut fds: Vec<i32> = Vec::new();
        let mut i: usize = 0;
        while i < FDS_MAX
            invariant
                i <= FDS_MAX,
                fds@.len() == i,
                forall|j: int| 0 <= j < i ==> fds@[j] == -1,
            decreases FDS_MAX - i,
        {
            fds.push(-1);
            i = i + 1;
        }
        JoystickSlots { paused: false, timeout_sec: IDLE_TIMEOUT_SECONDS, fds }
    }

    /// Whether the idle timer is paused.
    pub fn is_paused(&self) -> (paused: bool)
        ensures
            paused == self.paused(),
    {
        self.paused
    }

    /// The idle timeout, in seconds.
    pub fn timeout_sec(&self) -> (seconds: u64)
        ensures
            seconds == self.timeout(),
    {
        self.timeout_sec
    }

    /// The descriptor in slot `slot`; -1 for an empty slot.
    pub fn fd(&self, slot: usize) -> (fd: i32)
        requires
            self.wf(),
            slot < FDS_MAX,
        ensures
            fd == self.fds()[slot as int],
    {
        self.fds[slot]
    }

    /// The first free joystick slot.
    pub fn free_slot(&self) -> (slot: Option<usize>)
        requires
            self.wf(),
        ensures
            match slot {
                Some(s) => first_free(self.fds()) == Some(s as int),
                None => first_free(self.fds()) is None,
            },
    {
        let mut f: usize = JOYSTICKS_FD_START;
        while f < FDS_MAX
            invariant
                JOYSTICKS_FD_START <= f <= FDS_MAX,
                self.wf(),
                first_free(self.fds()) == first_free_from(self.fds(), f as int),
            decreases FDS_MAX - f,
        {
            if self.fds[f] < 0 {
                return Some(f);
            }
            f = f + 1;
        }
        None
    }

    /// Decides what to do about a device that appeared: where it qualifies
    /// and a joystick slot is free, the device is to be opened for the
    /// first free slot; otherwise nothing is to be done.
    pub fn add_device(&self, syspath: &str, property: Option<&str>) -> (request: Option<
        OpenRequest,
    >)
        requires
            self.wf(),
        ensures
            request is Some <==> qualifies(
                syspath@,
                match property {
                    Some(value) => Some(value@),
                    None => None,
                },
            ) && first_free(self.fds()) is Some,
            request matches Some(r) ==> Some(r.slot as int) == first_free(self.fds()) && r.path@
                == input_path(syspath@),
    {
        if !ends_with(syspath, "/event") {
            return None;
        }
        match property {
            Some(value) => {
                if !same_text(value, "1") {
                    return None;
                }
            },
            None => {},
        }
        match self.free_slot() {
            Some(slot) => {
                let name = executable_name(syspath);
                let path = "/dev/input".to_owned().concat(name.as_str());
                Some(OpenRequest { slot, path })
            },
            None => None,
        }
    }

    /// Records the descriptor of a device that was opened for slot `slot`.
    /// It is taken in, and `true` is the answer, when the slot is a free
    /// joystick slot and the descriptor is not negative; otherwise the
    /// table stays as it was.
    pub fn opened(&mut self, slot: usize, fd: i32) -> (stored: bool)
        requires
            old(self).wf(),
        ensures
            final(self).wf(),
            stored == (is_free(old(self).fds(), slot as int) && fd >= 0),
            stored ==> final(self).fds() == old(self).fds().update(slot as int, fd),
            !stored ==> final(self).fds() == old(self).fds(),
            final(self).paused() == old(self).paused(),
            final(self).timeout() == old(self).timeout(),
    {
        if JOYSTICKS_FD_START <= slot && slot < FDS_MAX && fd >= 0 && self.fds[slot] < 0 {
            self.fds.set(slot, fd);
            true
        } else {
            false
        }
    }

    /// Handles one of the two signals: the first pauses the idle timer, the
    /// second lets it run again.
    pub fn on_signal(&mut self, switch: Switch)
        ensures
            final(self).paused() == (switch == Switch::Pause),
            final(self).fds() == old(self).fds(),
            final(self).timeout() == old(self).timeout(),
    {
        self.paused = match switch {
            Switch::Pause => true,
            Switch::Resume => false,
        };
    }

    /// Whether the idle timer, when it fires, is acted on: it is unless the
    /// timer is paused.
    pub fn timer_acts(&self) -> (acts: bool)
        ensures
            acts == !self.paused(),
    {
        !self.paused
    }
}

} // verus!
