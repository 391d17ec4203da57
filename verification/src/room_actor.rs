use vstd::prelude::*;

verus! {

use crate::room_command::Method;
use crate::room_command::RoomCommand;

/// Lifecycle of a room actor: commands are processed only while `Active`;
/// once `Closing` is reached the room is torn down and never re-enters
/// `Active`.
#[derive(Clone, Copy, Debug, PartialEq, Eq, Structural)]
pub enum RoomPhase {
    Active,
    Closing,
}

/// What the actor asks its surroundings to do with one processed command.
#[derive(Clone, Copy, Debug, PartialEq, Eq, Structural)]
pub enum CommandStep {
    /// Echo the command to every current broadcast subscriber; when
    /// `persist` holds, also hand it to the message-persistence sink.
    Deliver { persist: bool },
    /// Stop draining commands and tear the room down.
    Shutdown,
}

/// What the actor asks the timer activity to do.
#[derive(Clone, Copy, Debug, PartialEq, Eq, Structural)]
pub enum TimerVerdict {
    /// The idle deadline has been reached with no traffic: tear down.
    CloseNow,
    /// Traffic pushed the deadline out; sleep until the carried instant
    /// and check again.
    SleepUntil(u64),
}

/// The per-room state machine owning command ordering and idle timeout.
/// Time is a tick count handed in by the caller at every step.
#[derive(Clone, Copy, Debug)]
pub struct RoomActor {
    /// The inactivity window: the room closes after this long without any
    /// command.
    pub idle: u64,
    /// The instant at which the room is deemed idle, pushed out by every
    /// command.
    pub deadline: u64,
    pub phase: RoomPhase,
}

impl RoomActor {
    /// A freshly opened room: active, with a full idle window ahead of it.
    pub fn new(idle: u64, now: u64) -> (r: RoomActor)
        requires
            now + idle <= u64::MAX,
        ensures
            r.idle == idle,
            r.deadline == now + idle,
            r.phase == RoomPhase::Active,
    {
        RoomActor { idle, deadline: now + idle, phase: RoomPhase::Active }
    }

    /// Process one command drained from the command channel at time `now`.
    ///
    /// Every command, whatever its kind, re-arms the idle deadline to
    /// `now + idle`. `Close` shuts the room down; `Send` is delivered to
    /// all subscribers and persisted; `Join` and `Leave` are delivered
    /// only.
    pub fn on_command(&mut self, cmd: &RoomCommand, now: u64) -> (r: CommandStep)
        requires
            old(self).phase == RoomPhase::Active,
            now + old(self).idle <= u64::MAX,
        ensures
            final(self).idle == old(self).idle,
            final(self).deadline == now + old(self).idle,
            cmd.method == Method::Close ==> r == CommandStep::Shutdown && final(self).phase
                == RoomPhase::Closing,
            cmd.method == Method::Send ==> (r == (CommandStep::Deliver { persist: true })
                && final(self).phase == RoomPhase::Active),
            cmd.method == Method::Join || cmd.method == Method::Leave ==> (r == (
            CommandStep::Deliver { persist: false }) && final(self).phase == RoomPhase::Active),
    {
        self.deadline = now + self.idle;
        match cmd.method {
            Method::Close => {
                self.phase = RoomPhase::Closing;
                CommandStep::Shutdown
            },
            Method::Send => CommandStep::Deliver { persist: true },
            Method::Join => CommandStep::Deliver { persist: false },
            Method::Leave => CommandStep::Deliver { persist: false },
        }
    }

    /// The timer activity wakes at time `now` and asks whether the room
    /// has been idle for a whole window. If the deadline has been reached
    /// the room closes; otherwise the deadline was pushed out meanwhile
    /// and the timer sleeps until it.
    pub fn on_timer(&mut self, now: u64) -> (r: TimerVerdict)
        requires
            old(self).phase == RoomPhase::Active,
        ensures
            final(self).idle == old(self).idle,
            final(self).deadline == old(self).deadline,
            now >= old(self).deadline ==> r == TimerVerdict::CloseNow && final(self).phase
                == RoomPhase::Closing,
            now < old(self).deadline ==> r == TimerVerdict::SleepUntil(old(self).deadline)
                && *final(self) == *old(self),
    {
        if now >= self.deadline {
            self.phase = RoomPhase::Closing;
            TimerVerdict::CloseNow
        } else {
            TimerVerdict::SleepUntil(self.deadline)
        }
    }
}

/// Steady traffic defeats the idle timer. `times` lists the arrival
/// instants of successive commands at one room opened at `start`: the
/// first within half an idle window of the opening, each later one within
/// half a window of its predecessor. Then command `k` arrives strictly
/// before the deadline in force when it arrives (`on_command`'s ensures
/// re-arm the deadline to arrival time plus `idle`), so the room is still
/// `Active`; and a timer check at any instant `t` between command `k` and
/// its predecessor (or the opening) lies strictly before that deadline,
/// so `on_timer`'s ensures make it answer `SleepUntil`, never `CloseNow`:
/// however long `times` is, the room never times out.
pub proof fn lemma_steady_traffic_never_idle(
    start: u64,
    times: Seq<u64>,
    idle: u64,
    k: int,
    t: u64,
)
    requires
        idle >= 1,
        0 <= k < times.len(),
        start <= times[0] <= start + idle / 2,
        forall|j: int| 0 <= j < times.len() - 1 ==> #[trigger] times[j] <= times[j + 1],
        forall|j: int|
            0 <= j < times.len() - 1 ==> #[trigger] times[j + 1] <= times[j] + idle / 2,
        if k == 0 {
            start <= t <= times[0]
        } else {
            times[k - 1] <= t <= times[k]
        },
    ensures
        k == 0 ==> times[0] < start + idle && t < start + idle,
        k >= 1 ==> times[k] < times[k - 1] + idle && t < times[k - 1] + idle,
{
    assert(idle / 2 < idle);
    if k >= 1 {
        assert(times[(k - 1) + 1] <= times[k - 1] + idle / 2);
    }
}

} // verus!
