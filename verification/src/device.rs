//! The device: the state machine coupled to the hardware timer and the
//! attribute state. This is where the race of the `Advertising` phase
//! becomes an explicit select: each poll looks at both racing operations
//! and, the moment one resolves, synchronously releases the loser's
//! resource before the winner's continuation runs.
//!
//! The coupling invariant ties the machine's bookkeeping to the hardware:
//! the alarm channel is armed exactly while the machine holds the race's
//! deadline, so the device never holds more than one armed alarm and
//! none survives outside the `Advertising` phase.

use vstd::prelude::*;
use crate::dispatch::AttributeEvent;
use crate::dispatch::AttributeState;
use crate::dispatch::notifications_of;
use crate::dispatch::state_after;
use crate::machine::Machine;
use crate::machine::MachineEvent;
use crate::machine::RadioAction;
use crate::machine::machine_inv;
use crate::machine::spec_step;
use crate::timer::TimerDriver;
use crate::timer::deadline_reached;
use crate::timer::tick_add;

verus! {

/// Whether the timer's armed deadline, if any, has been reached.
pub open spec fn alarm_due_spec(t: TimerDriver) -> bool {
    t.spec_armed() matches Some(d) && deadline_reached(t.spec_now(), d)
}

/// The device: one hardware timer, the advertise/connect/timeout machine,
/// and the one attribute exposed to peers. The configured deadline is the
/// duration of each connectable advertising attempt, in ticks.
pub struct Device {
    /// The hardware timer and its single alarm channel.
    pub timer: TimerDriver,
    /// The advertise/connect/timeout state machine.
    pub machine: Machine,
    /// The attribute served to the connected peer.
    pub attr: AttributeState,
    /// Ticks allowed for a connection before the race falls to the burst.
    pub deadline_delta: u64,
}

/// Coupling invariant: the machine is well formed and the hardware alarm
/// is armed exactly while the machine holds the race's deadline.
pub open spec fn device_inv(d: Device) -> bool {
    &&& machine_inv(d.machine)
    &&& d.machine.timer_armed == (d.timer.spec_armed() is Some)
}

/// How many hardware alarms the device holds armed.
pub open spec fn device_armed_alarms(d: Device) -> nat {
    d.timer.armed_count()
}

impl Device {
    /// A fresh device: machine idle, alarm clear, the attribute at the
    /// given initial value, the race deadline configured.
    pub fn new(initial_value: u16, deadline_delta: u64) -> (r: Device)
        ensures
            device_inv(r),
            r.machine.phase is Idle,
            device_armed_alarms(r) == 0,
            r.attr.value == initial_value,
            !r.attr.notify_enabled,
            r.deadline_delta == deadline_delta,
    {
        Device {
            timer: TimerDriver::new(),
            machine: Machine::new(),
            attr: AttributeState::new(initial_value),
            deadline_delta,
        }
    }

    /// Steps the machine with an event that re-enters `Advertising`, and
    /// arms the race's deadline one configured duration from now.
    fn enter_advertising(&mut self, e: MachineEvent) -> (a: RadioAction)
        requires
            machine_inv(old(self).machine),
            crate::machine::admits(old(self).machine.phase, e),
            !(e is ConnectionAccepted),
            !(e is DeadlineElapsed),
        ensures
            device_inv(*final(self)),
            final(self).machine == spec_step(old(self).machine, e),
            final(self).machine.phase is Advertising,
            a == RadioAction::StartAdvertising,
            final(self).timer.spec_armed() == Some(
                tick_add(old(self).timer.spec_now(), old(self).deadline_delta),
            ),
            final(self).timer.spec_now() == old(self).timer.spec_now(),
            final(self).attr == old(self).attr,
            final(self).deadline_delta == old(self).deadline_delta,
    {
        let a = self.machine.step(e);
        let now = self.timer.now();
        let deadline = crate::timer::deadline_after(now, self.deadline_delta);
        self.timer.arm(deadline);
        a
    }

    /// Startup: the task begins, starts the first connectable advertising
    /// attempt and arms its deadline.
    pub fn start(&mut self) -> (a: RadioAction)
        requires
            device_inv(*old(self)),
            old(self).machine.phase is Idle,
        ensures
            device_inv(*final(self)),
            final(self).machine.phase is Advertising,
            a == RadioAction::StartAdvertising,
            final(self).timer.spec_armed() == Some(
                tick_add(old(self).timer.spec_now(), old(self).deadline_delta),
            ),
            final(self).attr == old(self).attr,
            final(self).deadline_delta == old(self).deadline_delta,
    {
        self.enter_advertising(MachineEvent::Started)
    }

    /// Hardware time passes; nothing else moves.
    pub fn advance_time(&mut self, delta: u64)
        requires
            device_inv(*old(self)),
        ensures
            device_inv(*final(self)),
            final(self).timer.spec_now() == tick_add(old(self).timer.spec_now(), delta),
            final(self).timer.spec_armed() == old(self).timer.spec_armed(),
            final(self).machine == old(self).machine,
            final(self).attr == old(self).attr,
            final(self).deadline_delta == old(self).deadline_delta,
    {
        self.timer.advance(delta);
    }

    /// One pass of the race: polls "connection accepted" against "deadline
    /// elapsed" and resolves the first to complete, ties to the
    /// connection. The loser's resource is released synchronously: the
    /// alarm is disarmed before the dispatch loop would run, and the
    /// fired alarm is cleared before the burst starts. With neither
    /// operation resolved the device is unchanged and stays suspended.
    pub fn poll_advertising(&mut self, conn_ready: bool) -> (r: Option<RadioAction>)
        requires
            device_inv(*old(self)),
            old(self).machine.phase is Advertising,
        ensures
            device_inv(*final(self)),
            final(self).timer.spec_now() == old(self).timer.spec_now(),
            final(self).attr == old(self).attr,
            final(self).deadline_delta == old(self).deadline_delta,
            conn_ready ==> r == Some(RadioAction::RunDispatch) && final(self).machine == spec_step(
                old(self).machine,
                MachineEvent::ConnectionAccepted,
            ) && final(self).timer.spec_armed() is None,
            !conn_ready && alarm_due_spec(old(self).timer) ==> r == Some(RadioAction::StartBurst)
                && final(self).machine == spec_step(
                old(self).machine,
                MachineEvent::DeadlineElapsed,
            ) && final(self).timer.spec_armed() is None,
            !conn_ready && !alarm_due_spec(old(self).timer) ==> r is None && final(self).machine
                == old(self).machine && final(self).timer.spec_armed() == old(
                self,
            ).timer.spec_armed(),
    {
        if conn_ready {
            // The connection wins (ties included): abandon the timer wait
            // by disarming its alarm before the winner's continuation.
            self.timer.disarm();
            let a = self.machine.step(MachineEvent::ConnectionAccepted);
            Some(a)
        } else {
            let fired = self.timer.fire_if_due();
            if fired {
                // The timer wins: the advertisement is stopped by the
                // machine's transition before the burst starts.
                let a = self.machine.step(MachineEvent::DeadlineElapsed);
                Some(a)
            } else {
                None
            }
        }
    }

    /// The connectable advertisement itself failed: a transient radio
    /// error. The attempt is abandoned for this cycle and advertising is
    /// retried from the top; the device never halts.
    pub fn advertise_failed(&mut self) -> (a: RadioAction)
        requires
            device_inv(*old(self)),
            old(self).machine.phase is Advertising,
        ensures
            device_inv(*final(self)),
            final(self).machine.phase is Advertising,
            a == RadioAction::StartAdvertising,
            final(self).timer.spec_armed() == Some(
                tick_add(old(self).timer.spec_now(), old(self).deadline_delta),
            ),
            final(self).attr == old(self).attr,
            final(self).deadline_delta == old(self).deadline_delta,
    {
        self.enter_advertising(MachineEvent::AdvertiseFailed)
    }

    /// Serves the accepted connection: runs the attribute dispatch loop
    /// over the connection's finite event stream, and when the link
    /// closes — the stream ends — resumes advertising with a fresh
    /// deadline. Returns every notification delivered to the peer, in
    /// order.
    pub fn serve_connection(&mut self, events: &Vec<AttributeEvent>) -> (delivered: Vec<u16>)
        requires
            device_inv(*old(self)),
            old(self).machine.phase is Connected,
        ensures
            device_inv(*final(self)),
            delivered@ == notifications_of(old(self).attr, events@),
            final(self).attr == state_after(old(self).attr, events@),
            final(self).machine.phase is Advertising,
            final(self).timer.spec_armed() == Some(
                tick_add(old(self).timer.spec_now(), old(self).deadline_delta),
            ),
            final(self).timer.spec_now() == old(self).timer.spec_now(),
            final(self).deadline_delta == old(self).deadline_delta,
    {
        let delivered = self.attr.run_session(events);
        self.enter_advertising(MachineEvent::SessionEnded);
        delivered
    }

    /// The burst broadcast ended, by reaching its capped event count or by
    /// a transient radio error; either way standard advertising resumes.
    pub fn finish_burst(&mut self, completed: bool) -> (a: RadioAction)
        requires
            device_inv(*old(self)),
            old(self).machine.phase is BurstBroadcasting,
        ensures
            device_inv(*final(self)),
            final(self).machine.phase is Advertising,
            a == RadioAction::StartAdvertising,
            final(self).timer.spec_armed() == Some(
                tick_add(old(self).timer.spec_now(), old(self).deadline_delta),
            ),
            final(self).attr == old(self).attr,
            final(self).deadline_delta == old(self).deadline_delta,
    {
        if completed {
            self.enter_advertising(MachineEvent::BurstCompleted)
        } else {
            self.enter_advertising(MachineEvent::BurstFailed)
        }
    }
}

/// The coupling invariant keeps the hardware honest: a device satisfying
/// it holds at most one armed alarm, and outside the `Advertising` race it
/// holds none — no alarm is ever orphaned by a finished cycle.
pub proof fn lemma_device_alarm_bound(d: Device)
    requires
        device_inv(d),
    ensures
        device_armed_alarms(d) <= 1,
        !(d.machine.phase is Advertising) ==> device_armed_alarms(d) == 0,
{
}

} // verus!
