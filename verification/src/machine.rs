//! The advertise/connect/timeout state machine: the primary task of the
//! device. It cycles `Idle -> Advertising -> {Connected | BurstBroadcasting}
//! -> Advertising -> ...` forever.
//!
//! While `Advertising`, two suspending operations race: "connection
//! accepted" against "deadline elapsed". Exactly one wins; the loser's
//! resource is released synchronously before the winner's continuation runs
//! (the deadline alarm is disarmed when a connection wins, advertising is
//! stopped when the timer wins). Ties go to the connection, favouring the
//! primary service over the fallback burst.
//!
//! Transient radio errors never halt the device: a failed connectable or
//! burst advertisement falls through to `Advertising` again.

use vstd::prelude::*;

verus! {

/// The phase of the state machine.
#[derive(Clone, Copy, PartialEq, Eq, Structural, Debug)]
pub enum Phase {
    /// Before the task has started; entered exactly once.
    Idle,
    /// A connectable advertisement is out and the deadline alarm is armed.
    Advertising,
    /// A peer is connected; the attribute dispatch loop owns the link.
    Connected,
    /// The fallback burst broadcast is out; it self-terminates.
    BurstBroadcasting,
}

/// An event that resolves the machine's current suspension.
#[derive(Clone, Copy, PartialEq, Eq, Structural, Debug)]
pub enum MachineEvent {
    /// Startup: the scheduler first runs the task.
    Started,
    /// The race resolved in favour of an accepted connection.
    ConnectionAccepted,
    /// The race resolved in favour of the expired deadline.
    DeadlineElapsed,
    /// The connectable advertisement itself failed (transient radio error).
    AdvertiseFailed,
    /// The peer disconnected or the protocol layer reported an error.
    SessionEnded,
    /// The burst broadcast reached its capped event count.
    BurstCompleted,
    /// The burst broadcast failed (transient radio error).
    BurstFailed,
}

/// What the machine asks its environment to do after a transition.
#[derive(Clone, Copy, PartialEq, Eq, Structural, Debug)]
pub enum RadioAction {
    /// Start a connectable/scannable advertisement and arm the deadline
    /// alarm for the race.
    StartAdvertising,
    /// Run the attribute dispatch loop on the accepted connection.
    RunDispatch,
    /// Start the one capped, non-connectable burst broadcast.
    StartBurst,
}

/// The winner of the race between the two suspending operations.
#[derive(Clone, Copy, PartialEq, Eq, Structural, Debug)]
pub enum RaceWinner {
    /// "Connection accepted" resolved first (or tied).
    Connection,
    /// "Deadline elapsed" resolved first.
    Timer,
}

/// The state machine together with the resources its phases hold. The
/// flags track what is outstanding in the environment: the armed deadline
/// alarm, the connectable advertisement, the burst broadcast, and the live
/// connection.
#[derive(Clone, Copy, PartialEq, Eq, Structural, Debug)]
pub struct Machine {
    /// Current phase.
    pub phase: Phase,
    /// Whether the deadline alarm of the race is armed.
    pub timer_armed: bool,
    /// Whether a connectable advertisement is outstanding.
    pub advertising: bool,
    /// Whether the burst broadcast is outstanding.
    pub burst_active: bool,
    /// Whether a connection to a peer is live.
    pub connection_live: bool,
}

/// Which events a phase can see: each phase suspends on exactly these.
pub open spec fn admits(phase: Phase, e: MachineEvent) -> bool {
    match phase {
        Phase::Idle => e is Started,
        Phase::Advertising => e is ConnectionAccepted || e is DeadlineElapsed
            || e is AdvertiseFailed,
        Phase::Connected => e is SessionEnded,
        Phase::BurstBroadcasting => e is BurstCompleted || e is BurstFailed,
    }
}

/// A machine entering `Advertising`: the advertisement is out and the
/// deadline alarm is armed; nothing else is held.
pub open spec fn advertising_state() -> Machine {
    Machine {
        phase: Phase::Advertising,
        timer_armed: true,
        advertising: true,
        burst_active: false,
        connection_live: false,
    }
}

/// The machine after one admitted event.
pub open spec fn spec_step(m: Machine, e: MachineEvent) -> Machine {
    match e {
        // Startup, a finished session, a finished or failed burst, and a
        // failed advertisement all (re-)enter `Advertising`.
        MachineEvent::Started => advertising_state(),
        MachineEvent::SessionEnded => advertising_state(),
        MachineEvent::BurstCompleted => advertising_state(),
        MachineEvent::BurstFailed => advertising_state(),
        MachineEvent::AdvertiseFailed => advertising_state(),
        // The connection won the race: the alarm is disarmed and the
        // advertisement resolved before the dispatch loop runs.
        MachineEvent::ConnectionAccepted => Machine {
            phase: Phase::Connected,
            timer_armed: false,
            advertising: false,
            burst_active: false,
            connection_live: true,
        },
        // The timer won the race: the alarm fired and advertising is
        // stopped before the burst starts.
        MachineEvent::DeadlineElapsed => Machine {
            phase: Phase::BurstBroadcasting,
            timer_armed: false,
            advertising: false,
            burst_active: true,
            connection_live: false,
        },
    }
}

/// The action requested by one admitted event.
pub open spec fn spec_action(e: MachineEvent) -> RadioAction {
    match e {
        MachineEvent::ConnectionAccepted => RadioAction::RunDispatch,
        MachineEvent::DeadlineElapsed => RadioAction::StartBurst,
        _ => RadioAction::StartAdvertising,
    }
}

/// Well-formedness: the resources held correspond exactly to the phase.
/// In particular at most one of the connection, the burst and the
/// advertisement is outstanding, and the deadline alarm exists only while
/// the race of `Advertising` is in flight.
pub open spec fn machine_inv(m: Machine) -> bool {
    &&& m.timer_armed == (m.phase is Advertising)
    &&& m.advertising == (m.phase is Advertising)
    &&& m.burst_active == (m.phase is BurstBroadcasting)
    &&& m.connection_live == (m.phase is Connected)
}

/// How many deadline alarms the machine holds armed: 0 or 1.
pub open spec fn armed_alarms(m: Machine) -> nat {
    if m.timer_armed {
        1
    } else {
        0
    }
}

impl Machine {
    /// The machine before startup: `Idle`, holding nothing.
    pub fn new() -> (r: Machine)
        ensures
            r.phase is Idle,
            machine_inv(r),
            armed_alarms(r) == 0,
    {
        Machine {
            phase: Phase::Idle,
            timer_armed: false,
            advertising: false,
            burst_active: false,
            connection_live: false,
        }
    }

    /// Takes one admitted event, updates the phase and the held resources,
    /// and returns the action the environment must perform next.
    pub fn step(&mut self, e: MachineEvent) -> (a: RadioAction)
        requires
            machine_inv(*old(self)),
            admits(old(self).phase, e),
        ensures
            *final(self) == spec_step(*old(self), e),
            a == spec_action(e),
            machine_inv(*final(self)),
    {
        match e {
            MachineEvent::ConnectionAccepted => {
                self.phase = Phase::Connected;
                self.timer_armed = false;
                self.advertising = false;
                self.burst_active = false;
                self.connection_live = true;
                RadioAction::RunDispatch
            },
            MachineEvent::DeadlineElapsed => {
                self.phase = Phase::BurstBroadcasting;
                self.timer_armed = false;
                self.advertising = false;
                self.burst_active = true;
                self.connection_live = false;
                RadioAction::StartBurst
            },
            _ => {
                self.phase = Phase::Advertising;
                self.timer_armed = true;
                self.advertising = true;
                self.burst_active = false;
                self.connection_live = false;
                RadioAction::StartAdvertising
            },
        }
    }
}

/// Resolves the race between "connection accepted" and "deadline elapsed".
/// Returns the winner, or `None` when neither operation has resolved and
/// the task stays suspended. Ties go to the connection.
pub fn resolve_race(conn_ready: bool, deadline_due: bool) -> (r: Option<RaceWinner>)
    ensures
        r is Some <==> (conn_ready || deadline_due),
        r == Some(RaceWinner::Connection) <==> conn_ready,
        r == Some(RaceWinner::Timer) <==> (!conn_ready && deadline_due),
{
    if conn_ready {
        Some(RaceWinner::Connection)
    } else if deadline_due {
        Some(RaceWinner::Timer)
    } else {
        None
    }
}

/// Race exclusivity: whenever at least one of the two racing operations
/// has resolved, exactly one winner is chosen, and stepping the machine
/// with that winner's event releases the loser's resource — the alarm is
/// disarmed when the connection wins, advertising is stopped when the
/// timer wins — never both transitions, never neither.
pub proof fn lemma_race_exclusivity(m: Machine, conn_ready: bool, deadline_due: bool)
    requires
        machine_inv(m),
        m.phase is Advertising,
        conn_ready || deadline_due,
    ensures
        // exactly one winner
        conn_ready ==> {
            let next = spec_step(m, MachineEvent::ConnectionAccepted);
            &&& next.phase is Connected
            &&& !next.timer_armed
            &&& !next.burst_active
        },
        !conn_ready && deadline_due ==> {
            let next = spec_step(m, MachineEvent::DeadlineElapsed);
            &&& next.phase is BurstBroadcasting
            &&& !next.advertising
            &&& !next.connection_live
        },
        // never both: the two outcome phases are distinct, so one event
        // sequence cannot take both transitions
        spec_step(m, MachineEvent::ConnectionAccepted) != spec_step(
            m,
            MachineEvent::DeadlineElapsed,
        ),
{
}

/// One admitted event preserves the machine invariant, and the single
/// connection slot stays exclusive: a live connection never coexists with
/// an outstanding advertisement or burst, so a second accept is impossible
/// while one connection is active.
pub proof fn lemma_single_connection(m: Machine, e: MachineEvent)
    requires
        machine_inv(m),
        admits(m.phase, e),
    ensures
        machine_inv(spec_step(m, e)),
        spec_step(m, e).connection_live ==> !spec_step(m, e).advertising && !spec_step(
            m,
            e,
        ).burst_active,
        spec_action(e) == RadioAction::StartAdvertising ==> !spec_step(m, e).connection_live,
{
}

/// The machine after a whole sequence of events, applied in order.
pub open spec fn run_machine(m: Machine, events: Seq<MachineEvent>) -> Machine
    decreases events.len(),
{
    if events.len() == 0 {
        m
    } else {
        spec_step(run_machine(m, events.drop_last()), events.last())
    }
}

/// Whether every event of the sequence is admitted by the phase that
/// receives it.
pub open spec fn trace_admitted(m: Machine, events: Seq<MachineEvent>) -> bool
    decreases events.len(),
{
    if events.len() == 0 {
        true
    } else {
        trace_admitted(m, events.drop_last()) && admits(
            run_machine(m, events.drop_last()).phase,
            events.last(),
        )
    }
}

/// No orphaned alarms: over any admitted event sequence — in particular
/// over any number of full advertise -> timeout -> burst -> advertise
/// cycles — the machine holds at most one armed alarm, and outside the
/// `Advertising` race it holds none.
pub proof fn lemma_no_orphaned_alarms(m: Machine, events: Seq<MachineEvent>)
    requires
        machine_inv(m),
        trace_admitted(m, events),
    ensures
        machine_inv(run_machine(m, events)),
        armed_alarms(run_machine(m, events)) <= 1,
        !(run_machine(m, events).phase is Advertising) ==> armed_alarms(
            run_machine(m, events),
        ) == 0,
    decreases events.len(),
{
    if events.len() > 0 {
        lemma_no_orphaned_alarms(m, events.drop_last());
        lemma_single_connection(run_machine(m, events.drop_last()), events.last());
    }
}

} // verus!
