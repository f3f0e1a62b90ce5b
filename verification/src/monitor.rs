//! The drift monitor: on every tick it compares the live speed with the pinned
//! one and puts the pinned one back where they differ.
//!
//! The monitor never touches the system itself. Its driver sleeps, reads and
//! writes the speed and shows notifications as the actions of
//! [`monitor_step`] ask, and answers each action with one event. The monitor
//! runs for as long as its driver does: no event ends it.

use crate::message::Message;
use vstd::prelude::*;

verus! {

/// The time between two ticks, in milliseconds.
pub const TICK_MILLIS: u64 = 50;

/// What the monitor is waiting for.
#[derive(Clone, Copy, Debug, PartialEq, Eq, Structural)]
pub enum MonitorPhase {
    /// The next tick.
    Resting,
    /// The live speed.
    Reading,
    /// The outcome of writing `desired` over the drifted speed `observed`.
    Writing { observed: u8, desired: u8 },
    /// The notification about a write to have been sent.
    Notifying,
}

/// What the driver reports to the monitor.
#[derive(Clone, Copy, Debug, PartialEq, Eq, Structural)]
pub enum MonitorEvent {
    /// The tick period has passed; `enabled` is the pinning switch as it stands.
    Tick { enabled: bool },
    /// The live speed was asked for: `current` is the answer, or `None` where
    /// there was none, and `desired` the pinned speed as it stands.
    SpeedRead { current: Option<u8>, desired: u8 },
    /// The speed was written; `ok` says whether the system took it.
    WriteDone { ok: bool },
    /// The notification was sent on its way.
    Notified,
}

/// What the monitor asks of its driver.
#[derive(Clone, Copy, Debug, PartialEq, Eq, Structural)]
pub enum MonitorAction {
    /// Sleep for this many milliseconds and report `Tick`.
    Sleep { millis: u64 },
    /// Read the live speed and report `SpeedRead`.
    ReadSpeed,
    /// Write this speed and report `WriteDone`.
    WriteSpeed { speed: u8 },
    /// Send this notification on its way, without waiting for it to be
    /// shown, and report `Notified`.
    Notify { message: Message },
}

/// What ends a tick: the monitor rests, and its driver sleeps for a tick
/// period.
pub open spec fn at_rest() -> (MonitorPhase, MonitorAction) {
    (MonitorPhase::Resting, MonitorAction::Sleep { millis: TICK_MILLIS })
}

/// The phase and the action that follow an event.
///
/// A tick with the switch off asks for nothing. A tick with the switch on asks
/// for the live speed. Where there is none, or where it equals the pinned one,
/// the tick is over without a word. Where it differs, the pinned speed is
/// written once, and the outcome of that write is shown. An event that the
/// phase does not await gives the tick up.
pub open spec fn monitor_next(phase: MonitorPhase, event: MonitorEvent) -> (
    MonitorPhase,
    MonitorAction,
) {
    match (phase, event) {
        (MonitorPhase::Resting, MonitorEvent::Tick { enabled }) => if enabled {
            (MonitorPhase::Reading, MonitorAction::ReadSpeed)
        } else {
            at_rest()
        },
        (MonitorPhase::Reading, MonitorEvent::SpeedRead { current: Some(observed), desired }) => if observed
            != desired {
            (MonitorPhase::Writing { observed, desired }, MonitorAction::WriteSpeed { speed: desired })
        } else {
            at_rest()
        },
        (MonitorPhase::Writing { observed, desired }, MonitorEvent::WriteDone { ok }) => (
            MonitorPhase::Notifying,
            MonitorAction::Notify { message: write_report(observed, desired, ok) },
        ),
        _ => at_rest(),
    }
}

/// The notification that follows a write: the old and the new speed where the
/// write succeeded, a pointer to the log where it failed.
pub open spec fn write_report(observed: u8, desired: u8, ok: bool) -> Message {
    if ok {
        Message::SpeedReset { observed, desired }
    } else {
        Message::SetFailed
    }
}

/// The phase and the action with which the monitor sets out: at rest, with a
/// tick period to sleep before the first tick.
pub fn monitor_start() -> (start: (MonitorPhase, MonitorAction))
    ensures
        start == at_rest(),
{
    (MonitorPhase::Resting, MonitorAction::Sleep { millis: TICK_MILLIS })
}

/// One step of the monitor: the phase and the action that follow `event`.
pub fn monitor_step(phase: MonitorPhase, event: MonitorEvent) -> (next: (
    MonitorPhase,
    MonitorAction,
))
    ensures
        next == monitor_next(phase, event),
{
    match phase {
        MonitorPhase::Resting => {
            if let MonitorEvent::Tick { enabled } = event {
                if enabled {
                    return (MonitorPhase::Reading, MonitorAction::ReadSpeed);
                }
            }
        },
        MonitorPhase::Reading => {
            if let MonitorEvent::SpeedRead { current: Some(observed), desired } = event {
                if observed != desired {
                    return (
                        MonitorPhase::Writing { observed, desired },
                        MonitorAction::WriteSpeed { speed: desired },
                    );
                }
            }
        },
        MonitorPhase::Writing { observed, desired } => {
            if let MonitorEvent::WriteDone { ok } = event {
                let message = if ok {
                    Message::SpeedReset { observed, desired }
                } else {
                    Message::SetFailed
                };
                return (MonitorPhase::Notifying, MonitorAction::Notify { message });
            }
        },
        MonitorPhase::Notifying => {},
    }
    (MonitorPhase::Resting, MonitorAction::Sleep { millis: TICK_MILLIS })
}

/// The actions that the monitor draws from a run of events, one for each
/// event, starting in `phase`.
pub open spec fn monitor_actions(phase: MonitorPhase, events: Seq<MonitorEvent>) -> Seq<
    MonitorAction,
>
    decreases events.len(),
{
    if events.len() == 0 {
        Seq::empty()
    } else {
        let next = monitor_next(phase, events.first());
        seq![next.1] + monitor_actions(next.0, events.drop_first())
    }
}

/// The phase in which a run of events leaves the monitor.
pub open spec fn monitor_phase_after(phase: MonitorPhase, events: Seq<MonitorEvent>) -> MonitorPhase
    decreases events.len(),
{
    if events.len() == 0 {
        phase
    } else {
        monitor_phase_after(monitor_next(phase, events.first()).0, events.drop_first())
    }
}

/// The number of reads of the live speed among `actions`.
pub open spec fn reads(actions: Seq<MonitorAction>) -> nat
    decreases actions.len(),
{
    if actions.len() == 0 {
        0
    } else if actions.first() is ReadSpeed {
        1 + reads(actions.drop_first())
    } else {
        reads(actions.drop_first())
    }
}

/// The number of writes of the speed among `actions`.
pub open spec fn writes(actions: Seq<MonitorAction>) -> nat
    decreases actions.len(),
{
    if actions.len() == 0 {
        0
    } else if actions.first() is WriteSpeed {
        1 + writes(actions.drop_first())
    } else {
        writes(actions.drop_first())
    }
}

/// The number of notifications among `actions`.
pub open spec fn notifications(actions: Seq<MonitorAction>) -> nat
    decreases actions.len(),
{
    if actions.len() == 0 {
        0
    } else if actions.first() is Notify {
        1 + notifications(actions.drop_first())
    } else {
        notifications(actions.drop_first())
    }
}

/// Holds of events that all belong to one tick: none of them is a tick.
pub open spec fn within_tick(events: Seq<MonitorEvent>) -> bool {
    forall|i: int| 0 <= i < events.len() ==> !(#[trigger] events[i] is Tick)
}

/// The events of `ticks` ticks in a row, each with pinning on and each finding
/// the live speed equal to the pinned `speed`.
pub open spec fn steady_ticks(speed: u8, ticks: nat) -> Seq<MonitorEvent>
    decreases ticks,
{
    if ticks == 0 {
        Seq::empty()
    } else {
        steady_ticks(speed, (ticks - 1) as nat) + seq![
            MonitorEvent::Tick { enabled: true },
            MonitorEvent::SpeedRead { current: Some(speed), desired: speed },
        ]
    }
}

/// The monitor answers every event with one action.
pub proof fn lemma_actions_len(phase: MonitorPhase, events: Seq<MonitorEvent>)
    ensures
        monitor_actions(phase, events).len() == events.len(),
    decreases events.len(),
{
    if events.len() > 0 {
        lemma_actions_len(monitor_next(phase, events.first()).0, events.drop_first());
    }
}

/// The run of an event followed by others is the step on that event followed
/// by the run of the others.
pub proof fn lemma_run_step(phase: MonitorPhase, event: MonitorEvent, rest: Seq<MonitorEvent>)
    ensures
        monitor_actions(phase, seq![event] + rest) == seq![monitor_next(phase, event).1]
            + monitor_actions(monitor_next(phase, event).0, rest),
        monitor_phase_after(phase, seq![event] + rest) == monitor_phase_after(
            monitor_next(phase, event).0,
            rest,
        ),
{
    assert((seq![event] + rest).drop_first() =~= rest);
}

/// A run of events in two parts draws the actions of the first part, then
/// those of the second from the phase that the first has led to.
pub proof fn lemma_run_in_parts(
    phase: MonitorPhase,
    first: Seq<MonitorEvent>,
    second: Seq<MonitorEvent>,
)
    ensures
        monitor_actions(phase, first + second) == monitor_actions(phase, first) + monitor_actions(
            monitor_phase_after(phase, first),
            second,
        ),
        monitor_phase_after(phase, first + second) == monitor_phase_after(
            monitor_phase_after(phase, first),
            second,
        ),
    decreases first.len(),
{
    if first.len() == 0 {
        assert(first + second =~= second);
    } else {
        let next = monitor_next(phase, first.first());
        lemma_run_in_parts(next.0, first.drop_first(), second);
        assert((first + second).drop_first() =~= first.drop_first() + second);
    }
}

/// The phase after a run of events is one step on from the phase before the
/// last of them.
pub proof fn lemma_phase_after_last(phase: MonitorPhase, events: Seq<MonitorEvent>)
    requires
        events.len() > 0,
    ensures
        monitor_phase_after(phase, events) == monitor_next(
            monitor_phase_after(phase, events.drop_last()),
            events.last(),
        ).0,
    decreases events.len(),
{
    if events.len() == 1 {
        assert(events.drop_first() =~= Seq::<MonitorEvent>::empty());
        assert(events.drop_last() =~= Seq::<MonitorEvent>::empty());
    } else {
        let rest = events.drop_first();
        lemma_phase_after_last(monitor_next(phase, events.first()).0, rest);
        assert(events.drop_last().drop_first() =~= rest.drop_last());
    }
}

/// The action that answers the event at `index` is the step from the phase
/// that the events before it have led to.
pub proof fn lemma_action_at(phase: MonitorPhase, events: Seq<MonitorEvent>, index: int)
    requires
        0 <= index < events.len(),
    ensures
        monitor_actions(phase, events).len() == events.len(),
        monitor_actions(phase, events)[index] == monitor_next(
            monitor_phase_after(phase, events.take(index)),
            events[index],
        ).1,
    decreases index,
{
    let first = monitor_next(phase, events.first());
    lemma_actions_len(phase, events);
    lemma_actions_len(first.0, events.drop_first());
    if index == 0 {
        assert(events.take(0) =~= Seq::<MonitorEvent>::empty());
    } else {
        lemma_action_at(first.0, events.drop_first(), index - 1);
        assert(events.take(index).drop_first() =~= events.drop_first().take(index - 1));
    }
}

/// The counts of actions that start with `action` are the counts of the rest
/// and one more of the kind of `action`.
pub proof fn lemma_counts_step(action: MonitorAction, rest: Seq<MonitorAction>)
    ensures
        reads(seq![action] + rest) == reads(rest) + (if action is ReadSpeed {
            1nat
        } else {
            0nat
        }),
        writes(seq![action] + rest) == writes(rest) + (if action is WriteSpeed {
            1nat
        } else {
            0nat
        }),
        notifications(seq![action] + rest) == notifications(rest) + (if action is Notify {
            1nat
        } else {
            0nat
        }),
{
    assert((seq![action] + rest).drop_first() =~= rest);
}

/// The reads, writes and notifications of actions in two parts are those of
/// the parts together.
pub proof fn lemma_counts_in_parts(first: Seq<MonitorAction>, second: Seq<MonitorAction>)
    ensures
        reads(first + second) == reads(first) + reads(second),
        writes(first + second) == writes(first) + writes(second),
        notifications(first + second) == notifications(first) + notifications(second),
    decreases first.len(),
{
    if first.len() == 0 {
        assert(first + second =~= second);
    } else {
        lemma_counts_in_parts(first.drop_first(), second);
        assert((first + second).drop_first() =~= first.drop_first() + second);
    }
}

/// Between two ticks the monitor does no more than the tick has left open: it
/// reads nothing, writes at most once and only where the live speed is still
/// awaited, and sends at most one notification and none once the write has
/// been reported. A monitor at rest stays at rest.
pub proof fn lemma_rest_of_tick(phase: MonitorPhase, events: Seq<MonitorEvent>)
    requires
        within_tick(events),
    ensures
        reads(monitor_actions(phase, events)) == 0,
        writes(monitor_actions(phase, events)) <= (if phase is Reading {
            1nat
        } else {
            0nat
        }),
        notifications(monitor_actions(phase, events)) <= (if phase is Reading || phase is Writing {
            1nat
        } else {
            0nat
        }),
        phase is Resting ==> monitor_phase_after(phase, events) is Resting,
    decreases events.len(),
{
    if events.len() > 0 {
        let next = monitor_next(phase, events.first());
        let rest = events.drop_first();
        assert(within_tick(rest)) by {
            assert forall|i: int| 0 <= i < rest.len() implies !(#[trigger] rest[i] is Tick) by {
                assert(rest[i] == events[i + 1]);
            }
        }
        lemma_rest_of_tick(next.0, rest);
        lemma_counts_step(next.1, monitor_actions(next.0, rest));
    }
}

/// While pinning is switched off, a tick and all that follows it up to the
/// next tick draw no read, no write and no notification from the monitor,
/// whatever it was waiting for.
pub proof fn lemma_idle_tick_is_inert(phase: MonitorPhase, events: Seq<MonitorEvent>)
    requires
        within_tick(events),
    ensures
        monitor_next(phase, MonitorEvent::Tick { enabled: false }) == at_rest(),
        reads(monitor_actions(phase, seq![MonitorEvent::Tick { enabled: false }] + events)) == 0,
        writes(monitor_actions(phase, seq![MonitorEvent::Tick { enabled: false }] + events)) == 0,
        notifications(
            monitor_actions(phase, seq![MonitorEvent::Tick { enabled: false }] + events),
        ) == 0,
        monitor_phase_after(phase, seq![MonitorEvent::Tick { enabled: false }] + events)
            is Resting,
{
    let tick = MonitorEvent::Tick { enabled: false };
    lemma_run_step(phase, tick, events);
    lemma_rest_of_tick(MonitorPhase::Resting, events);
    lemma_counts_step(at_rest().1, monitor_actions(MonitorPhase::Resting, events));
}

/// A live speed that equals the pinned one is left alone in every phase: the
/// monitor asks for no write and no notification, and rests.
pub proof fn lemma_steady_speed_is_left_alone(phase: MonitorPhase, speed: u8)
    ensures
        monitor_next(phase, MonitorEvent::SpeedRead { current: Some(speed), desired: speed })
            == at_rest(),
{
}

/// A tick that finds the live speed equal to the pinned one reads once and
/// draws no write and no notification, up to the next tick.
pub proof fn lemma_steady_tick_is_silent(speed: u8, events: Seq<MonitorEvent>)
    requires
        within_tick(events),
    ensures
        ({
            let tick = seq![
                MonitorEvent::Tick { enabled: true },
                MonitorEvent::SpeedRead { current: Some(speed), desired: speed },
            ] + events;
            &&& reads(monitor_actions(MonitorPhase::Resting, tick)) == 1
            &&& writes(monitor_actions(MonitorPhase::Resting, tick)) == 0
            &&& notifications(monitor_actions(MonitorPhase::Resting, tick)) == 0
            &&& monitor_phase_after(MonitorPhase::Resting, tick) is Resting
        }),
{
    let first = MonitorEvent::Tick { enabled: true };
    let second = MonitorEvent::SpeedRead { current: Some(speed), desired: speed };
    let tick = seq![first, second] + events;
    assert(tick =~= seq![first] + (seq![second] + events));
    lemma_run_step(MonitorPhase::Resting, first, seq![second] + events);
    lemma_run_step(MonitorPhase::Reading, second, events);
    lemma_rest_of_tick(MonitorPhase::Resting, events);
    lemma_counts_step(at_rest().1, monitor_actions(MonitorPhase::Resting, events));
    lemma_counts_step(
        MonitorAction::ReadSpeed,
        monitor_actions(MonitorPhase::Reading, seq![second] + events),
    );
}

/// As long as the live speed equals the pinned one, the monitor reads once a
/// tick and never writes or notifies, however many ticks pass.
pub proof fn lemma_steady_state_is_silent(speed: u8, ticks: nat)
    ensures
        reads(monitor_actions(MonitorPhase::Resting, steady_ticks(speed, ticks))) == ticks,
        writes(monitor_actions(MonitorPhase::Resting, steady_ticks(speed, ticks))) == 0,
        notifications(monitor_actions(MonitorPhase::Resting, steady_ticks(speed, ticks))) == 0,
        monitor_phase_after(MonitorPhase::Resting, steady_ticks(speed, ticks)) is Resting,
    decreases ticks,
{
    if ticks > 0 {
        let before = steady_ticks(speed, (ticks - 1) as nat);
        let tick = seq![
            MonitorEvent::Tick { enabled: true },
            MonitorEvent::SpeedRead { current: Some(speed), desired: speed },
        ];
        lemma_steady_state_is_silent(speed, (ticks - 1) as nat);
        lemma_run_in_parts(MonitorPhase::Resting, before, tick);
        lemma_steady_tick_is_silent(speed, Seq::empty());
        lemma_counts_in_parts(
            monitor_actions(MonitorPhase::Resting, before),
            monitor_actions(MonitorPhase::Resting, tick),
        );
    }
}

/// A tick that finds the live speed drifted, while pinning is on, writes the
/// pinned speed exactly once and then sends exactly one notification, which
/// tells how the write went; nothing more follows up to the next tick.
pub proof fn lemma_drift_is_corrected_once(
    observed: u8,
    desired: u8,
    ok: bool,
    events: Seq<MonitorEvent>,
)
    requires
        observed != desired,
        within_tick(events),
    ensures
        ({
            let tick = seq![
                MonitorEvent::Tick { enabled: true },
                MonitorEvent::SpeedRead { current: Some(observed), desired },
                MonitorEvent::WriteDone { ok },
            ] + events;
            let actions = monitor_actions(MonitorPhase::Resting, tick);
            &&& actions.len() == 3 + events.len()
            &&& actions[0] == MonitorAction::ReadSpeed
            &&& actions[1] == MonitorAction::WriteSpeed { speed: desired }
            &&& actions[2] == MonitorAction::Notify { message: write_report(observed, desired, ok) }
            &&& actions[2]->message.is_failure() == !ok
            &&& reads(actions) == 1
            &&& writes(actions) == 1
            &&& notifications(actions) == 1
        }),
{
    let first = MonitorEvent::Tick { enabled: true };
    let second = MonitorEvent::SpeedRead { current: Some(observed), desired };
    let third = MonitorEvent::WriteDone { ok };
    let tick = seq![first, second, third] + events;
    let writing = MonitorPhase::Writing { observed, desired };
    assert(tick =~= seq![first] + (seq![second] + (seq![third] + events)));
    lemma_run_step(MonitorPhase::Resting, first, seq![second] + (seq![third] + events));
    lemma_run_step(MonitorPhase::Reading, second, seq![third] + events);
    lemma_run_step(writing, third, events);
    lemma_rest_of_tick(MonitorPhase::Notifying, events);
    lemma_actions_len(MonitorPhase::Notifying, events);
    let tail = monitor_actions(MonitorPhase::Notifying, events);
    let report = MonitorAction::Notify { message: write_report(observed, desired, ok) };
    let write = MonitorAction::WriteSpeed { speed: desired };
    lemma_counts_step(report, tail);
    lemma_counts_step(write, seq![report] + tail);
    lemma_counts_step(MonitorAction::ReadSpeed, seq![write] + (seq![report] + tail));
}

/// Every write is owed to the tick it belongs to: the event before it was a
/// tick that found pinning switched on, the event it answers is a live speed
/// that differs from the pinned one, and what is written is the pinned speed
/// that came with it. So the monitor never writes on a tick that found pinning
/// switched off.
pub proof fn lemma_writes_are_owed(phase: MonitorPhase, events: Seq<MonitorEvent>, index: int)
    requires
        !(phase is Reading),
        0 <= index < events.len(),
        monitor_actions(phase, events)[index] is WriteSpeed,
    ensures
        index >= 1,
        events[index - 1] == (MonitorEvent::Tick { enabled: true }),
        events[index] matches MonitorEvent::SpeedRead { current: Some(observed), desired }
            && observed != desired && monitor_actions(phase, events)[index]
            == (MonitorAction::WriteSpeed { speed: desired }),
{
    lemma_action_at(phase, events, index);
    let before = events.take(index);
    if index >= 1 {
        lemma_phase_after_last(phase, before);
    }
}

/// Every notification of the monitor reports the write that went just before
/// it: the action before it was a write of the pinned speed over a live speed
/// that had drifted, and the notification tells how that write went.
pub proof fn lemma_notifications_follow_writes(
    phase: MonitorPhase,
    events: Seq<MonitorEvent>,
    index: int,
)
    requires
        !(phase is Writing),
        0 <= index < events.len(),
        monitor_actions(phase, events)[index] is Notify,
    ensures
        index >= 1,
        monitor_actions(phase, events)[index - 1] is WriteSpeed,
        events[index - 1] matches MonitorEvent::SpeedRead { current: Some(observed), desired }
            && events[index] matches MonitorEvent::WriteDone { ok } && monitor_actions(
            phase,
            events,
        )[index] == (MonitorAction::Notify { message: write_report(observed, desired, ok) }),
{
    lemma_action_at(phase, events, index);
    let before = events.take(index);
    if index >= 1 {
        lemma_phase_after_last(phase, before);
        lemma_action_at(phase, events, index - 1);
        assert(before.drop_last() =~= events.take(index - 1));
    }
}

} // verus!
