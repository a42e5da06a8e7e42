//! Runs of the dispatcher, and what holds of every run: frames leave in the
//! order in which their commands arrived, and a pause lies between any two
//! writes.

use vstd::prelude::*;
use crate::commands::ActuatorCommand;
use crate::dispatcher::step_of;
use crate::dispatcher::status_text;
use crate::dispatcher::Action;
use crate::dispatcher::ActionView;
use crate::dispatcher::Dispatcher;
use crate::dispatcher::Event;
use crate::dispatcher::EventView;
use crate::dispatcher::OutcomeView;
use crate::dispatcher::Phase;
use crate::dispatcher::PACING_INTERVAL_MS;

verus! {

/// Where a dispatcher stands after some events, and every action it has
/// returned on the way, in order.
pub struct Run {
    pub phase: Phase,
    pub actions: Seq<ActionView>,
}

/// The run of a dispatcher that starts in `phase` and is handed `events` one
/// by one. An event that is not awaited when it arrives leaves no trace.
pub open spec fn run(phase: Phase, events: Seq<EventView>) -> Run
    decreases events.len(),
{
    if events.len() == 0 {
        Run { phase, actions: Seq::empty() }
    } else {
        let before = run(phase, events.drop_last());
        match step_of(before.phase, events.last()) {
            Some((next, action)) => Run { phase: next, actions: before.actions.push(action) },
            None => before,
        }
    }
}

/// `events` as plain values.
pub open spec fn event_views(events: Seq<Event>) -> Seq<EventView> {
    Seq::new(events.len(), |i: int| events[i]@)
}

/// `actions` as plain values.
pub open spec fn action_views(actions: Seq<Action>) -> Seq<ActionView> {
    Seq::new(actions.len(), |i: int| actions[i]@)
}

/// The frames that `actions` write to the link, in order.
pub open spec fn frames_written(actions: Seq<ActionView>) -> Seq<Seq<u8>>
    decreases actions.len(),
{
    if actions.len() == 0 {
        Seq::empty()
    } else {
        let earlier = frames_written(actions.drop_last());
        match actions.last() {
            ActionView::Write(frame) => earlier.push(frame),
            _ => earlier,
        }
    }
}

/// The events that a driver hands back while one command is dealt with.
pub open spec fn round(command: ActuatorCommand, outcome: OutcomeView) -> Seq<EventView> {
    seq![EventView::Command(command), EventView::WriteDone(outcome), EventView::PauseElapsed]
}

/// The actions by which a dispatcher deals with one command.
pub open spec fn round_actions(command: ActuatorCommand, outcome: OutcomeView) -> Seq<
    ActionView,
> {
    seq![
        ActionView::Write(command.frame()),
        ActionView::Report {
            status: status_text(command, outcome),
            pause_ms: PACING_INTERVAL_MS as nat,
        },
        ActionView::Receive,
    ]
}

/// The events of a driver that takes `commands` from the queue in order and
/// meets `outcomes` when it writes them.
pub open spec fn script(commands: Seq<ActuatorCommand>, outcomes: Seq<OutcomeView>) -> Seq<
    EventView,
>
    recommends
        commands.len() == outcomes.len(),
    decreases commands.len(),
{
    if commands.len() == 0 {
        Seq::empty()
    } else {
        script(commands.drop_last(), outcomes.drop_last()) + round(
            commands.last(),
            outcomes.last(),
        )
    }
}

/// The actions that answer `script(commands, outcomes)`.
pub open spec fn script_actions(
    commands: Seq<ActuatorCommand>,
    outcomes: Seq<OutcomeView>,
) -> Seq<ActionView>
    recommends
        commands.len() == outcomes.len(),
    decreases commands.len(),
{
    if commands.len() == 0 {
        Seq::empty()
    } else {
        script_actions(commands.drop_last(), outcomes.drop_last()) + round_actions(
            commands.last(),
            outcomes.last(),
        )
    }
}

/// The frames of `commands`, in order.
pub open spec fn frames_of(commands: Seq<ActuatorCommand>) -> Seq<Seq<u8>> {
    Seq::new(commands.len(), |i: int| commands[i].frame())
}

/// One more event extends a run by one step.
pub proof fn lemma_run_push(phase: Phase, events: Seq<EventView>, event: EventView)
    ensures
        run(phase, events.push(event)) == match step_of(run(phase, events).phase, event) {
            Some((next, action)) => Run {
                phase: next,
                actions: run(phase, events).actions.push(action),
            },
            None => run(phase, events),
        },
{
    assert(events.push(event).drop_last() =~= events);
}

impl Dispatcher {
    /// Hands the dispatcher `events` one by one and returns the actions it
    /// answers with, in order: its run over `events`.
    pub fn replay(&mut self, events: &Vec<Event>) -> (actions: Vec<Action>)
        ensures
            final(self)@ == run(old(self)@, event_views(events@)).phase,
            action_views(actions@) == run(old(self)@, event_views(events@)).actions,
    {
        let ghost start = self@;
        let ghost views = event_views(events@);
        let mut actions: Vec<Action> = Vec::new();
        let mut i: usize = 0;
        while i < events.len()
            invariant
                i <= events.len(),
                views == event_views(events@),
                self@ == run(start, views.take(i as int)).phase,
                action_views(actions@) == run(start, views.take(i as int)).actions,
            decreases events.len() - i,
        {
            let ghost earlier = action_views(actions@);
            match self.step(&events[i]) {
                Some(action) => {
                    actions.push(action);
                    assert(action_views(actions@) =~= earlier.push(action@));
                },
                None => {},
            }
            proof {
                lemma_run_push(start, views.take(i as int), views[i as int]);
                assert(views.take(i + 1) =~= views.take(i as int).push(views[i as int]));
            }
            i += 1;
        }
        assert(views.take(i as int) =~= views);
        actions
    }
}

/// An idle dispatcher deals with one command in three steps and is idle
/// again, whatever came of the write.
pub proof fn lemma_run_round(
    phase: Phase,
    events: Seq<EventView>,
    command: ActuatorCommand,
    outcome: OutcomeView,
)
    requires
        run(phase, events).phase == Phase::Idle,
    ensures
        run(phase, events + round(command, outcome)).phase == Phase::Idle,
        run(phase, events + round(command, outcome)).actions == run(phase, events).actions
            + round_actions(command, outcome),
{
    let first = events.push(EventView::Command(command));
    let second = first.push(EventView::WriteDone(outcome));
    let third = second.push(EventView::PauseElapsed);
    lemma_run_push(phase, events, EventView::Command(command));
    lemma_run_push(phase, first, EventView::WriteDone(outcome));
    lemma_run_push(phase, second, EventView::PauseElapsed);
    assert(third =~= events + round(command, outcome));
    assert(run(phase, third).actions =~= run(phase, events).actions + round_actions(
        command,
        outcome,
    ));
}

/// The actions of one round write one frame: that of the round's command.
pub proof fn lemma_frames_of_round(
    actions: Seq<ActionView>,
    command: ActuatorCommand,
    outcome: OutcomeView,
)
    ensures
        frames_written(actions + round_actions(command, outcome)) == frames_written(actions).push(
            command.frame(),
        ),
{
    let write = ActionView::Write(command.frame());
    let report = ActionView::Report {
        status: status_text(command, outcome),
        pause_ms: PACING_INTERVAL_MS as nat,
    };
    let first = actions.push(write);
    let second = first.push(report);
    let third = second.push(ActionView::Receive);
    assert(first.drop_last() =~= actions);
    assert(second.drop_last() =~= first);
    assert(third.drop_last() =~= second);
    assert(frames_written(first) == frames_written(actions).push(command.frame()));
    assert(frames_written(second) == frames_written(first));
    assert(frames_written(third) == frames_written(second));
    assert(third =~= actions + round_actions(command, outcome));
}

/// Frames leave in the order in which their commands arrived. A dispatcher
/// that is handed `commands` in queue order writes the frame of each, once,
/// in that order, and nothing else: no write is repeated, left out or moved,
/// whether the writes before it failed or not. Between the frames it reports
/// and pauses as `script_actions` says, and at the end it awaits the next
/// command.
pub proof fn lemma_frames_leave_in_order(
    commands: Seq<ActuatorCommand>,
    outcomes: Seq<OutcomeView>,
)
    requires
        commands.len() == outcomes.len(),
    ensures
        run(Phase::Idle, script(commands, outcomes)).phase == Phase::Idle,
        run(Phase::Idle, script(commands, outcomes)).actions == script_actions(
            commands,
            outcomes,
        ),
        frames_written(run(Phase::Idle, script(commands, outcomes)).actions) == frames_of(
            commands,
        ),
        frames_written(run(Phase::Idle, script(commands, outcomes)).actions).len()
            == commands.len(),
    decreases commands.len(),
{
    if commands.len() == 0 {
        assert(frames_of(commands) =~= Seq::<Seq<u8>>::empty());
    } else {
        let earlier = commands.drop_last();
        let earlier_outcomes = outcomes.drop_last();
        lemma_frames_leave_in_order(earlier, earlier_outcomes);
        lemma_run_round(
            Phase::Idle,
            script(earlier, earlier_outcomes),
            commands.last(),
            outcomes.last(),
        );
        lemma_frames_of_round(
            script_actions(earlier, earlier_outcomes),
            commands.last(),
            outcomes.last(),
        );
        assert(frames_of(commands) =~= frames_of(earlier).push(commands.last().frame()));
    }
}

/// `action` is a pause of at least the pacing interval.
pub open spec fn is_pause(action: ActionView) -> bool {
    action matches ActionView::Report { pause_ms, .. } && pause_ms >= PACING_INTERVAL_MS
}

/// A pause lies strictly between the actions at `i` and `j`.
pub open spec fn pause_between(actions: Seq<ActionView>, i: int, j: int) -> bool {
    exists|k: int| i < k < j && #[trigger] is_pause(actions[k])
}

/// A pause lies between any two writes.
pub open spec fn paced(actions: Seq<ActionView>) -> bool {
    forall|i: int, j: int|
        0 <= i < j < actions.len() && actions[i] is Write && actions[j] is Write
            ==> #[trigger] pause_between(actions, i, j)
}

/// Every write is followed by a pause.
pub open spec fn settled(actions: Seq<ActionView>) -> bool {
    forall|i: int|
        0 <= i < actions.len() && actions[i] is Write ==> #[trigger] pause_between(
            actions,
            i,
            actions.len() as int,
        )
}

/// A pause that lies between two places still does when the sequence
/// grows and the later place moves on.
proof fn lemma_pause_stays(
    actions: Seq<ActionView>,
    longer: Seq<ActionView>,
    i: int,
    j: int,
    later: int,
)
    requires
        pause_between(actions, i, j),
        0 <= i,
        j <= actions.len() <= longer.len(),
        j <= later,
        forall|k: int| 0 <= k < actions.len() ==> longer[k] == actions[k],
    ensures
        pause_between(longer, i, later),
{
    let k = choose|k: int| i < k < j && #[trigger] is_pause(actions[k]);
    assert(is_pause(longer[k]));
}

/// In every run, from any phase and over any events, a pause of the pacing
/// interval lies between any two writes; and unless the dispatcher is
/// waiting for the outcome of a write, every write has its pause behind it.
pub proof fn lemma_runs_are_paced(phase: Phase, events: Seq<EventView>)
    ensures
        paced(run(phase, events).actions),
        run(phase, events).phase !is Writing ==> settled(run(phase, events).actions),
    decreases events.len(),
{
    if events.len() > 0 {
        lemma_runs_are_paced(phase, events.drop_last());
        let before = run(phase, events.drop_last());
        let after = run(phase, events);
        let old_len = before.actions.len() as int;
        match step_of(before.phase, events.last()) {
            None => {},
            Some((next, action)) => {
                assert(after.actions == before.actions.push(action));
                assert forall|i: int, j: int|
                    0 <= i < j < after.actions.len() && after.actions[i] is Write
                        && after.actions[j] is Write implies #[trigger] pause_between(
                    after.actions,
                    i,
                    j,
                ) by {
                    if j < old_len {
                        assert(pause_between(before.actions, i, j));
                        lemma_pause_stays(before.actions, after.actions, i, j, j);
                    } else {
                        assert(action is Write);
                        assert(before.phase == Phase::Idle);
                        assert(pause_between(before.actions, i, old_len));
                        lemma_pause_stays(before.actions, after.actions, i, old_len, j);
                    }
                }
                if next !is Writing {
                    assert forall|i: int|
                        0 <= i < after.actions.len()
                            && after.actions[i] is Write implies #[trigger] pause_between(
                        after.actions,
                        i,
                        after.actions.len() as int,
                    ) by {
                        assert(i < old_len);
                        if before.phase is Writing {
                            assert(is_pause(after.actions[old_len]));
                        } else {
                            assert(pause_between(before.actions, i, old_len));
                            lemma_pause_stays(
                                before.actions,
                                after.actions,
                                i,
                                old_len,
                                old_len + 1,
                            );
                        }
                    }
                }
            },
        }
    }
}

/// The driver keeps time: `starts[k]` is when it began to carry out action
/// `k`, in milliseconds; time does not run backwards, and the action after a
/// report begins no sooner than the report's pause allows.
pub open spec fn honours_pauses(actions: Seq<ActionView>, starts: Seq<int>) -> bool {
    &&& starts.len() == actions.len()
    &&& forall|k: int| 0 <= k && k + 1 < starts.len() ==> #[trigger] starts[k] <= starts[k + 1]
    &&& forall|k: int|
        0 <= k && k + 1 < starts.len() ==> (#[trigger] actions[k] matches ActionView::Report {
            pause_ms,
            ..
        } ==> starts[k] + pause_ms <= starts[k + 1])
}

/// Where time does not run backwards from one action to the next, it does
/// not between any two.
proof fn lemma_time_goes_on(starts: Seq<int>, a: int, b: int)
    requires
        forall|k: int| 0 <= k && k + 1 < starts.len() ==> #[trigger] starts[k] <= starts[k + 1],
        0 <= a <= b < starts.len(),
    ensures
        starts[a] <= starts[b],
    decreases b - a,
{
    if a < b {
        lemma_time_goes_on(starts, a, b - 1);
        assert(starts[b - 1] <= starts[b - 1 + 1]);
    }
}

/// Pacing. In every run, from any phase and over any events, carried out by
/// a driver that honours the pauses, two writes never begin less than the
/// pacing interval apart.
pub proof fn lemma_writes_are_spaced(
    phase: Phase,
    events: Seq<EventView>,
    starts: Seq<int>,
    i: int,
    j: int,
)
    requires
        honours_pauses(run(phase, events).actions, starts),
        0 <= i < j < run(phase, events).actions.len(),
        run(phase, events).actions[i] is Write,
        run(phase, events).actions[j] is Write,
    ensures
        starts[j] - starts[i] >= PACING_INTERVAL_MS,
{
    let actions = run(phase, events).actions;
    lemma_runs_are_paced(phase, events);
    assert(pause_between(actions, i, j));
    let k = choose|k: int| i < k < j && #[trigger] is_pause(actions[k]);
    lemma_time_goes_on(starts, i, k);
    lemma_time_goes_on(starts, k + 1, j);
    assert(actions[k] is Report);
}

} // verus!
