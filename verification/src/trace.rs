//! Whole runs of the shim: what comes of a sequence of events, and what
//! holds of every such run.

use vstd::prelude::*;
use crate::shim::{
    OutcomeView, ShimActionView, ShimEventView, ShimPhase, ShimState, shim_finished, shim_fresh,
    shim_next, spec_source_name,
};

verus! {

/// A run so far: the shim's state, and the outcome once it has one.
pub struct ShimRun {
    pub state: ShimState,
    pub outcome: Option<OutcomeView>,
}

/// The run of a shim for `script` before anything has happened.
pub open spec fn run_fresh(script: Seq<char>) -> ShimRun {
    ShimRun { state: shim_fresh(script), outcome: None }
}

/// The run after one more event. An event without a place in the state is
/// passed over.
pub open spec fn run_step(run: ShimRun, e: ShimEventView) -> ShimRun {
    match shim_next(run.state, e) {
        Some((state, ShimActionView::Finish(outcome))) => ShimRun { state, outcome: Some(outcome) },
        Some((state, _)) => ShimRun { state, outcome: run.outcome },
        None => run,
    }
}

/// The run after a sequence of events, taken in order.
pub open spec fn run_feed(run: ShimRun, events: Seq<ShimEventView>) -> ShimRun
    decreases events.len(),
{
    if events.len() == 0 {
        run
    } else {
        run_feed(run_step(run, events[0]), events.drop_first())
    }
}

/// The events of a script that prints `pieces`, one after the other.
pub open spec fn writes(pieces: Seq<Seq<char>>) -> Seq<ShimEventView> {
    Seq::new(pieces.len(), |i: int| ShimEventView::Wrote(pieces[i]))
}

/// The pieces of text put together, the first of them first.
pub open spec fn joined(pieces: Seq<Seq<char>>) -> Seq<char>
    decreases pieces.len(),
{
    if pieces.len() == 0 {
        Seq::empty()
    } else {
        pieces[0] + joined(pieces.drop_first())
    }
}

/// The place of a phase in the order in which a shim goes through them.
pub open spec fn phase_rank(phase: ShimPhase) -> nat {
    match phase {
        ShimPhase::Created => 0,
        ShimPhase::Installing => 1,
        ShimPhase::Compiling => 2,
        ShimPhase::Running => 3,
        ShimPhase::Rendering => 4,
        ShimPhase::Finished => 5,
    }
}

/// Feeding two sequences of events one after the other is feeding them as
/// one.
pub proof fn lemma_feed_concat(run: ShimRun, a: Seq<ShimEventView>, b: Seq<ShimEventView>)
    ensures
        run_feed(run, a + b) == run_feed(run_feed(run, a), b),
    decreases a.len(),
{
    if a.len() == 0 {
        assert(a + b =~= b);
    } else {
        assert((a + b).drop_first() =~= a.drop_first() + b);
        lemma_feed_concat(run_step(run, a[0]), a.drop_first(), b);
    }
}

/// While the program runs or its value is put into text, what it prints is
/// appended to what it printed before, in order, and nothing else changes.
pub proof fn lemma_feed_writes(run: ShimRun, pieces: Seq<Seq<char>>)
    requires
        run.state.phase == ShimPhase::Running || run.state.phase == ShimPhase::Rendering,
    ensures
        run_feed(run, writes(pieces)) == (ShimRun {
            state: ShimState { printed: run.state.printed + joined(pieces), ..run.state },
            outcome: run.outcome,
        }),
    decreases pieces.len(),
{
    if pieces.len() == 0 {
        assert(run.state.printed + joined(pieces) =~= run.state.printed);
    } else {
        let next = run_step(run, writes(pieces)[0]);
        assert(writes(pieces).drop_first() =~= writes(pieces.drop_first()));
        lemma_feed_writes(next, pieces.drop_first());
        assert((run.state.printed + pieces[0]) + joined(pieces.drop_first())
            =~= run.state.printed + joined(pieces));
    }
}

/// A script that compiles, prints `pieces` and returns a value whose text
/// is `value` succeeds, and its output is what it printed, in the order in
/// which it printed it, followed by `value`.
pub proof fn lemma_output_is_prints_then_value(
    script: Seq<char>,
    pieces: Seq<Seq<char>>,
    value: Seq<char>,
)
    ensures
        run_feed(
            run_fresh(script),
            seq![ShimEventView::Start, ShimEventView::StdoutInstalled, ShimEventView::Compiled]
                + writes(pieces) + seq![ShimEventView::Returned, ShimEventView::Rendered(value)],
        ).outcome == Some(OutcomeView::Success(joined(pieces) + value)),
{
    let head = seq![ShimEventView::Start, ShimEventView::StdoutInstalled, ShimEventView::Compiled];
    let tail = seq![ShimEventView::Returned, ShimEventView::Rendered(value)];
    let running = ShimRun {
        state: ShimState { phase: ShimPhase::Running, ..shim_fresh(script) },
        outcome: None,
    };
    assert(run_feed(run_fresh(script), head) == running) by {
        reveal_with_fuel(run_feed, 4);
    }
    lemma_feed_writes(running, pieces);
    let printed = run_feed(running, writes(pieces));
    assert(Seq::<char>::empty() + joined(pieces) =~= joined(pieces));
    assert(run_feed(printed, tail).outcome == Some(
        OutcomeView::Success(joined(pieces) + value),
    )) by {
        reveal_with_fuel(run_feed, 3);
    }
    lemma_feed_concat(run_fresh(script), head, writes(pieces));
    lemma_feed_concat(run_fresh(script), head + writes(pieces), tail);
}

/// A script that does not compile fails with the syntax error's text.
pub proof fn lemma_syntax_error_fails(script: Seq<char>, message: Seq<char>)
    ensures
        run_feed(
            run_fresh(script),
            seq![
                ShimEventView::Start,
                ShimEventView::StdoutInstalled,
                ShimEventView::CompileFailed(message),
            ],
        ).outcome == Some(OutcomeView::Failure(message)),
{
    reveal_with_fuel(run_feed, 4);
}

/// A script that compiles, prints `pieces` and then raises fails with the
/// exception's text; what it printed is in no part of the outcome.
pub proof fn lemma_exception_fails(script: Seq<char>, pieces: Seq<Seq<char>>, message: Seq<char>)
    ensures
        run_feed(
            run_fresh(script),
            seq![ShimEventView::Start, ShimEventView::StdoutInstalled, ShimEventView::Compiled]
                + writes(pieces) + seq![ShimEventView::Raised(message)],
        ) == (ShimRun {
            state: shim_finished(shim_fresh(script)),
            outcome: Some(OutcomeView::Failure(message)),
        }),
{
    let head = seq![ShimEventView::Start, ShimEventView::StdoutInstalled, ShimEventView::Compiled];
    let tail = seq![ShimEventView::Raised(message)];
    let running = ShimRun {
        state: ShimState { phase: ShimPhase::Running, ..shim_fresh(script) },
        outcome: None,
    };
    assert(run_feed(run_fresh(script), head) == running) by {
        reveal_with_fuel(run_feed, 4);
    }
    lemma_feed_writes(running, pieces);
    let printed = run_feed(running, writes(pieces));
    assert(run_feed(printed, tail) == (ShimRun {
        state: shim_finished(shim_fresh(script)),
        outcome: Some(OutcomeView::Failure(message)),
    })) by {
        reveal_with_fuel(run_feed, 2);
    }
    lemma_feed_concat(run_fresh(script), head, writes(pieces));
    lemma_feed_concat(run_fresh(script), head + writes(pieces), tail);
}

/// A failure to compile and an exception at run time are told apart by
/// nothing but their text: with the same text they give the same action,
/// `Finish` with `Failure`, and leave the shim in the same state, whatever
/// had been printed.
pub proof fn lemma_failures_are_flattened(
    compiling: ShimState,
    running: ShimState,
    message: Seq<char>,
)
    requires
        compiling.phase == ShimPhase::Compiling,
        running.phase == ShimPhase::Running || running.phase == ShimPhase::Rendering,
        compiling.script == running.script,
    ensures
        shim_next(compiling, ShimEventView::CompileFailed(message)) == Some(
            (shim_finished(compiling), ShimActionView::Finish(OutcomeView::Failure(message))),
        ),
        shim_next(compiling, ShimEventView::CompileFailed(message)) == shim_next(
            running,
            ShimEventView::Raised(message),
        ),
{
}

/// A step never changes the script, never goes back in the order of the
/// phases, and a finished shim takes no event at all.
pub proof fn lemma_step_goes_forward(s: ShimState, e: ShimEventView)
    ensures
        s.phase == ShimPhase::Finished ==> shim_next(s, e) is None,
        shim_next(s, e) matches Some((t, action)) ==> {
            &&& t.script == s.script
            &&& phase_rank(s.phase) <= phase_rank(t.phase)
            &&& (action is Finish <==> t.phase == ShimPhase::Finished)
            &&& (action is Continue <==> t.phase == s.phase)
        },
{
}

/// The stand-in for output is installed once, before anything else, and the
/// script is compiled only when it is in place: `InstallStdout` is the answer
/// to `Start` in a shim that has done nothing, and to nothing else;
/// `CompileProgram` is the answer to `StdoutInstalled`, and names the shim's
/// own script and the fixed source name.
pub proof fn lemma_install_then_compile(s: ShimState, e: ShimEventView)
    ensures
        shim_next(s, e) matches Some((_, ShimActionView::InstallStdout)) ==> s.phase
            == ShimPhase::Created && e == ShimEventView::Start,
        shim_next(s, e) matches Some((_, ShimActionView::CompileProgram { source, source_name }))
            ==> s.phase == ShimPhase::Installing && e == ShimEventView::StdoutInstalled && source
            == s.script && source_name == spec_source_name(),
        shim_next(s, e) matches Some((_, ShimActionView::Execute)) ==> s.phase
            == ShimPhase::Compiling && e == ShimEventView::Compiled,
{
}

/// A run has at most one outcome: once it is there, no event changes it.
pub proof fn lemma_outcome_is_final(run: ShimRun, events: Seq<ShimEventView>)
    requires
        run.state.phase == ShimPhase::Finished,
    ensures
        run_feed(run, events) == run,
    decreases events.len(),
{
    if events.len() > 0 {
        lemma_outcome_is_final(run, events.drop_first());
    }
}

/// Two runs side by side, fed from one schedule. Each entry of the schedule
/// holds an event and says whether it is for the first run.
pub open spec fn pair_feed(
    first: ShimRun,
    second: ShimRun,
    schedule: Seq<(bool, ShimEventView)>,
) -> (ShimRun, ShimRun)
    decreases schedule.len(),
{
    if schedule.len() == 0 {
        (first, second)
    } else if schedule[0].0 {
        pair_feed(run_step(first, schedule[0].1), second, schedule.drop_first())
    } else {
        pair_feed(first, run_step(second, schedule[0].1), schedule.drop_first())
    }
}

/// The events of a schedule that are for one of the two runs, in order.
pub open spec fn events_for(schedule: Seq<(bool, ShimEventView)>, first: bool) -> Seq<
    ShimEventView,
>
    decreases schedule.len(),
{
    if schedule.len() == 0 {
        Seq::empty()
    } else if schedule[0].0 == first {
        seq![schedule[0].1] + events_for(schedule.drop_first(), first)
    } else {
        events_for(schedule.drop_first(), first)
    }
}

/// Two runs do not see each other: however their events are interleaved,
/// each ends as it would have ended alone on its own events.
pub proof fn lemma_runs_are_independent(
    first: ShimRun,
    second: ShimRun,
    schedule: Seq<(bool, ShimEventView)>,
)
    ensures
        pair_feed(first, second, schedule) == (
            run_feed(first, events_for(schedule, true)),
            run_feed(second, events_for(schedule, false)),
        ),
    decreases schedule.len(),
{
    if schedule.len() > 0 {
        let e = schedule[0].1;
        let rest = schedule.drop_first();
        if schedule[0].0 {
            lemma_runs_are_independent(run_step(first, e), second, rest);
            assert((seq![e] + events_for(rest, true)).drop_first() =~= events_for(rest, true));
        } else {
            lemma_runs_are_independent(first, run_step(second, e), rest);
            assert((seq![e] + events_for(rest, false)).drop_first() =~= events_for(rest, false));
        }
    }
}

/// Running two scripts at the same time or one after the other makes no
/// difference to either: two schedules that hold the same events for each
/// run, in the same order, end in the same pair of runs.
pub proof fn lemma_schedule_does_not_matter(
    first: ShimRun,
    second: ShimRun,
    one: Seq<(bool, ShimEventView)>,
    other: Seq<(bool, ShimEventView)>,
)
    requires
        events_for(one, true) == events_for(other, true),
        events_for(one, false) == events_for(other, false),
    ensures
        pair_feed(first, second, one) == pair_feed(first, second, other),
{
    lemma_runs_are_independent(first, second, one);
    lemma_runs_are_independent(first, second, other);
}

/// Running the same script again on the same events gives the same outcome:
/// a run starts from the script alone, and keeps nothing of a run before it.
pub proof fn lemma_rerun_gives_same_outcome(
    script: Seq<char>,
    earlier: Seq<ShimEventView>,
    events: Seq<ShimEventView>,
)
    ensures
        run_feed(run_fresh(script), events).outcome == run_feed(
            run_fresh(run_feed(run_fresh(script), earlier).state.script),
            events,
        ).outcome,
{
    lemma_script_is_kept(run_fresh(script), earlier);
}

/// No event changes the script that a run was begun with.
pub proof fn lemma_script_is_kept(run: ShimRun, events: Seq<ShimEventView>)
    ensures
        run_feed(run, events).state.script == run.state.script,
    decreases events.len(),
{
    if events.len() > 0 {
        lemma_script_is_kept(run_step(run, events[0]), events.drop_first());
    }
}

} // verus!
