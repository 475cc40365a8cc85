//! Runs of the driver over sequences of events, and what holds of every run.
use vstd::prelude::*;

use crate::condition::{satisfies, WaitSpec};
use crate::driver::{
    enter, initial_state, next, valid_state, ActionSpec, DriverState, EventSpec, Failure, Phase,
    StepSpec,
};
use crate::pattern::regex_finds;

verus! {

/// The state reached from `s` on `events`, and the actions asked for on the way.
pub open spec fn run(script: Seq<StepSpec>, s: DriverState, events: Seq<EventSpec>) -> (
    DriverState,
    Seq<ActionSpec>,
)
    decreases events.len(),
{
    if events.len() == 0 {
        (s, Seq::empty())
    } else {
        let (s1, a) = next(script, s, events[0]);
        let (s2, rest) = run(script, s1, events.drop_first());
        (s2, seq![a] + rest)
    }
}

/// The lines that `actions` send to the child, in order.
pub open spec fn sent_commands(actions: Seq<ActionSpec>) -> Seq<Seq<char>>
    decreases actions.len(),
{
    if actions.len() == 0 {
        Seq::empty()
    } else {
        let rest = sent_commands(actions.drop_first());
        match actions[0] {
            ActionSpec::Send(c) => seq![c] + rest,
            _ => rest,
        }
    }
}

/// The commands of a script, in the order they were authored.
pub open spec fn commands(script: Seq<StepSpec>) -> Seq<Seq<char>> {
    script.map_values(|st: StepSpec| st.command)
}

/// Each line read from the child, as an event.
pub open spec fn line_events(lines: Seq<Seq<char>>) -> Seq<EventSpec> {
    lines.map_values(|l: Seq<char>| EventSpec::LineRead(l))
}

/// `n` requests to read one more line.
pub open spec fn read_requests(n: nat) -> Seq<ActionSpec> {
    Seq::new(n, |k: int| ActionSpec::ReadLine)
}

/// The index of the next command that `s` may still send.
pub open spec fn next_command(script: Seq<StepSpec>, s: DriverState) -> nat {
    match s.phase {
        Phase::Spawning => 0,
        Phase::Writing => s.pos + 1,
        Phase::Reading => s.pos + 1,
        _ => script.len(),
    }
}

/// Whether a child may be alive and not yet waited for in phase `p`.
pub open spec fn child_pending(p: Phase) -> bool {
    p is Writing || p is Reading || p is Exiting || p is Reaping
}

proof fn lemma_next_valid(script: Seq<StepSpec>, s: DriverState, e: EventSpec)
    requires
        valid_state(script, s),
    ensures
        valid_state(script, next(script, s, e).0),
{
}

proof fn lemma_no_sends_after_last(script: Seq<StepSpec>, s: DriverState, events: Seq<EventSpec>)
    requires
        !(s.phase is Spawning || s.phase is Writing || s.phase is Reading),
    ensures
        sent_commands(run(script, s, events).1).len() == 0,
    decreases events.len(),
{
    if events.len() > 0 {
        let (s1, a) = next(script, s, events[0]);
        lemma_no_sends_after_last(script, s1, events.drop_first());
        let rest = run(script, s1, events.drop_first()).1;
        assert((seq![a] + rest).drop_first() =~= rest);
    }
}

proof fn lemma_sends_follow_script(script: Seq<StepSpec>, s: DriverState, events: Seq<EventSpec>)
    requires
        valid_state(script, s),
    ensures
        ({
            let out = sent_commands(run(script, s, events).1);
            let n = next_command(script, s);
            &&& n + out.len() <= script.len()
            &&& out == commands(script).subrange(n as int, (n + out.len()) as int)
        }),
    decreases events.len(),
{
    let n = next_command(script, s);
    if events.len() == 0 {
        assert(commands(script).subrange(n as int, n as int) =~= Seq::<Seq<char>>::empty());
    } else {
        let (s1, a) = next(script, s, events[0]);
        lemma_next_valid(script, s, events[0]);
        lemma_sends_follow_script(script, s1, events.drop_first());
        let rest = run(script, s1, events.drop_first()).1;
        let acts = seq![a] + rest;
        assert(acts.drop_first() =~= rest);
        assert(acts[0] == a);
        let n1 = next_command(script, s1);
        let out1 = sent_commands(rest);
        if a is Send {
            assert(n < script.len());
            assert(n1 == n + 1);
            assert(a->Send_0 == commands(script)[n as int]);
            assert(sent_commands(acts) =~= commands(script).subrange(
                n as int,
                (n + 1 + out1.len()) as int,
            ));
        } else if n1 != n {
            if s1.phase is Spawning || s1.phase is Writing || s1.phase is Reading {
                assert(false);
            }
            lemma_no_sends_after_last(script, s1, events.drop_first());
            assert(commands(script).subrange(n as int, n as int) =~= Seq::<Seq<char>>::empty());
        }
    }
}

/// Whatever the engine answers, a run from the start sends a prefix of the
/// script's commands, in the order they were authored: none is skipped,
/// repeated or reordered.
pub proof fn lemma_commands_in_script_order(script: Seq<StepSpec>, events: Seq<EventSpec>)
    ensures
        ({
            let out = sent_commands(run(script, initial_state(), events).1);
            &&& out.len() <= script.len()
            &&& out == commands(script).take(out.len() as int)
        }),
{
    lemma_sends_follow_script(script, initial_state(), events);
}

/// A command is sent only once the previous step is complete: the command
/// of step `i` goes out either right after step `i - 1` was written, when
/// that step awaits no reply, or on a line that meets the wait of step
/// `i - 1`.
pub proof fn lemma_send_after_prior_reply(script: Seq<StepSpec>, s: DriverState, e: EventSpec)
    requires
        valid_state(script, s),
        next(script, s, e).1 is Send,
    ensures
        ({
            let (s1, a) = next(script, s, e);
            &&& s1.phase is Writing
            &&& a->Send_0 == script[s1.pos as int].command
            &&& s1.pos == 0 ==> s.phase is Spawning && e is Spawned
            &&& s1.pos > 0 ==> s.pos + 1 == s1.pos
            &&& s1.pos > 0 ==> match script[s.pos as int].wait {
                None => s.phase is Writing && e is Written,
                Some(w) => s.phase is Reading && e is LineRead && satisfies(w, e->LineRead_0),
            }
        }),
{
}

proof fn lemma_wait_on_first_meeting_line(script: Seq<StepSpec>, s: DriverState, lines: Seq<Seq<char>>)
    requires
        valid_state(script, s),
        s.phase is Reading,
        lines.len() > 0,
        forall|k: int| 0 <= k < lines.len() - 1 ==> !satisfies(script[s.pos as int].wait->Some_0, #[trigger] lines[k]),
        satisfies(script[s.pos as int].wait->Some_0, lines.last()),
    ensures
        run(script, s, line_events(lines)) == (
            enter(script, s.pos + 1).0,
            read_requests((lines.len() - 1) as nat) + seq![enter(script, s.pos + 1).1],
        ),
    decreases lines.len(),
{
    let evs = line_events(lines);
    assert(evs[0] == EventSpec::LineRead(lines[0]));
    if lines.len() == 1 {
        assert(evs.drop_first() =~= Seq::<EventSpec>::empty());
        assert(lines.last() == lines[0]);
        assert(next(script, s, evs[0]) == enter(script, s.pos + 1));
        let following = enter(script, s.pos + 1).0;
        assert(run(script, following, evs.drop_first()) == (following, Seq::<ActionSpec>::empty()));
        assert(read_requests(0) + seq![enter(script, s.pos + 1).1] =~= seq![enter(script, s.pos + 1).1]);
        assert(seq![enter(script, s.pos + 1).1] + Seq::<ActionSpec>::empty() =~= seq![enter(script, s.pos + 1).1]);
    } else {
        let rest = lines.drop_first();
        assert(!satisfies(script[s.pos as int].wait->Some_0, lines[0]));
        assert forall|k: int| 0 <= k < rest.len() - 1 implies !satisfies(script[s.pos as int].wait->Some_0, #[trigger] rest[k]) by {
            assert(rest[k] == lines[k + 1]);
        }
        assert(rest.last() == lines.last());
        assert(evs.drop_first() =~= line_events(rest));
        lemma_wait_on_first_meeting_line(script, s, rest);
        assert(next(script, s, evs[0]) == (s, ActionSpec::ReadLine));
        assert(seq![ActionSpec::ReadLine] + (read_requests((rest.len() - 1) as nat) + seq![enter(script, s.pos + 1).1])
            =~= read_requests((lines.len() - 1) as nat) + seq![enter(script, s.pos + 1).1]);
    }
}

/// A wait for an exact line reads past every line that differs from it, by
/// as little as its terminator, and ends on the first line equal to it:
/// the run then moves on to the next step.
pub proof fn lemma_exact_wait(script: Seq<StepSpec>, s: DriverState, lines: Seq<Seq<char>>, expected: Seq<char>)
    requires
        valid_state(script, s),
        s.phase is Reading,
        script[s.pos as int].wait == Some(WaitSpec::Exact(expected)),
        lines.len() > 0,
        forall|k: int| 0 <= k < lines.len() - 1 ==> #[trigger] lines[k] != expected,
        lines.last() == expected,
    ensures
        run(script, s, line_events(lines)) == (
            enter(script, s.pos + 1).0,
            read_requests((lines.len() - 1) as nat) + seq![enter(script, s.pos + 1).1],
        ),
{
    lemma_wait_on_first_meeting_line(script, s, lines);
}

/// A wait for a pattern reads past every line in which the pattern is not
/// found, and ends on the first line that contains a match anywhere.
pub proof fn lemma_pattern_wait(script: Seq<StepSpec>, s: DriverState, lines: Seq<Seq<char>>, source: Seq<char>)
    requires
        valid_state(script, s),
        s.phase is Reading,
        script[s.pos as int].wait == Some(WaitSpec::Matches(source)),
        lines.len() > 0,
        forall|k: int| 0 <= k < lines.len() - 1 ==> !regex_finds(source, #[trigger] lines[k]),
        regex_finds(source, lines.last()),
    ensures
        run(script, s, line_events(lines)) == (
            enter(script, s.pos + 1).0,
            read_requests((lines.len() - 1) as nat) + seq![enter(script, s.pos + 1).1],
        ),
{
    lemma_wait_on_first_meeting_line(script, s, lines);
}

/// A run never ends while a child it started may still be running: it ends
/// only from the wait for the child's exit or from reaping it after a
/// failure, and it asks for that wait or that reaping on entering those
/// phases. A run that ends straight from launching failed to launch.
pub proof fn lemma_child_waited_before_end(script: Seq<StepSpec>, s: DriverState, e: EventSpec)
    requires
        valid_state(script, s),
    ensures
        ({
            let (s1, a) = next(script, s, e);
            &&& (a is Finish || a is Abort) <==> (s1.phase is Done || s1.phase is Aborted)
            &&& child_pending(s.phase) && (a is Finish || a is Abort) ==> (s.phase is Exiting || s.phase is Reaping)
            &&& s.phase is Spawning && a is Abort ==> a == ActionSpec::Abort(Failure::Spawn)
            &&& s1.phase is Exiting && !(s.phase is Exiting) ==> a == ActionSpec::WaitExit
            &&& s1.phase is Reaping && !(s.phase is Reaping) ==> a == ActionSpec::Reap
            &&& child_pending(s.phase) ==> child_pending(s1.phase) || s1.phase is Done || s1.phase is Aborted
        }),
{
}

/// Whether `a` ends the run.
pub open spec fn is_final(a: ActionSpec) -> bool {
    a is Finish || a is Abort
}

proof fn lemma_final_stays_final(script: Seq<StepSpec>, s: DriverState, events: Seq<EventSpec>)
    requires
        s.phase is Done || s.phase is Aborted,
    ensures
        forall|i: int| 0 <= i < run(script, s, events).1.len() ==> is_final(#[trigger] run(script, s, events).1[i]),
    decreases events.len(),
{
    if events.len() > 0 {
        let (s1, a) = next(script, s, events[0]);
        lemma_final_stays_final(script, s1, events.drop_first());
        let rest = run(script, s1, events.drop_first()).1;
        assert forall|i: int| 0 <= i < run(script, s, events).1.len() implies is_final(#[trigger] run(script, s, events).1[i]) by {
            if i > 0 {
                assert(run(script, s, events).1[i] == rest[i - 1]);
            }
        }
    }
}

proof fn lemma_end_follows_wait(script: Seq<StepSpec>, s: DriverState, events: Seq<EventSpec>)
    requires
        valid_state(script, s),
        !(s.phase is Done || s.phase is Aborted),
    ensures
        ({
            let acts = run(script, s, events).1;
            &&& acts.len() > 0 && is_final(acts[0]) ==> (s.phase is Exiting || s.phase is Reaping
                || (s.phase is Spawning && acts[0] == ActionSpec::Abort(Failure::Spawn)))
            &&& forall|i: int| 0 < i < acts.len() && is_final(#[trigger] acts[i]) && !is_final(acts[i - 1])
                ==> (acts[i - 1] is WaitExit || acts[i - 1] is Reap)
        }),
    decreases events.len(),
{
    if events.len() > 0 {
        let (s1, a) = next(script, s, events[0]);
        lemma_child_waited_before_end(script, s, events[0]);
        lemma_next_valid(script, s, events[0]);
        let rest = run(script, s1, events.drop_first()).1;
        let acts = run(script, s, events).1;
        assert(acts == seq![a] + rest);
        if s1.phase is Done || s1.phase is Aborted {
            lemma_final_stays_final(script, s1, events.drop_first());
            assert forall|i: int| 0 < i < acts.len() && is_final(#[trigger] acts[i]) && !is_final(acts[i - 1])
                implies (acts[i - 1] is WaitExit || acts[i - 1] is Reap) by {
                assert(acts[i - 1] == a || acts[i - 1] == rest[i - 2]);
            }
        } else {
            lemma_end_follows_wait(script, s1, events.drop_first());
            assert forall|i: int| 0 < i < acts.len() && is_final(#[trigger] acts[i]) && !is_final(acts[i - 1])
                implies (acts[i - 1] is WaitExit || acts[i - 1] is Reap) by {
                assert(acts[i] == rest[i - 1]);
                if i > 1 {
                    assert(acts[i - 1] == rest[i - 2]);
                } else {
                    assert(acts[i - 1] == a);
                    assert(s1.phase is Exiting || s1.phase is Reaping);
                }
            }
        }
    }
}

/// A run from the start never ends while a child it launched may still be
/// running: the action just before the first ending is a wait for the
/// child's exit or the reaping of the child, unless the very first event
/// reports that the launch failed, in which case no child exists.
pub proof fn lemma_run_ends_after_child_wait(script: Seq<StepSpec>, events: Seq<EventSpec>)
    ensures
        ({
            let acts = run(script, initial_state(), events).1;
            &&& acts.len() > 0 && is_final(acts[0]) ==> acts[0] == ActionSpec::Abort(Failure::Spawn)
            &&& forall|i: int| 0 < i < acts.len() && is_final(#[trigger] acts[i]) && !is_final(acts[i - 1])
                ==> (acts[i - 1] is WaitExit || acts[i - 1] is Reap)
        }),
{
    lemma_end_follows_wait(script, initial_state(), events);
}

} // verus!
