//! What holds of every run of a supervisor.

use vstd::prelude::*;

use crate::supervisor::{
    answers, next, pending, EventView, PSubInput, Phase, Request, SignalView, StepView,
    SupervisorView,
};

verus! {

/// The events of a step: one or none.
pub open spec fn emitted(step: StepView) -> Seq<EventView> {
    match step.emit {
        Some(e) => seq![e],
        None => Seq::empty(),
    }
}

/// The supervisor after a sequence of signals, and the events sent on the
/// way, in their order.
pub open spec fn run(s: SupervisorView, signals: Seq<SignalView>) -> (
    SupervisorView,
    Seq<EventView>,
)
    decreases signals.len(),
{
    if signals.len() == 0 {
        (s, Seq::empty())
    } else {
        let (s1, step) = next(s, signals[0]);
        let (s2, events) = run(s1, signals.drop_first());
        (s2, emitted(step) + events)
    }
}

/// Every signal of the sequence reports the outcome of the work that the
/// supervisor was waiting for when it came.
pub open spec fn well_answered(s: SupervisorView, signals: Seq<SignalView>) -> bool
    decreases signals.len(),
{
    signals.len() == 0 || (answers(pending(s.phase), signals[0]) && well_answered(
        next(s, signals[0]).0,
        signals.drop_first(),
    ))
}

/// The texts of a sequence one after the other.
pub open spec fn joined(texts: Seq<Seq<char>>) -> Seq<char>
    decreases texts.len(),
{
    if texts.len() == 0 {
        Seq::empty()
    } else {
        texts[0] + joined(texts.drop_first())
    }
}

/// The events are output of the given slot, followed by the one notice that
/// its process has ended.
pub open spec fn ends_with_notice(events: Seq<EventView>, slot: usize) -> bool {
    &&& events.len() >= 1
    &&& events.last() == EventView::ProcessEnded(slot)
    &&& forall|i: int|
        0 <= i < events.len() - 1 ==> (#[trigger] events[i]) is GotLogs && events[i]->GotLogs_0
            == slot
}

/// The event that hands over collected output: none where there is none.
pub open spec fn log_report(slot: usize, logs: Seq<char>) -> Seq<EventView> {
    if logs.len() > 0 {
        seq![EventView::GotLogs(slot, logs)]
    } else {
        Seq::empty()
    }
}

/// Each step asks for the work that the new phase waits for.
pub proof fn lemma_request_is_pending(s: SupervisorView, signal: SignalView)
    ensures
        next(s, signal).1.request == pending(next(s, signal).0.phase),
        next(s, signal).0.slot == s.slot,
        next(s, signal).0.drain_limit == s.drain_limit,
{
}

/// A signal that does not answer the pending work changes nothing and sends
/// nothing.
pub proof fn lemma_stray_signal(s: SupervisorView, signal: SignalView)
    requires
        !answers(pending(s.phase), signal),
    ensures
        next(s, signal) == (s, StepView { emit: None, request: pending(s.phase) }),
{
}

/// A stopped supervisor stays stopped and sends nothing, whatever it is told.
pub proof fn lemma_ended_is_silent(s: SupervisorView, signals: Seq<SignalView>)
    requires
        s.phase == Phase::Ended,
    ensures
        run(s, signals) == (s, Seq::<EventView>::empty()),
    decreases signals.len(),
{
    if signals.len() > 0 {
        lemma_ended_is_silent(s, signals.drop_first());
    }
}

/// The handshake: the first event of a supervisor is `Ready` for its slot,
/// sent when the child was spawned; where the spawn failed the supervisor
/// stops without any event.
pub proof fn lemma_handshake(s: SupervisorView, spawned: bool)
    requires
        s.phase == Phase::Starting,
    ensures
        spawned ==> next(s, SignalView::Spawned(true)) == (
            SupervisorView { phase: Phase::Ready, ..s },
            StepView { emit: Some(EventView::Ready(s.slot)), request: Request::AwaitInput },
        ),
        !spawned ==> next(s, SignalView::Spawned(false)) == (
            SupervisorView { phase: Phase::Ended, ..s },
            StepView { emit: None, request: Request::Stop },
        ),
{
}

/// `Ready` is sent by the step that leaves `Starting`, and by no other.
pub proof fn lemma_ready_only_at_start(s: SupervisorView, signal: SignalView)
    ensures
        next(s, signal).1.emit is Some && next(s, signal).1.emit.unwrap() is Ready ==> s.phase
            == Phase::Starting && next(s, signal).0.phase == Phase::Ready,
{
}

/// `ProcessEnded` is sent by the step that stops the supervisor, and a step
/// that stops a spawned supervisor sends it.
pub proof fn lemma_notice_only_at_end(s: SupervisorView, signal: SignalView)
    ensures
        next(s, signal).1.emit == Some(EventView::ProcessEnded(s.slot)) <==> (s.phase
            != Phase::Starting && s.phase != Phase::Ended && next(s, signal).0.phase
            == Phase::Ended),
        next(s, signal).1.emit is Some && next(s, signal).1.emit.unwrap() is ProcessEnded ==> next(
            s,
            signal,
        ).1.emit == Some(EventView::ProcessEnded(s.slot)),
{
}

/// While output is collected for a `ReadInput`: after any number of reads
/// that brought text, a read that brought nothing hands over the collected
/// text in one event, if there is any.
pub proof fn lemma_collect(s: SupervisorView, texts: Seq<Seq<char>>, rest: Seq<SignalView>)
    requires
        s.phase == Phase::Reading,
    ensures
        run(s, texts.map_values(|t: Seq<char>| SignalView::Text(t)) + seq![SignalView::Drained] + rest)
            == ({
            let after = SupervisorView { phase: Phase::ExitCheck, logs: Seq::empty(), ..s };
            let (end, events) = run(after, rest);
            (end, log_report(s.slot, s.logs + joined(texts)) + events)
        }),
    decreases texts.len(),
{
    let signals = texts.map_values(|t: Seq<char>| SignalView::Text(t)) + seq![SignalView::Drained]
        + rest;
    if texts.len() == 0 {
        assert(signals.drop_first() =~= rest);
        assert(s.logs + joined(texts) =~= s.logs);
    } else {
        let s1 = SupervisorView { logs: s.logs + texts[0], ..s };
        let tail = texts.drop_first();
        assert(signals[0] == SignalView::Text(texts[0]));
        assert(signals.drop_first() =~= tail.map_values(|t: Seq<char>| SignalView::Text(t))
            + seq![SignalView::Drained] + rest);
        lemma_collect(s1, tail, rest);
        assert(s1.logs + joined(tail) =~= s.logs + joined(texts));
        assert(Seq::<EventView>::empty() + run(s1, signals.drop_first()).1 =~= run(
            s1,
            signals.drop_first(),
        ).1);
    }
}

/// A `ReadInput` to a supervisor whose child has exited: whatever the reads
/// bring, the caller gets the collected output in at most one `GotLogs`, then
/// `ProcessEnded`, and nothing after that.
pub proof fn lemma_read_input_after_exit(
    s: SupervisorView,
    texts: Seq<Seq<char>>,
    rest: Seq<SignalView>,
)
    requires
        s.phase == Phase::Ready,
    ensures
        run(
            s,
            seq![SignalView::Input(PSubInput::ReadInput)] + texts.map_values(
                |t: Seq<char>| SignalView::Text(t),
            ) + seq![SignalView::Drained] + seq![SignalView::Exit(true)] + rest,
        ) == (
            SupervisorView { phase: Phase::Ended, logs: Seq::empty(), ..s },
            log_report(s.slot, joined(texts)) + seq![EventView::ProcessEnded(s.slot)],
        ),
{
    let reads = texts.map_values(|t: Seq<char>| SignalView::Text(t));
    let signals = seq![SignalView::Input(PSubInput::ReadInput)] + reads + seq![SignalView::Drained]
        + seq![SignalView::Exit(true)] + rest;
    let s1 = SupervisorView { phase: Phase::Reading, logs: Seq::empty(), ..s };
    let tail = seq![SignalView::Exit(true)] + rest;
    assert(signals.drop_first() =~= reads + seq![SignalView::Drained] + tail);
    lemma_collect(s1, texts, tail);
    let s2 = SupervisorView { phase: Phase::ExitCheck, logs: Seq::empty(), ..s };
    let s3 = SupervisorView { phase: Phase::Ended, logs: Seq::empty(), ..s };
    assert(tail.drop_first() =~= rest);
    lemma_ended_is_silent(s3, rest);
    assert(run(s2, tail) == (s3, seq![EventView::ProcessEnded(s.slot)] + Seq::<EventView>::empty()));
    assert(Seq::<char>::empty() + joined(texts) =~= joined(texts));
    assert(run(s, signals).1 =~= log_report(s.slot, joined(texts)) + seq![
        EventView::ProcessEnded(s.slot),
    ]);
}

/// A `ReadInput` to a supervisor whose child still runs: the caller gets the
/// collected output in at most one `GotLogs`, and the supervisor waits for
/// the next request.
pub proof fn lemma_read_input_while_running(s: SupervisorView, texts: Seq<Seq<char>>)
    requires
        s.phase == Phase::Ready,
    ensures
        run(
            s,
            seq![SignalView::Input(PSubInput::ReadInput)] + texts.map_values(
                |t: Seq<char>| SignalView::Text(t),
            ) + seq![SignalView::Drained] + seq![SignalView::Exit(false)],
        ) == (
            SupervisorView { phase: Phase::Ready, logs: Seq::empty(), ..s },
            log_report(s.slot, joined(texts)),
        ),
{
    let reads = texts.map_values(|t: Seq<char>| SignalView::Text(t));
    let signals = seq![SignalView::Input(PSubInput::ReadInput)] + reads + seq![SignalView::Drained]
        + seq![SignalView::Exit(false)];
    let s1 = SupervisorView { phase: Phase::Reading, logs: Seq::empty(), ..s };
    let tail = seq![SignalView::Exit(false)];
    assert(signals.drop_first() =~= reads + seq![SignalView::Drained] + tail);
    lemma_collect(s1, texts, tail);
    let s2 = SupervisorView { phase: Phase::ExitCheck, logs: Seq::empty(), ..s };
    let s3 = SupervisorView { phase: Phase::Ready, logs: Seq::empty(), ..s };
    assert(tail.drop_first().len() == 0);
    assert(run(s3, tail.drop_first()) == (s3, Seq::<EventView>::empty()));
    assert(next(s2, tail[0]).0 == s3);
    assert(run(s2, tail) == (s3, Seq::<EventView>::empty() + Seq::<EventView>::empty()));
    assert(Seq::<char>::empty() + joined(texts) =~= joined(texts));
    assert(run(s, signals).1 =~= log_report(s.slot, joined(texts)));
}

/// While a `Terminate` is served: once as many signals have answered as
/// reads are left, and one more, the supervisor has stopped, and it has sent
/// output events followed by exactly one `ProcessEnded`.
pub proof fn lemma_drain_then_kill(s: SupervisorView, signals: Seq<SignalView>)
    requires
        s.phase == Phase::Terminating && s.rounds_left >= 1 || s.phase == Phase::Killing,
        well_answered(s, signals),
        s.phase == Phase::Terminating ==> signals.len() >= s.rounds_left + 1,
        s.phase == Phase::Killing ==> signals.len() >= 1,
    ensures
        run(s, signals).0.phase == Phase::Ended,
        ends_with_notice(run(s, signals).1, s.slot),
        run(s, signals).1.len() <= (if s.phase == Phase::Terminating {
            s.rounds_left + 1
        } else {
            1
        }),
    decreases signals.len(),
{
    let (s1, step) = next(s, signals[0]);
    let tail = signals.drop_first();
    if s1.phase == Phase::Ended {
        lemma_ended_is_silent(s1, tail);
        assert(run(s, signals).1 =~= seq![EventView::ProcessEnded(s.slot)]);
    } else {
        lemma_drain_then_kill(s1, tail);
        let events = run(s1, tail).1;
        let all = run(s, signals).1;
        assert(all == emitted(step) + events);
        assert(all.last() == events.last());
        assert forall|i: int| 0 <= i < all.len() - 1 implies (#[trigger] all[i]) is GotLogs
            && all[i]->GotLogs_0 == s.slot by {
            if i >= emitted(step).len() {
                assert(all[i] == events[i - emitted(step).len()]);
            }
        }
    }
}

/// A `Terminate` always ends in `ProcessEnded`: whatever the reads bring and
/// whether or not the kill succeeds, once the outside work has been done the
/// supervisor has stopped, the last event is the one `ProcessEnded` for its
/// slot, and the events before it carry output. At most `drain_limit` such
/// events come before it.
pub proof fn lemma_terminate_always_ends(s: SupervisorView, signals: Seq<SignalView>)
    requires
        s.phase == Phase::Ready,
        signals.len() >= s.drain_limit + 2,
        signals[0] == SignalView::Input(PSubInput::Terminate),
        well_answered(s, signals),
    ensures
        run(s, signals).0.phase == Phase::Ended,
        ends_with_notice(run(s, signals).1, s.slot),
        run(s, signals).1.len() <= s.drain_limit + 1,
{
    let (s1, step) = next(s, signals[0]);
    lemma_drain_then_kill(s1, signals.drop_first());
    assert(run(s, signals).1 =~= run(s1, signals.drop_first()).1);
}

/// A `Terminate` to a supervisor whose child wrote nothing: the one event is
/// `ProcessEnded`.
pub proof fn lemma_terminate_without_output(s: SupervisorView, killed: bool, rest: Seq<SignalView>)
    requires
        s.phase == Phase::Ready,
        s.drain_limit >= 1,
    ensures
        run(
            s,
            seq![
                SignalView::Input(PSubInput::Terminate),
                SignalView::Drained,
                SignalView::Killed(killed),
            ] + rest,
        ).1 == seq![EventView::ProcessEnded(s.slot)],
{
    let signals = seq![
        SignalView::Input(PSubInput::Terminate),
        SignalView::Drained,
        SignalView::Killed(killed),
    ] + rest;
    let s1 = next(s, signals[0]).0;
    let t1 = signals.drop_first();
    let s2 = next(s1, t1[0]).0;
    let t2 = t1.drop_first();
    let s3 = next(s2, t2[0]).0;
    assert(t2.drop_first() =~= rest);
    lemma_ended_is_silent(s3, rest);
    assert(run(s2, t2).1 =~= seq![EventView::ProcessEnded(s.slot)]);
    assert(run(s1, t1).1 =~= seq![EventView::ProcessEnded(s.slot)]);
    assert(run(s, signals).1 =~= seq![EventView::ProcessEnded(s.slot)]);
}

/// The events are those of a running child: output of the given slot, and
/// at most one notice of the end, which then comes last.
pub open spec fn is_session(events: Seq<EventView>, slot: usize) -> bool {
    forall|i: int|
        0 <= i < events.len() ==> ((#[trigger] events[i]) is GotLogs && events[i]->GotLogs_0
            == slot) || (i == events.len() - 1 && events[i] == EventView::ProcessEnded(slot))
}

/// Once the child runs, whatever the supervisor is told, it sends output of
/// its slot and at most one `ProcessEnded`, and nothing after that one. It
/// has stopped exactly if it has sent `ProcessEnded`.
pub proof fn lemma_session(s: SupervisorView, signals: Seq<SignalView>)
    requires
        s.phase != Phase::Starting,
        s.phase != Phase::Ended,
    ensures
        is_session(run(s, signals).1, s.slot),
        run(s, signals).0.phase == Phase::Ended <==> (run(s, signals).1.len() > 0 && run(
            s,
            signals,
        ).1.last() == EventView::ProcessEnded(s.slot)),
    decreases signals.len(),
{
    if signals.len() > 0 {
        let (s1, step) = next(s, signals[0]);
        let tail = signals.drop_first();
        let events = run(s1, tail).1;
        let all = run(s, signals).1;
        assert(all == emitted(step) + events);
        if s1.phase == Phase::Ended {
            lemma_ended_is_silent(s1, tail);
            assert(all =~= seq![EventView::ProcessEnded(s.slot)]);
        } else {
            lemma_session(s1, tail);
            assert forall|i: int| 0 <= i < all.len() implies ((#[trigger] all[i]) is GotLogs
                && all[i]->GotLogs_0 == s.slot) || (i == all.len() - 1 && all[i]
                == EventView::ProcessEnded(s.slot)) by {
                if i >= emitted(step).len() {
                    assert(all[i] == events[i - emitted(step).len()]);
                }
            }
            if events.len() > 0 {
                assert(all.last() == events.last());
            }
        }
    }
}

/// The whole life of a supervisor, whatever it is told: either it sends
/// nothing at all, or its first event is `Ready` for its slot and the events
/// after that are output of the slot and at most one `ProcessEnded`, which
/// then comes last. No second `Ready` is ever sent.
pub proof fn lemma_protocol(s: SupervisorView, signals: Seq<SignalView>)
    requires
        s.phase == Phase::Starting,
    ensures
        run(s, signals).1.len() == 0 || (run(s, signals).1[0] == EventView::Ready(s.slot)
            && is_session(run(s, signals).1.drop_first(), s.slot)),
    decreases signals.len(),
{
    if signals.len() > 0 {
        let (s1, step) = next(s, signals[0]);
        let tail = signals.drop_first();
        let all = run(s, signals).1;
        if s1.phase == Phase::Starting {
            lemma_protocol(s1, tail);
            assert(all =~= run(s1, tail).1);
        } else if s1.phase == Phase::Ended {
            lemma_ended_is_silent(s1, tail);
            assert(all =~= Seq::<EventView>::empty());
        } else {
            lemma_session(s1, tail);
            assert(all =~= seq![EventView::Ready(s.slot)] + run(s1, tail).1);
            assert(all.drop_first() =~= run(s1, tail).1);
        }
    }
}

/// The events that hand over texts one by one.
pub open spec fn log_events(slot: usize, texts: Seq<Seq<char>>) -> Seq<EventView> {
    Seq::new(texts.len(), |i: int| EventView::GotLogs(slot, texts[i]))
}

/// While a `Terminate` is served and the output runs dry before the reads
/// are used up, every text that was read is handed over, in its order, and
/// then the child is killed.
pub proof fn lemma_drain_hands_over(
    s: SupervisorView,
    texts: Seq<Seq<char>>,
    killed: bool,
    rest: Seq<SignalView>,
)
    requires
        s.phase == Phase::Terminating,
        texts.len() < s.rounds_left,
    ensures
        run(
            s,
            texts.map_values(|t: Seq<char>| SignalView::Text(t)) + seq![
                SignalView::Drained,
                SignalView::Killed(killed),
            ] + rest,
        ).1 == log_events(s.slot, texts) + seq![EventView::ProcessEnded(s.slot)],
        run(
            s,
            texts.map_values(|t: Seq<char>| SignalView::Text(t)) + seq![
                SignalView::Drained,
                SignalView::Killed(killed),
            ] + rest,
        ).0.phase == Phase::Ended,
    decreases texts.len(),
{
    let reads = texts.map_values(|t: Seq<char>| SignalView::Text(t));
    let signals = reads + seq![SignalView::Drained, SignalView::Killed(killed)] + rest;
    if texts.len() == 0 {
        let s1 = next(s, signals[0]).0;
        let t1 = signals.drop_first();
        let s2 = next(s1, t1[0]).0;
        assert(t1.drop_first() =~= rest);
        lemma_ended_is_silent(s2, rest);
        assert(run(s1, t1).1 =~= seq![EventView::ProcessEnded(s.slot)]);
        assert(run(s, signals).1 =~= log_events(s.slot, texts) + seq![
            EventView::ProcessEnded(s.slot),
        ]);
    } else {
        let s1 = next(s, signals[0]).0;
        let tail = texts.drop_first();
        assert(signals[0] == SignalView::Text(texts[0]));
        assert(signals.drop_first() =~= tail.map_values(|t: Seq<char>| SignalView::Text(t))
            + seq![SignalView::Drained, SignalView::Killed(killed)] + rest);
        lemma_drain_hands_over(s1, tail, killed, rest);
        assert(run(s, signals).1 =~= seq![EventView::GotLogs(s.slot, texts[0])] + run(
            s1,
            signals.drop_first(),
        ).1);
        assert(seq![EventView::GotLogs(s.slot, texts[0])] + (log_events(s.slot, tail) + seq![
            EventView::ProcessEnded(s.slot),
        ]) =~= log_events(s.slot, texts) + seq![EventView::ProcessEnded(s.slot)]);
    }
}

/// No output is lost on a `Terminate` that finds the output dry within its
/// limit of reads: every text that was read reaches the caller, each in an
/// event of its own and in its order, before the one `ProcessEnded`. With
/// more output than the limit allows, the reads stop at the limit.
pub proof fn lemma_terminate_flushes(
    s: SupervisorView,
    texts: Seq<Seq<char>>,
    killed: bool,
    rest: Seq<SignalView>,
)
    requires
        s.phase == Phase::Ready,
        texts.len() < s.drain_limit,
    ensures
        run(
            s,
            seq![SignalView::Input(PSubInput::Terminate)] + texts.map_values(
                |t: Seq<char>| SignalView::Text(t),
            ) + seq![SignalView::Drained, SignalView::Killed(killed)] + rest,
        ).1 == log_events(s.slot, texts) + seq![EventView::ProcessEnded(s.slot)],
{
    let reads = texts.map_values(|t: Seq<char>| SignalView::Text(t));
    let signals = seq![SignalView::Input(PSubInput::Terminate)] + reads + seq![
        SignalView::Drained,
        SignalView::Killed(killed),
    ] + rest;
    let s1 = next(s, signals[0]).0;
    assert(signals.drop_first() =~= reads + seq![SignalView::Drained, SignalView::Killed(killed)]
        + rest);
    lemma_drain_hands_over(s1, texts, killed, rest);
    assert(run(s, signals).1 =~= run(s1, signals.drop_first()).1);
}

} // verus!
