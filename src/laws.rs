use vstd::prelude::*;
use crate::error::ErrorView;
use crate::invocation::{
    next, protocol_violation_message, stage_after, trace, ActionView, Event, Stage, Target,
};
use crate::names::{class_key, class_not_found_message, exception_message, method_key, void_signature};

verus! {

/// The events of a call whose method returns normally.
pub open spec fn normal_run() -> Seq<Event> {
    seq![
        Event::Environment { available: true },
        Event::ClassLookup { found: true },
        Event::MethodLookup { found: true },
        Event::Returned,
        Event::ExceptionCheck { pending: false },
    ]
}

/// The events of a call whose method throws.
pub open spec fn throwing_run() -> Seq<Event> {
    seq![
        Event::Environment { available: true },
        Event::ClassLookup { found: true },
        Event::MethodLookup { found: true },
        Event::Returned,
        Event::ExceptionCheck { pending: true },
        Event::ExceptionCleared,
    ]
}

/// The events of a call whose class is not found, followed by `later`.
pub open spec fn missing_class_run(later: Seq<Event>) -> Seq<Event> {
    seq![Event::Environment { available: true }, Event::ClassLookup { found: false }] + later
}

/// Once finished, an invocation stays finished and answers every event with
/// an abort: it reports nothing more.
pub proof fn lemma_finished_is_final(t: Target, events: Seq<Event>)
    ensures
        stage_after(t, Stage::Finished, events) == Stage::Finished,
        trace(t, Stage::Finished, events).len() == events.len(),
        forall|i: int|
            0 <= i < events.len() ==> #[trigger] trace(t, Stage::Finished, events)[i]
                == (ActionView::Abort { message: protocol_violation_message() }),
    decreases events.len(),
{
    if events.len() > 0 {
        lemma_finished_is_final(t, events.drop_first());
        assert forall|i: int| 0 <= i < events.len() implies #[trigger] trace(
            t,
            Stage::Finished,
            events,
        )[i] == (ActionView::Abort { message: protocol_violation_message() }) by {
            if i > 0 {
                assert(trace(t, Stage::Finished, events)[i] == trace(
                    t,
                    Stage::Finished,
                    events.drop_first(),
                )[i - 1]);
            }
        }
    }
}

/// A trace has one action per event.
pub proof fn lemma_trace_len(t: Target, stage: Stage, events: Seq<Event>)
    ensures
        trace(t, stage, events).len() == events.len(),
    decreases events.len(),
{
    if events.len() > 0 {
        lemma_trace_len(t, next(t, stage, events[0]).0, events.drop_first());
    }
}

/// An invocation reports its outcome at most once, and never after it
/// aborted: whatever events follow a report or an abort, no report comes.
pub proof fn lemma_outcome_at_most_once(t: Target, stage: Stage, events: Seq<Event>)
    ensures
        forall|i: int, j: int|
            #![trigger trace(t, stage, events)[i], trace(t, stage, events)[j]]
            0 <= i < j < trace(t, stage, events).len() && (trace(t, stage, events)[i] is Report
                || trace(t, stage, events)[i] is Abort) ==> !(trace(t, stage, events)[j] is Report),
    decreases events.len(),
{
    if events.len() > 0 {
        let (s, a) = next(t, stage, events[0]);
        let rest = events.drop_first();
        let tr = trace(t, stage, events);
        lemma_outcome_at_most_once(t, s, rest);
        lemma_finished_is_final(t, rest);
        lemma_trace_len(t, s, rest);
        assert forall|i: int, j: int|
            #![trigger tr[i], tr[j]]
            0 <= i < j < tr.len() && (tr[i] is Report || tr[i] is Abort) implies !(
            tr[j] is Report) by {
            assert(tr[j] == trace(t, s, rest)[j - 1]);
            if i > 0 {
                assert(tr[i] == trace(t, s, rest)[i - 1]);
            } else {
                assert(s == Stage::Finished);
            }
        }
    }
}

/// A method that returns normally is looked up, called, checked for a pending
/// exception, and reported as a success; the invocation is then over.
pub proof fn lemma_normal_return_succeeds(t: Target)
    ensures
        trace(t, Stage::Idle, normal_run()) == seq![
            ActionView::FindClass { key: class_key(t.package, t.class) },
            ActionView::GetStaticMethodId { name: method_key(t.method), signature: void_signature() },
            ActionView::CallStaticVoidMethod,
            ActionView::CheckException,
            ActionView::Report(Ok(())),
        ],
        stage_after(t, Stage::Idle, normal_run()) == Stage::Finished,
{
    let ev = normal_run();
    reveal_with_fuel(trace, 6);
    reveal_with_fuel(stage_after, 6);
    assert(ev.drop_first().drop_first().drop_first().drop_first().drop_first() =~= seq![]);
    assert(trace(t, Stage::Idle, ev) =~= seq![
        ActionView::FindClass { key: class_key(t.package, t.class) },
        ActionView::GetStaticMethodId { name: method_key(t.method), signature: void_signature() },
        ActionView::CallStaticVoidMethod,
        ActionView::CheckException,
        ActionView::Report(Ok(())),
    ]);
}

/// Success is reported only on the answer that no exception is pending, and
/// an error only once the pending exception was cleared.
pub proof fn lemma_reports_follow_exception_check(t: Target, stage: Stage, e: Event)
    ensures
        next(t, stage, e).1 == ActionView::Report(Ok(())) <==> (stage == Stage::CheckingException
            && e == (Event::ExceptionCheck { pending: false })),
        next(t, stage, e).1 matches ActionView::Report(Err(_)) <==> (stage
            == Stage::ClearingException && e == Event::ExceptionCleared),
{
}

/// A method that throws has its exception described and cleared, and is then
/// reported as an error whose message holds the class name and, after a dot,
/// the method name.
pub proof fn lemma_exception_reported(t: Target)
    ensures
        trace(t, Stage::Idle, throwing_run()) == seq![
            ActionView::FindClass { key: class_key(t.package, t.class) },
            ActionView::GetStaticMethodId { name: method_key(t.method), signature: void_signature() },
            ActionView::CallStaticVoidMethod,
            ActionView::CheckException,
            ActionView::DescribeAndClearException,
            ActionView::Report(Err(ErrorView::Unknown(exception_message(t.class, t.method)))),
        ],
        stage_after(t, Stage::Idle, throwing_run()) == Stage::Finished,
        exception_message(t.class, t.method).subrange(0, t.class.len() as int) == t.class,
        exception_message(t.class, t.method).subrange(
            t.class.len() + 1 as int,
            t.class.len() + 1 + t.method.len() as int,
        ) == t.method,
{
    let ev = throwing_run();
    reveal_with_fuel(trace, 7);
    reveal_with_fuel(stage_after, 7);
    reveal_strlit(".");
    assert(ev.drop_first().drop_first().drop_first().drop_first().drop_first().drop_first()
        =~= seq![]);
    assert(trace(t, Stage::Idle, ev) =~= seq![
        ActionView::FindClass { key: class_key(t.package, t.class) },
        ActionView::GetStaticMethodId { name: method_key(t.method), signature: void_signature() },
        ActionView::CallStaticVoidMethod,
        ActionView::CheckException,
        ActionView::DescribeAndClearException,
        ActionView::Report(Err(ErrorView::Unknown(exception_message(t.class, t.method)))),
    ]);
    let m = exception_message(t.class, t.method);
    assert(m.subrange(0, t.class.len() as int) =~= t.class);
    assert(m.subrange(t.class.len() + 1 as int, t.class.len() + 1 + t.method.len() as int) =~= t.method);
}

/// A class that cannot be found aborts the invocation, whatever events come
/// after: it is never reported as a recoverable error.
pub proof fn lemma_missing_class_aborts(t: Target, later: Seq<Event>)
    ensures
        trace(t, Stage::Idle, missing_class_run(later))[1]
            == (ActionView::Abort { message: class_not_found_message(t.package, t.class) }),
        forall|i: int|
            0 <= i < later.len() + 2 ==> !(#[trigger] trace(t, Stage::Idle, missing_class_run(later))[i] is Report),
{
    let ev = missing_class_run(later);
    let tr = trace(t, Stage::Idle, ev);
    assert(ev.drop_first().drop_first() =~= later);
    reveal_with_fuel(trace, 3);
    lemma_finished_is_final(t, later);
    lemma_trace_len(t, Stage::Idle, ev);
    assert forall|i: int| 0 <= i < later.len() + 2 implies !(#[trigger] tr[i] is Report) by {
        if i >= 2 {
            assert(tr[i] == trace(t, Stage::Finished, later)[i - 2]);
        }
    }
}

} // verus!
