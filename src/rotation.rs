//! Properties of the run queue over whole runs of trap events.
//!
//! A run applies the events of the successive front threads in order. The
//! stack a thread owns identifies it across rotations, since a yield replaces
//! its saved context but keeps its stack.

use vstd::prelude::*;
use vstd::multiset::Multiset;
use crate::threading::{
    dispatch_of, exit_action, holds_stack, regions_disjoint, stacks_disjoint, step, Action, Event,
    ThreadControlBlock,
};

verus! {

broadcast use vstd::seq_lib::group_to_multiset_ensures;

/// The queue after the front threads trap with `evs`, one after another.
pub open spec fn run(q: Seq<ThreadControlBlock>, evs: Seq<Event>) -> Seq<ThreadControlBlock>
    decreases evs.len(),
{
    if evs.len() == 0 {
        q
    } else {
        run(step(q, evs[0]), evs.drop_first())
    }
}

/// Every event of `evs` comes from a thread: the queue is never empty when
/// one arrives.
pub open spec fn valid_run(q: Seq<ThreadControlBlock>, evs: Seq<Event>) -> bool
    decreases evs.len(),
{
    evs.len() == 0 || (q.len() > 0 && valid_run(step(q, evs[0]), evs.drop_first()))
}

/// Number of exits among `evs`.
pub open spec fn exits(evs: Seq<Event>) -> nat
    decreases evs.len(),
{
    if evs.len() == 0 {
        0
    } else {
        (if evs[0] is Exit { 1nat } else { 0nat }) + exits(evs.drop_first())
    }
}

/// The stacks of the threads that exit during the run, in order of exit.
pub open spec fn exited(q: Seq<ThreadControlBlock>, evs: Seq<Event>) -> Seq<u32>
    decreases evs.len(),
{
    if evs.len() == 0 {
        Seq::empty()
    } else {
        (if evs[0] is Exit && q.len() > 0 {
            seq![q[0].stack_top]
        } else {
            Seq::empty()
        }) + exited(step(q, evs[0]), evs.drop_first())
    }
}

/// The stacks of the threads of `q`, front first.
pub open spec fn stacks(q: Seq<ThreadControlBlock>) -> Seq<u32> {
    q.map_values(|t: ThreadControlBlock| t.stack_top)
}

/// The action that the trap return performs after the front thread of `q`
/// traps with `e`, where `system_sp` is the context saved by the join.
pub open spec fn trap_action(q: Seq<ThreadControlBlock>, e: Event, system_sp: u32) -> Action {
    match e {
        Event::Yield(_) => dispatch_of(step(q, e)),
        Event::Exit => exit_action(q, system_sp),
    }
}

/// Running `evs` and then `e` is stepping the result of `evs` with `e`.
pub proof fn lemma_run_push(q: Seq<ThreadControlBlock>, evs: Seq<Event>, e: Event)
    ensures
        run(q, evs.push(e)) == step(run(q, evs), e),
    decreases evs.len(),
{
    let pushed = evs.push(e);
    assert(pushed[0] == (if evs.len() == 0 { e } else { evs[0] }));
    if evs.len() == 0 {
        assert(pushed.drop_first() =~= Seq::<Event>::empty());
        assert(run(step(q, e), pushed.drop_first()) == step(q, e));
        assert(run(q, evs) == q);
    } else {
        assert(pushed.drop_first() =~= evs.drop_first().push(e));
        lemma_run_push(step(q, evs[0]), evs.drop_first(), e);
        assert(run(q, evs) == run(step(q, evs[0]), evs.drop_first()));
    }
}

/// Each event removes at most one thread: the queue loses exactly one thread
/// per exit and keeps the others.
pub proof fn lemma_drain(q: Seq<ThreadControlBlock>, evs: Seq<Event>)
    requires
        valid_run(q, evs),
    ensures
        exits(evs) <= q.len(),
        run(q, evs).len() == q.len() - exits(evs),
    decreases evs.len(),
{
    if evs.len() > 0 {
        lemma_drain(step(q, evs[0]), evs.drop_first());
    }
}

proof fn lemma_exit_accounting(q: Seq<ThreadControlBlock>, evs: Seq<Event>)
    ensures
        exited(q, evs).to_multiset().add(stacks(run(q, evs)).to_multiset())
            == stacks(q).to_multiset(),
    decreases evs.len(),
{
    broadcast use vstd::seq_lib::lemma_multiset_commutative;
    broadcast use vstd::multiset::group_multiset_axioms;

    if evs.len() == 0 {
        assert(exited(q, evs).to_multiset() =~= Multiset::empty());
        assert(exited(q, evs).to_multiset().add(stacks(q).to_multiset()) =~= stacks(q).to_multiset());
    } else {
        let e = evs[0];
        let rest = evs.drop_first();
        let q1 = step(q, e);
        lemma_exit_accounting(q1, rest);
        if q.len() > 0 {
            let head = seq![q[0].stack_top];
            assert(stacks(q) =~= head + stacks(q.drop_first()));
            match e {
                Event::Yield(c) => {
                    assert(stacks(q1) =~= stacks(q.drop_first()) + head);
                    assert(stacks(q1).to_multiset() =~= stacks(q).to_multiset());
                    assert(exited(q, evs) =~= exited(q1, rest));
                },
                Event::Exit => {
                    assert(exited(q, evs) == head + exited(q1, rest));
                    assert(q1 == q.drop_first());
                    assert(exited(q, evs).to_multiset().add(stacks(run(q, evs)).to_multiset())
                        =~= stacks(q).to_multiset());
                },
            }
        } else {
            assert(exited(q, evs) =~= exited(q1, rest));
        }
    }
}

/// When the queue has emptied, and so the join returns, every pushed thread
/// has exited exactly once: the exits are those of the original threads, one
/// each, and there were as many as threads.
pub proof fn lemma_each_thread_completes_once(q: Seq<ThreadControlBlock>, evs: Seq<Event>)
    requires
        valid_run(q, evs),
        run(q, evs).len() == 0,
    ensures
        exits(evs) == q.len(),
        exited(q, evs).to_multiset() == stacks(q).to_multiset(),
{
    broadcast use vstd::multiset::group_multiset_axioms;

    lemma_drain(q, evs);
    lemma_exit_accounting(q, evs);
    assert(stacks(run(q, evs)) =~= Seq::<u32>::empty());
    assert(exited(q, evs).to_multiset().add(Multiset::empty()) =~= exited(q, evs).to_multiset());
}

/// The entrypoints (`r0`) of the threads of `q` that have not run yet, in
/// queue order: they resume at the start trampoline `start`.
pub open spec fn unstarted(q: Seq<ThreadControlBlock>, start: u32) -> Seq<u32>
    decreases q.len(),
{
    if q.len() == 0 {
        Seq::empty()
    } else {
        (if q[0].regs.pc == start {
            seq![q[0].regs.r0]
        } else {
            Seq::empty()
        }) + unstarted(q.drop_first(), start)
    }
}

/// The argument (`r0`) of each turn of the run that enters a thread through
/// the start trampoline `start`, in order.
pub open spec fn starts(q: Seq<ThreadControlBlock>, evs: Seq<Event>, start: u32) -> Seq<u32>
    decreases evs.len(),
{
    if evs.len() == 0 {
        Seq::empty()
    } else {
        (if q.len() > 0 && q[0].regs.pc == start {
            seq![q[0].regs.r0]
        } else {
            Seq::empty()
        }) + starts(step(q, evs[0]), evs.drop_first(), start)
    }
}

/// Every yield of `evs` captured a context that resumes somewhere other than
/// the start trampoline `start`, as a thread that yields resumes after its
/// yield call. Nothing in the scheduler checks this of a captured context.
pub open spec fn resumes_elsewhere(evs: Seq<Event>, start: u32) -> bool {
    forall|i: int| 0 <= i < evs.len() ==> (#[trigger] evs[i] matches Event::Yield(c) ==> c.pc != start)
}

/// The entrypoints of the threads of `q`, in queue order.
pub open spec fn entries(q: Seq<ThreadControlBlock>) -> Seq<u32> {
    q.map_values(|t: ThreadControlBlock| t.regs.r0)
}

proof fn lemma_unstarted_push(q: Seq<ThreadControlBlock>, t: ThreadControlBlock, start: u32)
    ensures
        unstarted(q.push(t), start) == unstarted(q, start) + (if t.regs.pc == start {
            seq![t.regs.r0]
        } else {
            Seq::empty()
        }),
    decreases q.len(),
{
    let p = q.push(t);
    let tail: Seq<u32> = if t.regs.pc == start { seq![t.regs.r0] } else { Seq::empty() };
    if q.len() == 0 {
        assert(p.drop_first() =~= Seq::<ThreadControlBlock>::empty());
        assert(unstarted(p.drop_first(), start) =~= Seq::<u32>::empty());
        assert(unstarted(q, start) =~= Seq::<u32>::empty());
        assert(p[0] == t);
        assert(unstarted(p, start) =~= unstarted(q, start) + tail);
    } else {
        assert(p.drop_first() =~= q.drop_first().push(t));
        assert(p[0] == q[0]);
        lemma_unstarted_push(q.drop_first(), t, start);
        let h: Seq<u32> = if q[0].regs.pc == start { seq![q[0].regs.r0] } else { Seq::empty() };
        assert(unstarted(p, start) =~= h + (unstarted(q.drop_first(), start) + tail));
        assert(unstarted(p, start) =~= unstarted(q, start) + tail);
    }
}

proof fn lemma_start_accounting(q: Seq<ThreadControlBlock>, evs: Seq<Event>, start: u32)
    requires
        resumes_elsewhere(evs, start),
    ensures
        starts(q, evs, start) + unstarted(run(q, evs), start) == unstarted(q, start),
    decreases evs.len(),
{
    if evs.len() == 0 {
        assert(starts(q, evs, start) + unstarted(q, start) =~= unstarted(q, start));
    } else {
        let rest = evs.drop_first();
        let q1 = step(q, evs[0]);
        assert(resumes_elsewhere(rest, start)) by {
            assert forall|i: int| 0 <= i < rest.len() implies (#[trigger] rest[i] matches Event::Yield(
                c,
            ) ==> c.pc != start) by {
                assert(rest[i] == evs[i + 1]);
            }
        }
        lemma_start_accounting(q1, rest, start);
        assert(run(q, evs) == run(q1, rest));
        if q.len() > 0 {
            let h: Seq<u32> = if q[0].regs.pc == start { seq![q[0].regs.r0] } else { Seq::empty() };
            if let Event::Yield(c) = evs[0] {
                let moved = ThreadControlBlock { stack_top: q[0].stack_top, regs: c };
                assert(evs[0] matches Event::Yield(c) ==> c.pc != start);
                lemma_unstarted_push(q.drop_first(), moved, start);
                assert(unstarted(q1, start) =~= unstarted(q.drop_first(), start));
            }
            assert(unstarted(q1, start) == unstarted(q.drop_first(), start));
            assert(starts(q, evs, start) + unstarted(run(q, evs), start) =~= h + (starts(q1, rest, start)
                + unstarted(run(q1, rest), start)));
        } else {
            assert(starts(q, evs, start) =~= starts(q1, rest, start));
        }
    }
}

proof fn lemma_all_unstarted(q: Seq<ThreadControlBlock>, start: u32)
    requires
        forall|i: int| 0 <= i < q.len() ==> #[trigger] q[i].regs.pc == start,
    ensures
        unstarted(q, start) == entries(q),
    decreases q.len(),
{
    if q.len() == 0 {
        assert(entries(q) =~= Seq::<u32>::empty());
    } else {
        assert forall|i: int| 0 <= i < q.drop_first().len() implies #[trigger] q.drop_first()[i].regs.pc
            == start by {
            assert(q.drop_first()[i] == q[i + 1]);
        }
        lemma_all_unstarted(q.drop_first(), start);
        assert(entries(q) =~= seq![q[0].regs.r0] + entries(q.drop_first()));
    }
}

/// Each pushed thread is entered through the start trampoline exactly once,
/// with its own entrypoint as argument: once a queue of threads that have
/// not run yet has emptied, and so the join has returned, the run's starts
/// received exactly the threads' entrypoints, in queue order. This holds of
/// runs whose yields resume elsewhere than at the start trampoline.
pub proof fn lemma_each_thread_starts_once(q: Seq<ThreadControlBlock>, evs: Seq<Event>, start: u32)
    requires
        forall|i: int| 0 <= i < q.len() ==> #[trigger] q[i].regs.pc == start,
        resumes_elsewhere(evs, start),
        run(q, evs).len() == 0,
    ensures
        starts(q, evs, start) == entries(q),
        starts(q, evs, start).len() == q.len(),
{
    lemma_start_accounting(q, evs, start);
    lemma_all_unstarted(q, start);
    assert(run(q, evs) =~= Seq::<ThreadControlBlock>::empty());
    assert(unstarted(run(q, evs), start) =~= Seq::<u32>::empty());
    assert(starts(q, evs, start) + unstarted(run(q, evs), start) =~= starts(q, evs, start));
}

proof fn lemma_rr_prefix(q: Seq<ThreadControlBlock>, evs: Seq<Event>, j: int) -> (r: Seq<
    ThreadControlBlock,
>)
    requires
        q.len() >= 2,
        evs.len() == q.len(),
        evs[0] is Yield,
        1 <= j <= q.len(),
    ensures
        run(q, evs.take(j)) == q.subrange(j, q.len() as int) + r,
        r.len() >= 1,
        r[0] == (ThreadControlBlock { stack_top: q[0].stack_top, regs: evs[0]->Yield_0 }),
    decreases j,
{
    let n = q.len() as int;
    let front = ThreadControlBlock { stack_top: q[0].stack_top, regs: evs[0]->Yield_0 };
    if j == 1 {
        lemma_run_push(q, evs.take(0), evs[0]);
        assert(evs.take(0).push(evs[0]) =~= evs.take(1));
        assert(run(q, evs.take(0)) == q) by {
            assert(evs.take(0).len() == 0);
        }
        let r = seq![front];
        assert(run(q, evs.take(1)) =~= q.subrange(1, n) + r);
        r
    } else {
        let r0 = lemma_rr_prefix(q, evs, j - 1);
        let cur = run(q, evs.take(j - 1));
        assert(cur[0] == q[j - 1]);
        lemma_run_push(q, evs.take(j - 1), evs[j - 1]);
        assert(evs.take(j - 1).push(evs[j - 1]) =~= evs.take(j));
        let r = match evs[j - 1] {
            Event::Yield(c) => r0.push(ThreadControlBlock { stack_top: q[j - 1].stack_top, regs: c }),
            Event::Exit => r0,
        };
        assert(step(cur, evs[j - 1]) =~= q.subrange(j, n) + r);
        r
    }
}

/// Round-robin fairness: once the front thread of `q` yields, each of the
/// other threads gets exactly one turn, in queue order and with its saved
/// context untouched, whatever it does with it; then the yielding thread
/// resumes with the context it yielded with.
pub proof fn lemma_round_robin(q: Seq<ThreadControlBlock>, evs: Seq<Event>)
    requires
        q.len() >= 2,
        evs.len() == q.len(),
        evs[0] is Yield,
    ensures
        forall|j: int|
            #![trigger run(q, evs.take(j))]
            1 <= j < q.len() ==> run(q, evs.take(j)).len() > 0 && run(q, evs.take(j))[0] == q[j],
        run(q, evs).len() > 0,
        run(q, evs)[0] == (ThreadControlBlock { stack_top: q[0].stack_top, regs: evs[0]->Yield_0 }),
{
    assert forall|j: int|
        #![trigger run(q, evs.take(j))]
        1 <= j < q.len() implies run(q, evs.take(j)).len() > 0 && run(q, evs.take(j))[0] == q[j] by {
        let r = lemma_rr_prefix(q, evs, j);
        assert((q.subrange(j, q.len() as int) + r)[0] == q[j]);
    }
    let r = lemma_rr_prefix(q, evs, q.len() as int);
    assert(evs.take(q.len() as int) =~= evs);
    assert(run(q, evs) =~= r);
}

proof fn lemma_run_keeps_stacks(q: Seq<ThreadControlBlock>, evs: Seq<Event>)
    ensures
        forall|i: int|
            0 <= i < run(q, evs).len() ==> holds_stack(q, #[trigger] run(q, evs)[i].stack_top),
    decreases evs.len(),
{
    if evs.len() > 0 {
        let q1 = step(q, evs[0]);
        lemma_run_keeps_stacks(q1, evs.drop_first());
        assert(run(q, evs) == run(q1, evs.drop_first()));
        assert forall|i: int| 0 <= i < q1.len() implies holds_stack(q, #[trigger] q1[i].stack_top) by {
            if q.len() > 0 {
                if i == q1.len() - 1 && evs[0] is Yield {
                    assert(q1[i].stack_top == q[0].stack_top);
                } else {
                    assert(q1[i].stack_top == q[i + 1].stack_top);
                }
            }
        }
        assert forall|i: int| 0 <= i < run(q, evs).len() implies holds_stack(
            q,
            #[trigger] run(q, evs)[i].stack_top,
        ) by {
            let s = run(q, evs)[i].stack_top;
            assert(holds_stack(q1, s));
            let k = choose|k: int| 0 <= k < q1.len() && q1[k].stack_top == s;
            assert(holds_stack(q, q1[k].stack_top));
        }
    }
}

/// Exit cleanliness: an exiting thread leaves the queue, and whatever the
/// other threads do afterwards, it is never in the queue again, so it is
/// never dispatched again.
pub proof fn lemma_exit_clean(q: Seq<ThreadControlBlock>, evs: Seq<Event>)
    requires
        q.len() > 0,
        stacks_disjoint(q),
    ensures
        step(q, Event::Exit) == q.drop_first(),
        forall|i: int|
            0 <= i < run(q.drop_first(), evs).len() ==> #[trigger] run(q.drop_first(), evs)[i].stack_top
                != q[0].stack_top,
{
    lemma_run_keeps_stacks(q.drop_first(), evs);
    let rest = q.drop_first();
    assert forall|i: int| 0 <= i < run(rest, evs).len() implies #[trigger] run(rest, evs)[i].stack_top
        != q[0].stack_top by {
        let s = run(rest, evs)[i].stack_top;
        assert(holds_stack(rest, s));
        let k = choose|k: int| 0 <= k < rest.len() && rest[k].stack_top == s;
        assert(q[k + 1].stack_top == s);
        assert(regions_disjoint(q[0].stack_top, q[k + 1].stack_top));
    }
}

/// Join termination: after a trap of a live thread, control returns to the
/// joining caller exactly when the queue has become empty.
pub proof fn lemma_join_returns_iff_empty(q: Seq<ThreadControlBlock>, e: Event, system_sp: u32)
    requires
        q.len() > 0,
    ensures
        trap_action(q, e, system_sp) is ReturnToSystem <==> step(q, e).len() == 0,
        trap_action(q, e, system_sp) is ReturnToSystem ==> trap_action(q, e, system_sp)
            == Action::ReturnToSystem(system_sp),
        step(q, e).len() > 0 ==> trap_action(q, e, system_sp) == dispatch_of(step(q, e)),
{
    if let Event::Exit = e {
        if q.len() > 1 {
            assert(step(q, e)[0] == q[1]);
        }
    }
}

} // verus!
