//! Thread control blocks, the run queue and the context-switch engine.
//!
//! The run queue is an owned [`Scheduler`]. Its front is the thread that runs
//! (or runs next); a voluntary yield rotates the front to the back with its
//! freshly captured [`Context`], an exit removes it. Every handler returns the
//! [`Action`] that the trap return must perform.

use vstd::prelude::*;
use std::collections::VecDeque;
use crate::exceptions::Vector;
use crate::psr::{mode_bits, Mode};

verus! {

broadcast use vstd::std_specs::vecdeque::group_vec_dequeue_axioms;

/// Words in each thread's stack.
pub const STACK_SIZE: usize = 1024;
/// Bytes in each thread's stack.
pub const STACK_BYTES: u32 = 4096;
/// Words in a register frame: 13 general registers, the user stack pointer
/// and link register, the resume address and the saved status.
pub const CONTEXT_WORDS: usize = 17;

/// A saved register context of a thread that is not running.
#[derive(Clone, Copy, Debug, PartialEq, Eq, Structural)]
pub struct Context {
    pub r0: u32,
    pub r1: u32,
    pub r2: u32,
    pub r3: u32,
    pub r4: u32,
    pub r5: u32,
    pub r6: u32,
    pub r7: u32,
    pub r8: u32,
    pub r9: u32,
    pub r10: u32,
    pub r11: u32,
    pub r12: u32,
    /// The thread's own stack pointer.
    pub sp: u32,
    /// The thread's own link register.
    pub lr: u32,
    /// Where the thread resumes.
    pub pc: u32,
    /// The status the thread resumes with.
    pub spsr: u32,
}

/// All registers zero, resuming in unprivileged mode with interrupts enabled.
pub open spec fn blank_context() -> Context {
    Context {
        r0: 0,
        r1: 0,
        r2: 0,
        r3: 0,
        r4: 0,
        r5: 0,
        r6: 0,
        r7: 0,
        r8: 0,
        r9: 0,
        r10: 0,
        r11: 0,
        r12: 0,
        sp: 0,
        lr: 0,
        pc: 0,
        spsr: mode_bits(Mode::User),
    }
}

/// The context of a pushed thread that has not run yet: it resumes at the
/// start trampoline, with the entrypoint in `r0` and its own stack.
pub open spec fn initial_context(entrypoint: u32, stack_top: u32, trampoline: u32) -> Context {
    Context { r0: entrypoint, sp: stack_top, pc: trampoline, ..blank_context() }
}

/// A register frame in memory order.
pub open spec fn frame_of(c: Context) -> Seq<u32> {
    seq![
        c.r0, c.r1, c.r2, c.r3, c.r4, c.r5, c.r6, c.r7, c.r8, c.r9, c.r10, c.r11, c.r12,
        c.sp, c.lr, c.pc, c.spsr,
    ]
}

impl Default for Context {
    fn default() -> (r: Self)
        ensures
            r == blank_context(),
    {
        Context {
            r0: 0,
            r1: 0,
            r2: 0,
            r3: 0,
            r4: 0,
            r5: 0,
            r6: 0,
            r7: 0,
            r8: 0,
            r9: 0,
            r10: 0,
            r11: 0,
            r12: 0,
            sp: 0,
            lr: 0,
            pc: 0,
            spsr: Mode::User.bits(),
        }
    }
}

impl Context {
    /// Copies a captured register frame out into an owned context.
    pub fn from_frame(frame: &[u32; 17]) -> (r: Context)
        ensures
            frame_of(r) == frame@,
    {
        let r = Context {
            r0: frame[0],
            r1: frame[1],
            r2: frame[2],
            r3: frame[3],
            r4: frame[4],
            r5: frame[5],
            r6: frame[6],
            r7: frame[7],
            r8: frame[8],
            r9: frame[9],
            r10: frame[10],
            r11: frame[11],
            r12: frame[12],
            sp: frame[13],
            lr: frame[14],
            pc: frame[15],
            spsr: frame[16],
        };
        assert(frame_of(r) =~= frame@);
        r
    }

    /// The register frame that restores this context.
    pub fn to_frame(&self) -> (r: [u32; 17])
        ensures
            r@ == frame_of(*self),
    {
        let r = [
            self.r0, self.r1, self.r2, self.r3, self.r4, self.r5, self.r6, self.r7, self.r8,
            self.r9, self.r10, self.r11, self.r12, self.sp, self.lr, self.pc, self.spsr,
        ];
        assert(r@ =~= frame_of(*self));
        r
    }
}

/// A thread: the top of the stack it owns, and its saved context.
#[derive(Clone, Copy, Debug, PartialEq, Eq, Structural)]
pub struct ThreadControlBlock {
    pub stack_top: u32,
    pub regs: Context,
}

impl Default for ThreadControlBlock {
    fn default() -> (r: Self)
        ensures
            r.stack_top == 0,
            r.regs == blank_context(),
    {
        ThreadControlBlock { stack_top: 0, regs: Context::default() }
    }
}

/// Why the system halts.
#[derive(Clone, Copy, Debug, PartialEq, Eq, Structural)]
pub enum Fault {
    /// A vector other than the software interrupt fired: this one.
    UnsupportedTrap(Vector),
    /// A syscall number other than yield or exit.
    UnknownSyscall(u32),
    /// A dispatch was attempted on an empty run queue.
    SchedulingUnderflow,
}

impl Fault {
    /// The diagnostic logged before the restart.
    pub fn message(&self) -> (r: &'static str)
        ensures
            self is UnsupportedTrap ==> r@ == "unsupported trap"@,
            self is UnknownSyscall ==> r@ == "unknown syscall"@,
            *self == Fault::SchedulingUnderflow ==> r@ == "scheduling underflow"@,
    {
        proof {
            reveal_strlit("unsupported trap");
            reveal_strlit("unknown syscall");
            reveal_strlit("scheduling underflow");
        }
        match self {
            Fault::UnsupportedTrap(_) => "unsupported trap",
            Fault::UnknownSyscall(_) => "unknown syscall",
            Fault::SchedulingUnderflow => "scheduling underflow",
        }
    }
}

/// What the trap return does next.
#[derive(Clone, Copy, Debug, PartialEq, Eq, Structural)]
pub enum Action {
    /// Load this context into the user registers and return from the trap.
    Dispatch(Context),
    /// Every thread has exited: restore the system context that `thread_join`
    /// saved at this stack pointer and return to its caller.
    ReturnToSystem(u32),
    /// Log the fault and restart.
    Halt(Fault),
}

/// What a running thread does when it traps.
#[derive(Clone, Copy, Debug, PartialEq, Eq, Structural)]
pub enum Event {
    /// It yields; this is the context captured at the trap.
    Yield(Context),
    /// It exits.
    Exit,
}

/// The stack regions `[a - STACK_BYTES, a)` and `[b - STACK_BYTES, b)` of two
/// threads do not overlap.
pub open spec fn regions_disjoint(a: u32, b: u32) -> bool {
    a + STACK_BYTES <= b || b + STACK_BYTES <= a
}

/// The stack regions of the threads in `q` are pairwise disjoint: each thread
/// owns its region exclusively.
pub open spec fn stacks_disjoint(q: Seq<ThreadControlBlock>) -> bool {
    forall|i: int, j: int|
        0 <= i < j < q.len() ==> regions_disjoint(q[i].stack_top, q[j].stack_top)
}

/// The stack region that starts at `base` overlaps no region of a thread of `q`.
pub open spec fn region_free_in(q: Seq<ThreadControlBlock>, base: u32) -> bool {
    forall|i: int|
        0 <= i < q.len() ==> #[trigger] q[i].stack_top <= base || base + 2 * STACK_BYTES
            <= q[i].stack_top
}

/// Some thread of `q` owns the stack whose top is `s`.
pub open spec fn holds_stack(q: Seq<ThreadControlBlock>, s: u32) -> bool {
    exists|i: int| 0 <= i < q.len() && q[i].stack_top == s
}

/// The queue after the front thread yields with captured context `c`: it moves
/// to the back, keeping its stack, with `c` as its saved context.
pub open spec fn switched(q: Seq<ThreadControlBlock>, c: Context) -> Seq<ThreadControlBlock> {
    q.drop_first().push(ThreadControlBlock { stack_top: q[0].stack_top, regs: c })
}

/// The queue after the front thread traps with `e`; an empty queue stays empty.
pub open spec fn step(q: Seq<ThreadControlBlock>, e: Event) -> Seq<ThreadControlBlock> {
    if q.len() == 0 {
        q
    } else {
        match e {
            Event::Yield(c) => switched(q, c),
            Event::Exit => q.drop_first(),
        }
    }
}

/// Dispatching the front of `q`; fatal on an empty queue.
pub open spec fn dispatch_of(q: Seq<ThreadControlBlock>) -> Action {
    if q.len() == 0 {
        Action::Halt(Fault::SchedulingUnderflow)
    } else {
        Action::Dispatch(q[0].regs)
    }
}

/// The action after the front thread of `q` exits: the next thread, or the
/// system context once the queue is empty; fatal if `q` was already empty.
pub open spec fn exit_action(q: Seq<ThreadControlBlock>, system_sp: u32) -> Action {
    if q.len() == 0 {
        Action::Halt(Fault::SchedulingUnderflow)
    } else if q.len() == 1 {
        Action::ReturnToSystem(system_sp)
    } else {
        Action::Dispatch(q[1].regs)
    }
}

/// The run queue and the saved system context.
pub struct Scheduler {
    tcbs: VecDeque<ThreadControlBlock>,
    start_trampoline: u32,
    system_sp: u32,
}

impl View for Scheduler {
    type V = Seq<ThreadControlBlock>;

    closed spec fn view(&self) -> Seq<ThreadControlBlock> {
        self.tcbs@
    }
}

impl Scheduler {
    /// Where a thread that has not run yet resumes.
    pub closed spec fn spec_start_trampoline(&self) -> u32 {
        self.start_trampoline
    }

    /// The system stack pointer saved by the last `thread_join`.
    pub closed spec fn spec_system_sp(&self) -> u32 {
        self.system_sp
    }

    /// Each thread owns its stack region exclusively.
    pub open spec fn wf(&self) -> bool {
        stacks_disjoint(self@)
    }

    /// An empty run queue whose threads start at `start_trampoline`.
    pub fn new(start_trampoline: u32) -> (r: Scheduler)
        ensures
            r@ == Seq::<ThreadControlBlock>::empty(),
            r.wf(),
            r.spec_start_trampoline() == start_trampoline,
            r.spec_system_sp() == 0,
    {
        Scheduler { tcbs: VecDeque::new(), start_trampoline, system_sp: 0 }
    }

    /// Number of live threads.
    pub fn len(&self) -> (r: usize)
        ensures
            r == self@.len(),
    {
        self.tcbs.len()
    }

    /// Whether no thread is left.
    pub fn is_empty(&self) -> (r: bool)
        ensures
            r == (self@.len() == 0),
    {
        self.tcbs.len() == 0
    }

    /// The address where a new thread starts.
    pub fn start_trampoline(&self) -> (r: u32)
        ensures
            r == self.spec_start_trampoline(),
    {
        self.start_trampoline
    }

    /// Whether the stack region that starts at `base` overlaps no queued
    /// thread's region, so that a thread may be pushed on it.
    pub fn region_free(&self, base: u32) -> (r: bool)
        ensures
            r == region_free_in(self@, base),
    {
        let n = self.tcbs.len();
        let mut i: usize = 0;
        while i < n
            invariant
                n == self@.len(),
                i <= n,
                forall|k: int|
                    0 <= k < i ==> #[trigger] self@[k].stack_top <= base || base + 2 * STACK_BYTES
                        <= self@[k].stack_top,
            decreases n - i,
        {
            let top = self.tcbs[i].stack_top;
            if !(top <= base || base as u64 + 2 * STACK_BYTES as u64 <= top as u64) {
                return false;
            }
            i = i + 1;
        }
        true
    }

    /// The action that resumes the front thread.
    fn thread_dispatch(&self) -> (r: Action)
        ensures
            r == dispatch_of(self@),
    {
        if self.tcbs.len() == 0 {
            Action::Halt(Fault::SchedulingUnderflow)
        } else {
            Action::Dispatch(self.tcbs[0].regs)
        }
    }
}

/// The stack top of a stack region that starts at `base`.
pub open spec fn stack_top_of(base: u32) -> u32 {
    (base + STACK_BYTES) as u32
}

/// Appends a new thread whose stack region starts at `stack_base`: it will
/// start at the start trampoline with `entrypoint` in `r0`. Called before
/// scheduling starts; the region must overlap no queued thread's region.
pub fn thread_push(sched: &mut Scheduler, entrypoint: u32, stack_base: u32)
    requires
        old(sched).wf(),
        stack_base + STACK_BYTES <= u32::MAX,
        region_free_in(old(sched)@, stack_base),
    ensures
        final(sched).wf(),
        final(sched)@ == old(sched)@.push(
            ThreadControlBlock {
                stack_top: stack_top_of(stack_base),
                regs: initial_context(
                    entrypoint,
                    stack_top_of(stack_base),
                    old(sched).spec_start_trampoline(),
                ),
            },
        ),
        final(sched).spec_start_trampoline() == old(sched).spec_start_trampoline(),
        final(sched).spec_system_sp() == old(sched).spec_system_sp(),
{
    let top = stack_base + STACK_BYTES;
    let mut tcb = ThreadControlBlock::default();
    tcb.stack_top = top;
    tcb.regs.r0 = entrypoint;
    tcb.regs.sp = top;
    tcb.regs.pc = sched.start_trampoline;
    sched.tcbs.push_back(tcb);
    proof {
        let q = final(sched)@;
        assert forall|i: int, j: int| 0 <= i < j < q.len() implies regions_disjoint(
            q[i].stack_top,
            q[j].stack_top,
        ) by {
            if j == q.len() - 1 {
                assert(old(sched)@[i].stack_top == q[i].stack_top);
            }
        }
    }
}

proof fn lemma_switched_disjoint(q: Seq<ThreadControlBlock>, c: Context)
    requires
        q.len() > 0,
        stacks_disjoint(q),
    ensures
        stacks_disjoint(switched(q, c)),
        switched(q, c).len() == q.len(),
{
    let s = switched(q, c);
    assert forall|i: int, j: int| 0 <= i < j < s.len() implies regions_disjoint(
        s[i].stack_top,
        s[j].stack_top,
    ) by {
        if j == s.len() - 1 {
            assert(s[i].stack_top == q[i + 1].stack_top);
            assert(regions_disjoint(q[0].stack_top, q[i + 1].stack_top));
        } else {
            assert(s[i].stack_top == q[i + 1].stack_top);
            assert(s[j].stack_top == q[j + 1].stack_top);
            assert(regions_disjoint(q[i + 1].stack_top, q[j + 1].stack_top));
        }
    }
}

/// Rotation on a voluntary yield: the front thread's saved context becomes
/// `captured` and it moves to the back; the new front is dispatched.
pub fn thread_context_switch(sched: &mut Scheduler, captured: Context) -> (r: Action)
    requires
        old(sched).wf(),
    ensures
        final(sched).wf(),
        final(sched)@ == step(old(sched)@, Event::Yield(captured)),
        r == dispatch_of(final(sched)@),
        final(sched).spec_start_trampoline() == old(sched).spec_start_trampoline(),
        final(sched).spec_system_sp() == old(sched).spec_system_sp(),
{
    match sched.tcbs.pop_front() {
        None => Action::Halt(Fault::SchedulingUnderflow),
        Some(current) => {
            proof {
                lemma_switched_disjoint(old(sched)@, captured);
            }
            let mut current = current;
            current.regs = captured;
            sched.tcbs.push_back(current);
            proof {
                assert(sched@ =~= switched(old(sched)@, captured));
            }
            sched.thread_dispatch()
        },
    }
}

/// Removal on exit: the front thread leaves the queue for good (its stack is
/// not reclaimed). The next thread is dispatched, or the system context is
/// restored once no thread is left.
pub fn thread_done(sched: &mut Scheduler) -> (r: Action)
    requires
        old(sched).wf(),
    ensures
        final(sched).wf(),
        final(sched)@ == step(old(sched)@, Event::Exit),
        r == exit_action(old(sched)@, old(sched).spec_system_sp()),
        final(sched).spec_start_trampoline() == old(sched).spec_start_trampoline(),
        final(sched).spec_system_sp() == old(sched).spec_system_sp(),
{
    match sched.tcbs.pop_front() {
        None => Action::Halt(Fault::SchedulingUnderflow),
        Some(_) => {
            proof {
                assert(sched@ =~= old(sched)@.drop_first());
            }
            if sched.tcbs.len() == 0 {
                Action::ReturnToSystem(sched.system_sp)
            } else {
                sched.thread_dispatch()
            }
        },
    }
}

/// Starts scheduling: records the system context's stack pointer and
/// dispatches the front thread. Returns to its caller, through
/// [`Action::ReturnToSystem`], only once the queue has emptied.
pub fn thread_join(sched: &mut Scheduler, system_sp: u32) -> (r: Action)
    requires
        old(sched).wf(),
    ensures
        final(sched).wf(),
        final(sched)@ == old(sched)@,
        final(sched).spec_system_sp() == system_sp,
        final(sched).spec_start_trampoline() == old(sched).spec_start_trampoline(),
        r == dispatch_of(old(sched)@),
{
    sched.system_sp = system_sp;
    sched.thread_dispatch()
}

} // verus!
