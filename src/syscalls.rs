//! Syscall decoding and the software-interrupt dispatcher.
//!
//! A caller loads the syscall number into `r7` and executes the trap
//! instruction; the dispatcher routes it by number.

use vstd::prelude::*;
use crate::threading::{
    step, dispatch_of, exit_action, thread_context_switch, thread_done, Action, Context, Event,
    Fault, Scheduler,
};

verus! {

/// Syscall number of a voluntary yield.
pub const SYSCALL_YIELD: u32 = 0;
/// Syscall number of a thread exit.
pub const SYSCALL_EXIT: u32 = 1;

/// A decoded syscall.
#[derive(Clone, Copy, Debug, PartialEq, Eq, Structural)]
pub enum Syscall {
    Yield,
    Exit,
    Unknown(u32),
}

/// The syscall that the number `nr` stands for.
pub open spec fn syscall_of(nr: u32) -> Syscall {
    if nr == SYSCALL_YIELD {
        Syscall::Yield
    } else if nr == SYSCALL_EXIT {
        Syscall::Exit
    } else {
        Syscall::Unknown(nr)
    }
}

/// Decodes the number that a trapping thread left in `r7`.
pub fn decode_syscall(nr: u32) -> (r: Syscall)
    ensures
        r == syscall_of(nr),
{
    if nr == SYSCALL_YIELD {
        Syscall::Yield
    } else if nr == SYSCALL_EXIT {
        Syscall::Exit
    } else {
        Syscall::Unknown(nr)
    }
}

/// The number a thread loads into `r7` to issue `call`.
pub fn syscall_number(call: Syscall) -> (r: u32)
    requires
        call matches Syscall::Unknown(n) ==> n != SYSCALL_YIELD && n != SYSCALL_EXIT,
    ensures
        syscall_of(r) == call,
{
    match call {
        Syscall::Yield => SYSCALL_YIELD,
        Syscall::Exit => SYSCALL_EXIT,
        Syscall::Unknown(n) => n,
    }
}

/// An unknown syscall is fatal: the system logs and halts.
pub fn unknown_syscall_handler(nr: u32) -> (r: Action)
    ensures
        r == Action::Halt(Fault::UnknownSyscall(nr)),
{
    Action::Halt(Fault::UnknownSyscall(nr))
}

/// The software-interrupt handler: `nr` is the value of `r7` at the trap and
/// `captured` the trapping thread's register frame. Yield rotates the queue,
/// exit removes the front thread, any other number halts with the queue left
/// as it was.
pub fn trampoline_swi(sched: &mut Scheduler, nr: u32, captured: Context) -> (r: Action)
    requires
        old(sched).wf(),
    ensures
        final(sched).wf(),
        final(sched).spec_start_trampoline() == old(sched).spec_start_trampoline(),
        final(sched).spec_system_sp() == old(sched).spec_system_sp(),
        nr == SYSCALL_YIELD ==> final(sched)@ == step(old(sched)@, Event::Yield(captured))
            && r == dispatch_of(final(sched)@),
        nr == SYSCALL_EXIT ==> final(sched)@ == step(old(sched)@, Event::Exit) && r
            == exit_action(old(sched)@, old(sched).spec_system_sp()),
        nr != SYSCALL_YIELD && nr != SYSCALL_EXIT ==> final(sched)@ == old(sched)@ && r
            == Action::Halt(Fault::UnknownSyscall(nr)),
{
    match decode_syscall(nr) {
        Syscall::Yield => thread_context_switch(sched, captured),
        Syscall::Exit => thread_done(sched),
        Syscall::Unknown(n) => unknown_syscall_handler(n),
    }
}

} // verus!
