use coop_kernel::exceptions::{
    activate_exception_vector_hook, handler_for, trampoline_unset, vector_from_offset, ControlOp,
    Handler, Vector,
};
use coop_kernel::syscalls::{
    decode_syscall, syscall_number, trampoline_swi, Syscall, SYSCALL_EXIT, SYSCALL_YIELD,
};
use coop_kernel::threading::{
    thread_context_switch, thread_done, thread_join, thread_push, Action, Context, Fault,
    Scheduler, ThreadControlBlock,
};

const TRAMPOLINE: u32 = 0x8000;
const RESUME: u32 = 0x9000;
const SYSTEM_SP: u32 = 0x7ff0;

/// Runs threads that loop `iterations` times and yield when their counter is
/// a multiple of `every` (never, when `every` is 0). The counter lives in `r4`
/// of each thread's context. Returns the entrypoint of each turn, the
/// entrypoint of each start, and the final action.
fn simulate(sched: &mut Scheduler, iterations: u32, every: u32) -> (Vec<u32>, Vec<u32>, Action) {
    let mut turns = Vec::new();
    let mut starts = Vec::new();
    let mut action = thread_join(sched, SYSTEM_SP);
    while let Action::Dispatch(ctx) = action {
        let mut ctx = ctx;
        if ctx.pc == TRAMPOLINE {
            starts.push(ctx.r0);
            ctx.r5 = ctx.r0;
            ctx.r4 = 0;
        }
        turns.push(ctx.r5);
        let mut yielded = false;
        while ctx.r4 < iterations {
            ctx.r4 += 1;
            if every != 0 && ctx.r4 % every == 0 && ctx.r4 < iterations {
                yielded = true;
                break;
            }
        }
        if yielded {
            ctx.pc = RESUME;
            action = trampoline_swi(sched, SYSCALL_YIELD, ctx);
        } else {
            action = trampoline_swi(sched, SYSCALL_EXIT, ctx);
        }
    }
    (turns, starts, action)
}

#[test]
fn push_builds_initial_context() {
    let mut s = Scheduler::new(TRAMPOLINE);
    assert!(s.is_empty());
    thread_push(&mut s, 0xa000, 0x1000);
    assert_eq!(s.len(), 1);
    match thread_join(&mut s, SYSTEM_SP) {
        Action::Dispatch(c) => {
            assert_eq!(c.r0, 0xa000);
            assert_eq!(c.sp, 0x2000);
            assert_eq!(c.pc, TRAMPOLINE);
            assert_eq!(c.spsr, 0x10);
            assert_eq!(c.r1, 0);
            assert_eq!(c.lr, 0);
        }
        other => panic!("unexpected {:?}", other),
    }
}

#[test]
fn default_blocks() {
    let c = Context::default();
    assert_eq!(c.spsr, 0x10);
    assert_eq!(c.pc, 0);
    let t = ThreadControlBlock::default();
    assert_eq!(t.stack_top, 0);
    assert_eq!(t.regs, c);
}

#[test]
fn frame_round_trip() {
    let mut words = [0u32; 17];
    for (i, w) in words.iter_mut().enumerate() {
        *w = 100 + i as u32;
    }
    let c = Context::from_frame(&words);
    assert_eq!(c.r0, 100);
    assert_eq!(c.r12, 112);
    assert_eq!(c.sp, 113);
    assert_eq!(c.lr, 114);
    assert_eq!(c.pc, 115);
    assert_eq!(c.spsr, 116);
    assert_eq!(c.to_frame(), words);
}

#[test]
fn scenario_two_threads_alternate() {
    let mut s = Scheduler::new(TRAMPOLINE);
    thread_push(&mut s, 0xa000, 0x1000);
    thread_push(&mut s, 0xb000, 0x3000);
    let (turns, starts, last) = simulate(&mut s, 100, 7);
    assert_eq!(turns.len(), 30);
    for (i, t) in turns.iter().enumerate() {
        assert_eq!(*t, if i % 2 == 0 { 0xa000 } else { 0xb000 });
    }
    assert_eq!(starts, vec![0xa000, 0xb000]);
    assert_eq!(last, Action::ReturnToSystem(SYSTEM_SP));
    assert!(s.is_empty());
}

#[test]
fn scenario_single_thread_never_yields() {
    let mut s = Scheduler::new(TRAMPOLINE);
    thread_push(&mut s, 0xa000, 0x1000);
    let (turns, starts, last) = simulate(&mut s, 100, 0);
    assert_eq!(turns, vec![0xa000]);
    assert_eq!(starts, vec![0xa000]);
    assert_eq!(last, Action::ReturnToSystem(SYSTEM_SP));
    assert!(s.is_empty());
}

#[test]
fn every_thread_starts_and_completes_once() {
    let mut s = Scheduler::new(TRAMPOLINE);
    for i in 0..5u32 {
        thread_push(&mut s, 0xa000 + i, 0x10_0000 + i * 0x1000);
    }
    let (turns, starts, last) = simulate(&mut s, 30, 4);
    assert_eq!(starts, vec![0xa000, 0xa001, 0xa002, 0xa003, 0xa004]);
    assert_eq!(last, Action::ReturnToSystem(SYSTEM_SP));
    for i in 0..5u32 {
        assert_eq!(turns.iter().filter(|t| **t == 0xa000 + i).count(), 8);
    }
}

#[test]
fn round_robin_with_an_exit_in_between() {
    let mut s = Scheduler::new(TRAMPOLINE);
    thread_push(&mut s, 0xa, 0x1000);
    thread_push(&mut s, 0xb, 0x3000);
    thread_push(&mut s, 0xc, 0x5000);
    let first = match thread_join(&mut s, SYSTEM_SP) {
        Action::Dispatch(c) => c,
        other => panic!("unexpected {:?}", other),
    };
    assert_eq!(first.r0, 0xa);
    let mut a = first;
    a.r4 = 42;
    a.pc = RESUME;
    let next = thread_context_switch(&mut s, a);
    assert!(matches!(next, Action::Dispatch(c) if c.r0 == 0xb));
    // b exits during its turn
    let next = thread_done(&mut s);
    assert!(matches!(next, Action::Dispatch(c) if c.r0 == 0xc));
    let mut c = match next {
        Action::Dispatch(c) => c,
        _ => unreachable!(),
    };
    c.pc = RESUME;
    // a resumes with the context it yielded with
    let next = thread_context_switch(&mut s, c);
    assert_eq!(next, Action::Dispatch(a));
    assert_eq!(s.len(), 2);
    // b is never dispatched again
    let mut seen = Vec::new();
    let mut act = next;
    for _ in 0..6 {
        if let Action::Dispatch(ctx) = act {
            seen.push(ctx.sp);
            act = thread_context_switch(&mut s, ctx);
        }
    }
    assert!(!seen.contains(&0x4000));
    assert_eq!(seen, vec![0x2000, 0x6000, 0x2000, 0x6000, 0x2000, 0x6000]);
}

#[test]
fn scenario_unknown_syscall_halts() {
    let mut s = Scheduler::new(TRAMPOLINE);
    thread_push(&mut s, 0xa000, 0x1000);
    let _ = thread_join(&mut s, SYSTEM_SP);
    let r = trampoline_swi(&mut s, 2, Context::default());
    assert_eq!(r, Action::Halt(Fault::UnknownSyscall(2)));
    if let Action::Halt(f) = r {
        assert_eq!(f.message(), "unknown syscall");
    }
    assert_eq!(s.len(), 1);
}

#[test]
fn underflow_is_fatal() {
    let mut s = Scheduler::new(TRAMPOLINE);
    assert_eq!(thread_join(&mut s, SYSTEM_SP), Action::Halt(Fault::SchedulingUnderflow));
    assert_eq!(thread_done(&mut s), Action::Halt(Fault::SchedulingUnderflow));
    assert_eq!(
        thread_context_switch(&mut s, Context::default()),
        Action::Halt(Fault::SchedulingUnderflow)
    );
    assert_eq!(Fault::SchedulingUnderflow.message(), "scheduling underflow");
    assert_eq!(Fault::UnsupportedTrap(Vector::DataAbort).message(), "unsupported trap");
}

#[test]
fn syscall_numbers() {
    assert_eq!(decode_syscall(0), Syscall::Yield);
    assert_eq!(decode_syscall(1), Syscall::Exit);
    assert_eq!(decode_syscall(7), Syscall::Unknown(7));
    assert_eq!(syscall_number(Syscall::Yield), 0);
    assert_eq!(syscall_number(Syscall::Exit), 1);
    assert_eq!(syscall_number(Syscall::Unknown(9)), 9);
}

#[test]
fn vector_table() {
    assert_eq!(vector_from_offset(0), Some(Vector::Reset));
    assert_eq!(vector_from_offset(8), Some(Vector::SoftwareInterrupt));
    assert_eq!(vector_from_offset(28), Some(Vector::Fiq));
    assert_eq!(vector_from_offset(32), None);
    assert_eq!(vector_from_offset(6), None);
    assert_eq!(handler_for(Vector::SoftwareInterrupt), Handler::Syscall);
    assert_eq!(handler_for(Vector::Irq), Handler::Unset);
    assert_eq!(handler_for(Vector::Reset), Handler::Unset);
    assert_eq!(trampoline_unset(Vector::Irq), Action::Halt(Fault::UnsupportedTrap(Vector::Irq)));
    assert_eq!(
        activate_exception_vector_hook(0x8020),
        vec![
            ControlOp::WriteVectorBase(0x8020),
            ControlOp::DataSyncBarrier,
            ControlOp::InstructionSyncBarrier
        ]
    );
}

#[test]
fn overlapping_stack_region_is_not_free() {
    let mut s = Scheduler::new(TRAMPOLINE);
    thread_push(&mut s, 0xa000, 0x1000);
    thread_push(&mut s, 0xb000, 0x3000);
    // regions [0x1000, 0x2000) and [0x3000, 0x4000) are taken
    assert!(!s.region_free(0x1000));
    assert!(!s.region_free(0x1004));
    assert!(!s.region_free(0x0004));
    assert!(!s.region_free(0x2ffc));
    assert!(!s.region_free(0x3000));
    assert!(s.region_free(0x2000));
    assert!(s.region_free(0x0000));
    assert!(s.region_free(0x4000));
    assert_eq!(s.start_trampoline(), TRAMPOLINE);
}
