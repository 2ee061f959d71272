//! Trap handling: telling interrupts from exceptions by the cause register,
//! and what the kernel does about each.
//!
//! Saving and restoring registers, programming the timer and returning to
//! user mode are the caller's work; the decision of what to do is made here.
use vstd::prelude::*;
use crate::object::cnode::CSpace;
use crate::object::page_table::PageMemory;
use crate::object::tcb::ThreadInfo;
use crate::scheduler::SchedulerState;
use crate::syscall::{handle_syscall, syscall_defined, syscall_result, SyscallOutcome};

verus! {

broadcast use vstd::std_specs::hash::group_hash_axioms;

/// The timer interval set after each timer interrupt.
pub const TIMER_INTERVAL: usize = 10000;

/// The cause of a trap, as the cause register encodes it.
#[derive(Debug, Clone, Copy, PartialEq, Eq, Structural)]
pub enum TrapCause {
    SupervisorSoftware,
    SupervisorTimer,
    SupervisorExternal,
    CounterOverflow,
    UnexpectedInterrupt,
    InstMisaligned,
    InstAccessFault,
    IllegalInst,
    Breakpoint,
    LoadMisaligned,
    LoadAccessFault,
    StoreMisaligned,
    StoreAccessFault,
    EcallUser,
    EcallSupervisor,
    InstPageFault,
    LoadPageFault,
    StorePageFault,
    UnexpectedException,
}

/// The trap is an interrupt: the top bit of the cause is set.
pub open spec fn spec_is_interrupt(scause: usize) -> bool {
    scause >> ((usize::BITS - 1) as usize) == 1
}

/// The cause code: the cause without its top bit.
pub open spec fn spec_cause_code(scause: usize) -> usize {
    scause & !((1usize << ((usize::BITS - 1) as usize)) as usize)
}

/// The cause named by an interrupt code.
pub open spec fn spec_interrupt_cause(code: usize) -> TrapCause {
    if code == 1 {
        TrapCause::SupervisorSoftware
    } else if code == 5 {
        TrapCause::SupervisorTimer
    } else if code == 9 {
        TrapCause::SupervisorExternal
    } else if code == 13 {
        TrapCause::CounterOverflow
    } else {
        TrapCause::UnexpectedInterrupt
    }
}

/// The cause named by an exception code.
pub open spec fn spec_exception_cause(code: usize) -> TrapCause {
    if code == 0 {
        TrapCause::InstMisaligned
    } else if code == 1 {
        TrapCause::InstAccessFault
    } else if code == 2 {
        TrapCause::IllegalInst
    } else if code == 3 {
        TrapCause::Breakpoint
    } else if code == 4 {
        TrapCause::LoadMisaligned
    } else if code == 5 {
        TrapCause::LoadAccessFault
    } else if code == 6 {
        TrapCause::StoreMisaligned
    } else if code == 7 {
        TrapCause::StoreAccessFault
    } else if code == 8 {
        TrapCause::EcallUser
    } else if code == 9 {
        TrapCause::EcallSupervisor
    } else if code == 12 {
        TrapCause::InstPageFault
    } else if code == 13 {
        TrapCause::LoadPageFault
    } else if code == 15 {
        TrapCause::StorePageFault
    } else {
        TrapCause::UnexpectedException
    }
}

/// The cause of a trap with cause register `scause`.
pub open spec fn spec_classify_trap(scause: usize) -> TrapCause {
    if spec_is_interrupt(scause) {
        spec_interrupt_cause(spec_cause_code(scause))
    } else {
        spec_exception_cause(spec_cause_code(scause))
    }
}

/// Decodes the cause register.
pub fn classify_trap(scause: usize) -> (r: TrapCause)
    ensures
        r == spec_classify_trap(scause),
{
    let top: usize = usize::BITS as usize - 1;
    let code = scause & !(1usize << top);
    if (scause >> top) == 1 {
        if code == 1 {
            TrapCause::SupervisorSoftware
        } else if code == 5 {
            TrapCause::SupervisorTimer
        } else if code == 9 {
            TrapCause::SupervisorExternal
        } else if code == 13 {
            TrapCause::CounterOverflow
        } else {
            TrapCause::UnexpectedInterrupt
        }
    } else {
        if code == 0 {
            TrapCause::InstMisaligned
        } else if code == 1 {
            TrapCause::InstAccessFault
        } else if code == 2 {
            TrapCause::IllegalInst
        } else if code == 3 {
            TrapCause::Breakpoint
        } else if code == 4 {
            TrapCause::LoadMisaligned
        } else if code == 5 {
            TrapCause::LoadAccessFault
        } else if code == 6 {
            TrapCause::StoreMisaligned
        } else if code == 7 {
            TrapCause::StoreAccessFault
        } else if code == 8 {
            TrapCause::EcallUser
        } else if code == 9 {
            TrapCause::EcallSupervisor
        } else if code == 12 {
            TrapCause::InstPageFault
        } else if code == 13 {
            TrapCause::LoadPageFault
        } else if code == 15 {
            TrapCause::StorePageFault
        } else {
            TrapCause::UnexpectedException
        }
    }
}

/// What is left to do after a trap has been handled.
#[derive(Debug, Clone, Copy)]
pub enum TrapOutcome {
    /// A timer interrupt: set the timer `TIMER_INTERVAL` ahead, then schedule.
    Timer,
    /// A system call of the current thread: finish it as this says, then schedule.
    Syscall(SyscallOutcome),
    /// A trap the kernel does not handle: stop, reporting its cause.
    Fatal(TrapCause),
}

/// Handles a trap with cause register `scause`. A timer interrupt is one
/// tick (see [`SchedulerState::timer_tick`]); a system call from user mode
/// is handled with the current thread's registers, as its system-call
/// number in `a7` says (see [`handle_syscall`]), and the registers it ends
/// with are stored back in the thread. Any other trap changes nothing and
/// is fatal.
pub fn handle_trap(sched: &mut SchedulerState, cspace: &mut CSpace, pages: &mut PageMemory, scause: usize) -> (r: TrapOutcome)
    requires
        old(sched).wf(),
        spec_classify_trap(scause) == TrapCause::SupervisorTimer && old(sched).current != old(sched).idle
            ==> old(sched).threads@[old(sched).current].time_slice > 0,
        spec_classify_trap(scause) == TrapCause::EcallUser ==> {
            let t = old(sched).threads@[old(sched).current];
            syscall_defined(old(cspace)@, t, t.registers.a7, t.registers)
        },
    ensures
        final(sched).wf(),
        final(sched).current == old(sched).current,
        final(sched).idle == old(sched).idle,
        final(sched).cpu == old(sched).cpu,
        final(sched).scheduler.runqueue@ == old(sched).scheduler.runqueue@,
        ({
            let cause = spec_classify_trap(scause);
            let cur = old(sched).current;
            let t = old(sched).threads@[cur];
            if cause == TrapCause::SupervisorTimer {
                &&& r is Timer
                &&& final(cspace)@ == old(cspace)@
                &&& final(pages)@ == old(pages)@
                &&& (cur == old(sched).idle ==> final(sched).threads@ == old(sched).threads@
                    && final(sched).scheduler.requested == old(sched).scheduler.requested)
                &&& (cur != old(sched).idle ==> final(sched).threads@ == old(sched).threads@.insert(cur,
                        ThreadInfo { time_slice: (t.time_slice - 1) as usize, ..t })
                    && final(sched).scheduler.requested == (old(sched).scheduler.requested || t.time_slice == 1))
            } else if cause == TrapCause::EcallUser {
                exists|out: SyscallOutcome, reg2: crate::object::tcb::Registers| {
                    &&& r == TrapOutcome::Syscall(out)
                    &&& syscall_result(old(cspace)@, old(pages)@, t, t.registers.a7, t.registers, out, reg2, final(cspace)@, final(pages)@)
                    &&& final(sched).threads@ == old(sched).threads@.insert(cur, ThreadInfo { registers: reg2, ..t })
                    &&& final(sched).scheduler.requested == old(sched).scheduler.requested
                }
            } else {
                &&& r == TrapOutcome::Fatal(cause)
                &&& final(cspace)@ == old(cspace)@
                &&& final(pages)@ == old(pages)@
                &&& final(sched).threads@ == old(sched).threads@
                &&& final(sched).scheduler.requested == old(sched).scheduler.requested
            }
        }),
{
    let cause = classify_trap(scause);
    match cause {
        TrapCause::SupervisorTimer => {
            sched.timer_tick();
            TrapOutcome::Timer
        },
        TrapCause::EcallUser => {
            let cur = sched.current;
            let mut t = *sched.threads.get(&cur).unwrap();
            let mut reg = t.registers;
            let syscall_n = reg.a7;
            let out = handle_syscall(cspace, pages, &t, syscall_n, &mut reg);
            t.registers = reg;
            sched.threads.insert(cur, t);
            proof {
                assert forall|i: int| 0 <= i < sched.scheduler.runqueue@.len()
                    implies #[trigger] sched.threads@.contains_key(sched.scheduler.runqueue@[i]) by {
                    assert(old(sched).threads@.contains_key(old(sched).scheduler.runqueue@[i]));
                }
            }
            TrapOutcome::Syscall(out)
        },
        _ => TrapOutcome::Fatal(cause),
    }
}

} // verus!
