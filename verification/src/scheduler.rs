//! Scheduling decisions: the run queue, the current thread, time slices,
//! and the choice of the next thread to run.
//!
//! Threads are named by the address of their control block; the model of
//! thread memory maps that address to the thread. Switching the address
//! space of the chosen thread is left to the caller.
use vstd::prelude::*;
use std::collections::HashMap;
use crate::object::tcb::{Registers, ThreadInfo, ThreadState};
use crate::object::cnode::CSpace;
use crate::capability::spec_cap_address;
use crate::err_kind::{ErrKind, KernelError, KernelResult, kerr, spec_kerr};

verus! {

broadcast use vstd::std_specs::hash::group_hash_axioms;

pub const TICK_HZ: usize = 1000;
/// The time slice a thread is given when it is scheduled, in ticks.
pub const TASK_QUANTUM: usize = 20;
/// The status bit that makes a return from a trap go to supervisor mode.
pub const SSTATUS_SPP: usize = 0x100;

/// The run queue and whether a reschedule has been asked for.
pub struct Scheduler {
    pub runqueue: Vec<usize>,
    pub requested: bool,
}

impl Scheduler {
    /// An empty run queue with no reschedule asked for.
    pub fn new() -> (r: Self)
        ensures
            r.runqueue@ == Seq::<usize>::empty(),
            !r.requested,
    {
        Scheduler { runqueue: Vec::new(), requested: false }
    }

    /// Appends a thread to the run queue.
    pub fn push(&mut self, tcb: usize)
        ensures
            final(self).runqueue@ == old(self).runqueue@.push(tcb),
            final(self).requested == old(self).requested,
    {
        self.runqueue.push(tcb);
    }

    /// Takes the thread at the head of the run queue, if any.
    pub fn sched(&mut self) -> (r: Option<usize>)
        ensures
            final(self).requested == old(self).requested,
            old(self).runqueue@.len() == 0 ==> r is None && final(self).runqueue@ == old(self).runqueue@,
            old(self).runqueue@.len() > 0 ==> r == Some(old(self).runqueue@[0])
                && final(self).runqueue@ == old(self).runqueue@.drop_first(),
    {
        if self.runqueue.len() == 0 {
            None
        } else {
            Some(self.runqueue.remove(0))
        }
    }
}

/// The per-processor variables: the top of the kernel stack, a scratch
/// word, and the thread whose registers receive the next trap.
#[derive(Debug, Clone, Copy)]
pub struct CpuVar {
    pub sptop: usize,
    pub sscratch: usize,
    pub cur_reg_base: usize,
}

/// The scheduler's whole state: the run queue, the current and the idle
/// thread, the threads themselves, and the processor variables.
pub struct SchedulerState {
    pub scheduler: Scheduler,
    pub current: usize,
    pub idle: usize,
    pub threads: HashMap<usize, ThreadInfo>,
    pub cpu: CpuVar,
}

impl SchedulerState {
    /// Every thread named by the state exists.
    pub open spec fn wf(&self) -> bool {
        &&& self.threads@.contains_key(self.current)
        &&& self.threads@.contains_key(self.idle)
        &&& forall|i: int| 0 <= i < self.scheduler.runqueue@.len() ==> #[trigger] self.threads@.contains_key(self.scheduler.runqueue@[i])
    }

    /// Prepares the idle thread to run at `idle_entry` in supervisor mode on
    /// the stack at `stack_top`, and makes it the current thread, whose
    /// registers receive the next trap.
    pub fn create_idle_thread(&mut self, stack_top: usize, idle_entry: usize)
        requires
            old(self).wf(),
        ensures
            final(self).wf(),
            final(self).current == old(self).idle,
            final(self).idle == old(self).idle,
            final(self).threads@ == old(self).threads@.insert(old(self).idle, ThreadInfo {
                registers: Registers {
                    sepc: idle_entry,
                    sstatus: SSTATUS_SPP | crate::root_server::SSTATUS_SPIE,
                    sp: stack_top,
                    ..old(self).threads@[old(self).idle].registers
                },
                ..old(self).threads@[old(self).idle]
            }),
            final(self).cpu == (CpuVar { cur_reg_base: old(self).idle, sptop: stack_top, ..old(self).cpu }),
            final(self).scheduler.runqueue@ == old(self).scheduler.runqueue@,
            final(self).scheduler.requested == old(self).scheduler.requested,
    {
        let idle = self.idle;
        let mut t = *self.threads.get(&idle).unwrap();
        t.registers.sepc = idle_entry;
        t.registers.sstatus = SSTATUS_SPP | crate::root_server::SSTATUS_SPIE;
        t.registers.sp = stack_top;
        self.threads.insert(idle, t);
        self.current = idle;
        self.cpu.cur_reg_base = idle;
        self.cpu.sptop = stack_top;
    }

    /// The current thread.
    pub fn get_current_tcb_mut(&self) -> (r: ThreadInfo)
        requires
            self.wf(),
        ensures
            r == self.threads@[self.current],
    {
        *self.threads.get(&self.current).unwrap()
    }

    /// The registers of the thread that receives the next trap.
    pub fn get_current_reg(&self) -> (r: Registers)
        requires
            self.threads@.contains_key(self.cpu.cur_reg_base),
        ensures
            r == self.threads@[self.cpu.cur_reg_base].registers,
    {
        self.threads.get(&self.cpu.cur_reg_base).unwrap().registers
    }

    /// Asks for a reschedule at the next opportunity.
    pub fn require_schedule(&mut self)
        ensures
            final(self).scheduler.requested,
            final(self).scheduler.runqueue@ == old(self).scheduler.runqueue@,
            final(self).current == old(self).current,
            final(self).idle == old(self).idle,
            final(self).threads@ == old(self).threads@,
            final(self).cpu == old(self).cpu,
    {
        self.scheduler.requested = true;
    }

    /// Makes the thread `tcb` runnable and appends it to the run queue.
    pub fn resume(&mut self, tcb: usize)
        requires
            old(self).wf(),
            old(self).threads@.contains_key(tcb),
        ensures
            final(self).wf(),
            final(self).threads@ == old(self).threads@.insert(tcb, ThreadInfo { status: ThreadState::Runnable, ..old(self).threads@[tcb] }),
            final(self).scheduler.runqueue@ == old(self).scheduler.runqueue@.push(tcb),
            final(self).scheduler.requested == old(self).scheduler.requested,
            final(self).current == old(self).current,
            final(self).idle == old(self).idle,
            final(self).cpu == old(self).cpu,
    {
        let mut t = *self.threads.get(&tcb).unwrap();
        t.resume();
        self.threads.insert(tcb, t);
        self.scheduler.push(tcb);
    }

    /// Whether every thread named by the state exists (see [`Self::wf`]).
    pub fn is_wf(&self) -> (r: bool)
        ensures
            r == self.wf(),
    {
        if !self.threads.contains_key(&self.current) || !self.threads.contains_key(&self.idle) {
            return false;
        }
        let mut i: usize = 0;
        while i < self.scheduler.runqueue.len()
            invariant
                0 <= i <= self.scheduler.runqueue@.len(),
                forall|k: int| 0 <= k < i ==> #[trigger] self.threads@.contains_key(self.scheduler.runqueue@[k]),
            decreases self.scheduler.runqueue@.len() - i,
        {
            if !self.threads.contains_key(&self.scheduler.runqueue[i]) {
                return false;
            }
            i = i + 1;
        }
        true
    }

    /// Whether [`Self::resume_slot`] can carry out a resume of the thread
    /// whose capability is in the slot at `slot`: the state names only
    /// threads that exist, and the slot is empty or its capability names a
    /// thread that exists.
    pub fn resume_slot_ready(&self, cspace: &CSpace, slot: usize) -> (r: bool)
        ensures
            r == (self.wf() && (cspace@.contains_key(slot) ==> self.threads@.contains_key(spec_cap_address(cspace@[slot].cap)))),
    {
        if !self.is_wf() {
            return false;
        }
        match cspace.get(slot) {
            None => true,
            Some(entry) => self.threads.contains_key(&entry.cap.get_address()),
        }
    }

    /// Carries out a handed-back resume (see
    /// [`crate::syscall::Invocation::TcbResume`]): the
    /// thread whose capability is in the slot at `slot` becomes runnable and
    /// joins the run queue (see [`Self::resume`]); `SlotIsEmpty`, with
    /// nothing changed, when the slot is empty.
    pub fn resume_slot(&mut self, cspace: &CSpace, slot: usize) -> (r: KernelResult<()>)
        requires
            old(self).wf(),
            cspace@.contains_key(slot) ==> old(self).threads@.contains_key(spec_cap_address(cspace@[slot].cap)),
        ensures
            final(self).wf(),
            final(self).current == old(self).current,
            final(self).idle == old(self).idle,
            final(self).cpu == old(self).cpu,
            final(self).scheduler.requested == old(self).scheduler.requested,
            !cspace@.contains_key(slot) ==> {
                &&& r == Err::<(), KernelError>(spec_kerr(ErrKind::SlotIsEmpty))
                &&& final(self).threads@ == old(self).threads@
                &&& final(self).scheduler.runqueue@ == old(self).scheduler.runqueue@
            },
            cspace@.contains_key(slot) ==> {
                let tcb = spec_cap_address(cspace@[slot].cap);
                &&& r is Ok
                &&& final(self).threads@ == old(self).threads@.insert(tcb, ThreadInfo { status: ThreadState::Runnable, ..old(self).threads@[tcb] })
                &&& final(self).scheduler.runqueue@ == old(self).scheduler.runqueue@.push(tcb)
            },
    {
        match cspace.get(slot) {
            None => Err(kerr(ErrKind::SlotIsEmpty)),
            Some(entry) => {
                let tcb = entry.cap.get_address();
                self.resume(tcb);
                Ok(())
            },
        }
    }

    /// One timer tick: unless the idle thread runs, the current thread's
    /// time slice shrinks by one, and a reschedule is asked for when it is
    /// used up.
    pub fn timer_tick(&mut self)
        requires
            old(self).wf(),
            old(self).current != old(self).idle ==> old(self).threads@[old(self).current].time_slice > 0,
        ensures
            final(self).wf(),
            final(self).current == old(self).current,
            final(self).idle == old(self).idle,
            final(self).cpu == old(self).cpu,
            final(self).scheduler.runqueue@ == old(self).scheduler.runqueue@,
            old(self).current == old(self).idle ==> final(self).threads@ == old(self).threads@
                && final(self).scheduler.requested == old(self).scheduler.requested,
            old(self).current != old(self).idle ==> {
                let t = old(self).threads@[old(self).current];
                &&& final(self).threads@ == old(self).threads@.insert(old(self).current, ThreadInfo { time_slice: (t.time_slice - 1) as usize, ..t })
                &&& final(self).scheduler.requested == (old(self).scheduler.requested || t.time_slice == 1)
            },
    {
        if self.current == self.idle {
            return;
        }
        let cur = self.current;
        let mut t = *self.threads.get(&cur).unwrap();
        t.time_slice = t.time_slice - 1;
        let used_up = t.time_slice == 0;
        self.threads.insert(cur, t);
        if used_up {
            self.scheduler.requested = true;
        }
    }

    /// Chooses the next thread when a reschedule has been asked for. The
    /// head of the run queue, when there is one, runs next with a fresh time
    /// slice, and the current thread, when runnable, goes to the back of the
    /// queue. With an empty queue a runnable current thread keeps running
    /// with a fresh time slice (and the request stays); otherwise the idle
    /// thread runs. Returns the thread switched to, if there was a switch.
    pub fn schedule(&mut self) -> (r: Option<usize>)
        requires
            old(self).wf(),
        ensures
            final(self).wf(),
            final(self).idle == old(self).idle,
            ({
                let q = old(self).scheduler.runqueue@;
                let th = old(self).threads@;
                let cur = old(self).current;
                let runnable = th[cur].status == ThreadState::Runnable;
                if !old(self).scheduler.requested {
                    r is None && final(self).threads@ == th && final(self).scheduler.runqueue@ == q
                        && final(self).current == cur && final(self).cpu == old(self).cpu && !final(self).scheduler.requested
                } else if q.len() > 0 {
                    let next = q[0];
                    let th1 = th.insert(next, ThreadInfo { time_slice: TASK_QUANTUM, ..th[next] });
                    &&& r == Some(next)
                    &&& final(self).threads@ == th1
                    &&& final(self).scheduler.runqueue@ == (if th1[cur].status == ThreadState::Runnable { q.drop_first().push(cur) } else { q.drop_first() })
                    &&& final(self).current == next
                    &&& final(self).cpu == (CpuVar { cur_reg_base: next, ..old(self).cpu })
                    &&& !final(self).scheduler.requested
                } else if runnable {
                    &&& r is None
                    &&& final(self).threads@ == th.insert(cur, ThreadInfo { time_slice: TASK_QUANTUM, ..th[cur] })
                    &&& final(self).scheduler.runqueue@ == q
                    &&& final(self).current == cur
                    &&& final(self).cpu == old(self).cpu
                    &&& final(self).scheduler.requested
                } else {
                    &&& r == Some(old(self).idle)
                    &&& final(self).threads@ == th
                    &&& final(self).scheduler.runqueue@ == q
                    &&& final(self).current == old(self).idle
                    &&& final(self).cpu == (CpuVar { cur_reg_base: old(self).idle, ..old(self).cpu })
                    &&& !final(self).scheduler.requested
                }
            }),
    {
        if !self.scheduler.requested {
            return None;
        }
        let next = match self.scheduler.sched() {
            Some(next) => {
                let mut t = *self.threads.get(&next).unwrap();
                t.set_timeout(TASK_QUANTUM);
                self.threads.insert(next, t);
                let cur = self.current;
                let c = *self.threads.get(&cur).unwrap();
                if c.is_runnable() {
                    self.scheduler.push(cur);
                }
                next
            },
            None => {
                let cur = self.current;
                let mut c = *self.threads.get(&cur).unwrap();
                if c.is_runnable() {
                    c.set_timeout(TASK_QUANTUM);
                    self.threads.insert(cur, c);
                    return None;
                }
                self.idle
            },
        };
        self.cpu.cur_reg_base = next;
        self.current = next;
        self.scheduler.requested = false;
        Some(next)
    }
}

/// A reschedule with a non-empty run queue moves the head to the processor
/// and keeps every other queued thread, in order: the queue is the old
/// queue without its head, followed by the old current thread when it is
/// still runnable.
pub proof fn lemma_schedule_round_robin(q: Seq<usize>, cur: usize, runnable: bool, q2: Seq<usize>)
    requires
        q.len() > 0,
        q2 == (if runnable { q.drop_first().push(cur) } else { q.drop_first() }),
    ensures
        forall|i: int| 1 <= i < q.len() ==> q2[i - 1] == q[i],
        runnable ==> q2.len() == q.len() && q2.last() == cur,
        !runnable ==> q2.len() == q.len() - 1,
{
}

} // verus!
