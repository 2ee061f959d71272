//! Thread control blocks: a thread's state, its capability and address
//! spaces, its IPC buffer, and its saved registers.
use vstd::prelude::*;
use crate::capability::CapabilityData;
use crate::capability::Something;
use crate::object::cnode::{CNode, CNodeEntry, CSlot, CSpace, ManagementDB, spec_mdb_insert, mdb_neighbours_present, spec_fresh_entry};
use crate::object::page_table::{Page, PageTable};

verus! {

/// The registers saved for a thread when it traps into the kernel.
#[derive(Debug, Clone, Copy, Default, PartialEq, Eq, Structural)]
pub struct Registers {
    pub ra: usize,
    pub sp: usize,
    pub gp: usize,
    pub tp: usize,
    pub t0: usize,
    pub t1: usize,
    pub t2: usize,
    pub s0: usize,
    pub s1: usize,
    pub a0: usize,
    pub a1: usize,
    pub a2: usize,
    pub a3: usize,
    pub a4: usize,
    pub a5: usize,
    pub a6: usize,
    pub a7: usize,
    pub s2: usize,
    pub s3: usize,
    pub s4: usize,
    pub s5: usize,
    pub s6: usize,
    pub s7: usize,
    pub s8: usize,
    pub s9: usize,
    pub s10: usize,
    pub s11: usize,
    pub t3: usize,
    pub t4: usize,
    pub t5: usize,
    pub t6: usize,
    pub sepc: usize,
    pub sstatus: usize,
    pub scause: usize,
}

impl Registers {
    /// All registers zero.
    pub open spec fn spec_null() -> Registers {
        Registers {
            ra: 0, sp: 0, gp: 0, tp: 0, t0: 0, t1: 0, t2: 0, s0: 0, s1: 0,
            a0: 0, a1: 0, a2: 0, a3: 0, a4: 0, a5: 0, a6: 0, a7: 0,
            s2: 0, s3: 0, s4: 0, s5: 0, s6: 0, s7: 0, s8: 0, s9: 0, s10: 0, s11: 0,
            t3: 0, t4: 0, t5: 0, t6: 0, sepc: 0, sstatus: 0, scause: 0,
        }
    }

    /// All registers zero.
    pub fn null() -> (r: Registers)
        ensures
            r == Self::spec_null(),
    {
        Registers {
            ra: 0, sp: 0, gp: 0, tp: 0, t0: 0, t1: 0, t2: 0, s0: 0, s1: 0,
            a0: 0, a1: 0, a2: 0, a3: 0, a4: 0, a5: 0, a6: 0, a7: 0,
            s2: 0, s3: 0, s4: 0, s5: 0, s6: 0, s7: 0, s8: 0, s9: 0, s10: 0, s11: 0,
            t3: 0, t4: 0, t5: 0, t6: 0, sepc: 0, sstatus: 0, scause: 0,
        }
    }
}

/// The scheduling state of a thread.
#[derive(Debug, Clone, Copy, PartialEq, Eq, Structural)]
pub enum ThreadState {
    Inactive,
    Runnable,
    Blocked,
    Idle,
}

/// A thread: its state, the time left in its slice, its capability space,
/// address space and IPC buffer (each a copy of a capability, linked into
/// the derivation list of the slot it was copied from), its saved
/// registers, and its badge.
#[derive(Debug, Clone, Copy)]
pub struct ThreadInfo {
    pub status: ThreadState,
    pub time_slice: usize,
    pub root_cnode: CSlot<CNode>,
    pub vspace: CSlot<PageTable>,
    pub registers: Registers,
    pub ipc_buffer: CSlot<Page>,
    pub badge: usize,
}

/// A thread control block.
pub type ThreadControlBlock = ThreadInfo;

impl ThreadInfo {
    /// A new thread: inactive, no time slice, no spaces, zero registers, no
    /// badge.
    pub open spec fn spec_new() -> ThreadInfo {
        ThreadInfo {
            status: ThreadState::Inactive,
            time_slice: 0,
            root_cnode: None,
            vspace: None,
            registers: Registers::spec_null(),
            ipc_buffer: None,
            badge: 0,
        }
    }

    /// A new, inactive thread.
    pub fn new() -> (r: Self)
        ensures
            r == Self::spec_new(),
    {
        ThreadInfo {
            status: ThreadState::Inactive,
            time_slice: 0,
            root_cnode: None,
            vspace: None,
            registers: Registers::null(),
            ipc_buffer: None,
            badge: 0,
        }
    }

    /// The idle thread: like a new thread, in the idle state.
    pub fn idle_init() -> (r: Self)
        ensures
            r == (ThreadInfo { status: ThreadState::Idle, ..Self::spec_new() }),
    {
        ThreadInfo {
            status: ThreadState::Idle,
            time_slice: 0,
            root_cnode: None,
            vspace: None,
            registers: Registers::null(),
            ipc_buffer: None,
            badge: 0,
        }
    }

    /// Makes the thread runnable.
    pub fn resume(&mut self)
        ensures
            *final(self) == (ThreadInfo { status: ThreadState::Runnable, ..*old(self) }),
    {
        self.status = ThreadState::Runnable;
    }

    /// Blocks the thread.
    pub fn suspend(&mut self)
        ensures
            *final(self) == (ThreadInfo { status: ThreadState::Blocked, ..*old(self) }),
    {
        self.status = ThreadState::Blocked;
    }

    /// Whether the thread is runnable.
    pub fn is_runnable(&self) -> (r: bool)
        ensures
            r == (self.status == ThreadState::Runnable),
    {
        self.status == ThreadState::Runnable
    }

    /// Gives the thread a new time slice.
    pub fn set_timeout(&mut self, time_out: usize)
        ensures
            *final(self) == (ThreadInfo { time_slice: time_out, ..*old(self) }),
    {
        self.time_slice = time_out;
    }

    /// Gives the thread its capability space: a copy of `cap` kept by the
    /// thread in the slot at `this`, placed in the derivation list right
    /// after the entry at `parent` it was copied from (see
    /// [`spec_mdb_insert`]). The thread must have none yet.
    pub fn set_root_cspace(&mut self, cap: CapabilityData<CNode>, cspace: &mut CSpace, this: usize, parent: usize)
        requires
            old(self).root_cnode is None,
            !old(cspace)@.contains_key(this),
            old(cspace)@.contains_key(parent),
            mdb_neighbours_present(old(cspace)@, parent),
        ensures
            final(cspace)@ == spec_mdb_insert(old(cspace)@.insert(this, spec_fresh_entry(cap)), this, parent),
            *final(self) == (ThreadInfo { root_cnode: Some(CNodeEntry { cap, mdb: final(cspace)@[this].mdb }), ..*old(self) }),
    {
        CNode::insert_cap(cspace, this, parent, cap, 0);
        let e = cspace.get(this).unwrap();
        self.root_cnode = Some(CNodeEntry { cap, mdb: e.mdb });
    }

    /// Gives the thread its address space: a copy of `cap` kept by the
    /// thread in the slot at `this`, placed in the derivation list right
    /// after the entry at `parent` it was copied from. The thread must have
    /// none yet.
    pub fn set_root_vspace(&mut self, cap: CapabilityData<PageTable>, cspace: &mut CSpace, this: usize, parent: usize)
        requires
            old(self).vspace is None,
            !old(cspace)@.contains_key(this),
            old(cspace)@.contains_key(parent),
            mdb_neighbours_present(old(cspace)@, parent),
        ensures
            final(cspace)@ == spec_mdb_insert(old(cspace)@.insert(this, spec_fresh_entry(cap)), this, parent),
            *final(self) == (ThreadInfo { vspace: Some(CNodeEntry { cap, mdb: final(cspace)@[this].mdb }), ..*old(self) }),
    {
        CNode::insert_cap(cspace, this, parent, cap, 0);
        let e = cspace.get(this).unwrap();
        self.vspace = Some(CNodeEntry { cap, mdb: e.mdb });
    }

    /// Gives the thread its IPC buffer: a copy of `cap` kept by the thread
    /// in the slot at `this`, placed in the derivation list right after the
    /// entry at `parent` it was copied from. The thread must have none yet.
    pub fn set_ipc_buffer(&mut self, cap: CapabilityData<Page>, cspace: &mut CSpace, this: usize, parent: usize)
        requires
            old(self).ipc_buffer is None,
            !old(cspace)@.contains_key(this),
            old(cspace)@.contains_key(parent),
            mdb_neighbours_present(old(cspace)@, parent),
        ensures
            final(cspace)@ == spec_mdb_insert(old(cspace)@.insert(this, spec_fresh_entry(cap)), this, parent),
            *final(self) == (ThreadInfo { ipc_buffer: Some(CNodeEntry { cap, mdb: final(cspace)@[this].mdb }), ..*old(self) }),
    {
        CNode::insert_cap(cspace, this, parent, cap, 0);
        let e = cspace.get(this).unwrap();
        self.ipc_buffer = Some(CNodeEntry { cap, mdb: e.mdb });
    }
}

} // verus!
