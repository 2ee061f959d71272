//! Interrupt bookkeeping: which interrupts signal a notification, the
//! notification each one signals, and what to do when one arrives.
//!
//! Masking and acknowledging interrupts in the interrupt controller is
//! hardware work left to the caller; the functions here say when to do it.
use vstd::prelude::*;
use crate::capability::CapabilityData;
use crate::err_kind::{ErrKind, KernelError, KernelResult, kerr, spec_kerr};
use crate::object::Notification;
use crate::object::cnode::{CNode, CNodeEntry, CSlot, CSpace, ManagementDB, spec_mdb_insert, spec_fresh_entry, mdb_neighbours_present};

verus! {

/// The number of interrupts the kernel keeps track of.
pub const MAX_IRQ: usize = 128;

/// Whether an interrupt is routed to a notification.
#[derive(Debug, Clone, Copy, PartialEq, Eq, Structural)]
pub enum IRQStatus {
    Inactive,
    IrqSignal,
}

/// The source of the interrupt being handled.
#[derive(Debug, Clone, Copy, PartialEq, Eq, Structural)]
pub enum IRQReason {
    Timer,
    External(u8),
}

/// What to do about an arriving interrupt: signal this notification (when
/// one is set), then mask the interrupt and acknowledge it.
#[derive(Debug, Clone, Copy)]
pub struct IrqAction {
    pub notify: Option<CapabilityData<Notification>>,
    pub mask: bool,
}

/// The state of every interrupt, the notification slot of every interrupt,
/// and the interrupt being handled, if any.
pub struct IrqTable {
    pub stats: Vec<IRQStatus>,
    pub nodes: Vec<CSlot<Notification>>,
    pub current: Option<IRQReason>,
}

impl IrqTable {
    /// There is a state and a notification slot for each interrupt.
    pub open spec fn wf(&self) -> bool {
        self.stats@.len() == MAX_IRQ && self.nodes@.len() == MAX_IRQ
    }

    /// Every interrupt inactive, with no notification, none being handled.
    pub fn new() -> (r: Self)
        ensures
            r.wf(),
            forall|i: int| 0 <= i < MAX_IRQ ==> r.stats@[i] == IRQStatus::Inactive && r.nodes@[i] is None,
            r.current is None,
    {
        let mut stats: Vec<IRQStatus> = Vec::new();
        let mut nodes: Vec<CSlot<Notification>> = Vec::new();
        let mut i: usize = 0;
        while i < MAX_IRQ
            invariant
                i <= MAX_IRQ,
                stats@.len() == i,
                nodes@.len() == i,
                forall|j: int| 0 <= j < i ==> stats@[j] == IRQStatus::Inactive && nodes@[j] is None,
            decreases MAX_IRQ - i,
        {
            stats.push(IRQStatus::Inactive);
            nodes.push(None);
            i = i + 1;
        }
        IrqTable { stats, nodes, current: None }
    }

    /// Empties the notification slot of every interrupt.
    pub fn init_irq_nodes(&mut self)
        requires
            old(self).wf(),
        ensures
            final(self).wf(),
            final(self).stats@ == old(self).stats@,
            final(self).current == old(self).current,
            forall|i: int| 0 <= i < MAX_IRQ ==> final(self).nodes@[i] is None,
    {
        let mut i: usize = 0;
        while i < MAX_IRQ
            invariant
                i <= MAX_IRQ,
                self.wf(),
                self.stats@ == old(self).stats@,
                self.current == old(self).current,
                forall|j: int| 0 <= j < i ==> self.nodes@[j] is None,
            decreases MAX_IRQ - i,
        {
            self.nodes.set(i, None);
            i = i + 1;
        }
    }

    /// Routes interrupt `irq_number` to its notification: `UnknownIRQ` for
    /// a number without a state, `IRQAlreadyActive` when it is routed
    /// already. The caller then unmasks the interrupt.
    pub fn activate_irq(&mut self, irq_number: usize) -> (r: KernelResult<()>)
        requires
            old(self).wf(),
        ensures
            final(self).wf(),
            final(self).nodes@ == old(self).nodes@,
            final(self).current == old(self).current,
            irq_number >= MAX_IRQ ==> r == Err::<(), KernelError>(spec_kerr(ErrKind::UnknownIRQ)) && final(self).stats@ == old(self).stats@,
            irq_number < MAX_IRQ && old(self).stats@[irq_number as int] == IRQStatus::IrqSignal
                ==> r == Err::<(), KernelError>(spec_kerr(ErrKind::IRQAlreadyActive)) && final(self).stats@ == old(self).stats@,
            irq_number < MAX_IRQ && old(self).stats@[irq_number as int] == IRQStatus::Inactive
                ==> r is Ok && final(self).stats@ == old(self).stats@.update(irq_number as int, IRQStatus::IrqSignal),
    {
        if irq_number >= self.stats.len() {
            return Err(kerr(ErrKind::UnknownIRQ));
        }
        if self.stats[irq_number] == IRQStatus::IrqSignal {
            return Err(kerr(ErrKind::IRQAlreadyActive));
        }
        self.stats.set(irq_number, IRQStatus::IrqSignal);
        Ok(())
    }

    /// Makes interrupt `irq_number` signal the notification whose capability
    /// is in the slot at `not_slot`: a copy of it, kept in the interrupt's
    /// slot at `this`, is placed in the derivation list right after
    /// `not_slot` (see [`spec_mdb_insert`]). The interrupt must have none yet.
    pub fn set_irq(&mut self, irq_number: usize, cspace: &mut CSpace, not_slot: usize, this: usize)
        requires
            old(self).wf(),
            irq_number < MAX_IRQ,
            old(self).nodes@[irq_number as int] is None,
            !old(cspace)@.contains_key(this),
            old(cspace)@.contains_key(not_slot),
            mdb_neighbours_present(old(cspace)@, not_slot),
        ensures
            final(self).wf(),
            final(self).stats@ == old(self).stats@,
            final(self).current == old(self).current,
            ({
                let cap = old(cspace)@[not_slot].cap.spec_recast::<Notification>();
                &&& final(cspace)@ == spec_mdb_insert(old(cspace)@.insert(this, spec_fresh_entry(cap)), this, not_slot)
                &&& final(self).nodes@ == old(self).nodes@.update(irq_number as int,
                    Some(CNodeEntry { cap, mdb: final(cspace)@[this].mdb }))
            }),
    {
        let cap: CapabilityData<Notification> = cspace.get(not_slot).unwrap().cap.recast();
        CNode::insert_cap(cspace, this, not_slot, cap, 0);
        let e = cspace.get(this).unwrap();
        self.nodes.set(irq_number, Some(CNodeEntry { cap, mdb: e.mdb }));
    }

    /// What to do about interrupt `irq_number`: signal its notification when
    /// it is routed and has one, and in every case mask it. The interrupt
    /// is acknowledged: none is being handled any more.
    pub fn handle_irq(&mut self, irq_number: usize) -> (a: IrqAction)
        requires
            old(self).wf(),
        ensures
            final(self).wf(),
            final(self).stats@ == old(self).stats@,
            final(self).nodes@ == old(self).nodes@,
            final(self).current is None,
            a.mask,
            irq_number < MAX_IRQ && old(self).stats@[irq_number as int] == IRQStatus::IrqSignal
                ==> a.notify == (match old(self).nodes@[irq_number as int] { Some(e) => Some(e.cap), None => None }),
            !(irq_number < MAX_IRQ && old(self).stats@[irq_number as int] == IRQStatus::IrqSignal) ==> a.notify is None,
    {
        let notify = if irq_number < self.stats.len() && self.stats[irq_number] == IRQStatus::IrqSignal {
            match &self.nodes[irq_number] {
                Some(e) => Some(e.cap),
                None => None,
            }
        } else {
            None
        };
        self.ack_irq(irq_number);
        IrqAction { notify, mask: true }
    }

    /// Marks the interrupt being handled as done.
    pub fn ack_irq(&mut self, irq_number: usize)
        ensures
            final(self).stats@ == old(self).stats@,
            final(self).nodes@ == old(self).nodes@,
            final(self).current is None,
    {
        self.current = None;
    }
}


impl IrqTable {
    /// The interrupt to handle: the one being handled, if any; otherwise
    /// the pending one the controller reports (an external one, claimed as
    /// number `claimed`, before the timer), which then is the one being
    /// handled; `IRQInvalid` when none is pending.
    pub fn get_active_irq(&mut self, pending_external: bool, pending_timer: bool, claimed: u32) -> (r: KernelResult<IRQReason>)
        ensures
            final(self).stats@ == old(self).stats@,
            final(self).nodes@ == old(self).nodes@,
            old(self).current is Some ==> r == Ok::<IRQReason, KernelError>(old(self).current->Some_0) && final(self).current == old(self).current,
            old(self).current is None && pending_external ==> r == Ok::<IRQReason, KernelError>(IRQReason::External(claimed as u8))
                && final(self).current == Some(IRQReason::External(claimed as u8)),
            old(self).current is None && !pending_external && pending_timer ==> r == Ok::<IRQReason, KernelError>(IRQReason::Timer)
                && final(self).current == Some(IRQReason::Timer),
            old(self).current is None && !pending_external && !pending_timer
                ==> r == Err::<IRQReason, KernelError>(spec_kerr(ErrKind::IRQInvalid)) && final(self).current is None,
    {
        match self.current {
            Some(current) => Ok(current),
            None => {
                let ret = if pending_external {
                    Ok(IRQReason::External(claimed as u8))
                } else if pending_timer {
                    Ok(IRQReason::Timer)
                } else {
                    Err(kerr(ErrKind::IRQInvalid))
                };
                match ret {
                    Ok(reason) => {
                        self.current = Some(reason);
                    },
                    Err(_) => {},
                }
                ret
            },
        }
    }

    /// Handles the interrupt to handle (see [`IrqTable::get_active_irq`]),
    /// which must be an external one (see [`IrqTable::handle_irq`]).
    pub fn handle_irq_entry(&mut self, pending_external: bool, pending_timer: bool, claimed: u32) -> (a: IrqAction)
        requires
            old(self).wf(),
            old(self).current matches Some(IRQReason::External(_)) || (old(self).current is None && pending_external),
        ensures
            final(self).wf(),
            final(self).stats@ == old(self).stats@,
            final(self).nodes@ == old(self).nodes@,
            final(self).current is None,
            a.mask,
            ({
                let n = match old(self).current {
                    Some(IRQReason::External(k)) => k as usize,
                    _ => (claimed as u8) as usize,
                };
                &&& n < MAX_IRQ && old(self).stats@[n as int] == IRQStatus::IrqSignal
                    ==> a.notify == (match old(self).nodes@[n as int] { Some(e) => Some(e.cap), None => None })
                &&& !(n < MAX_IRQ && old(self).stats@[n as int] == IRQStatus::IrqSignal) ==> a.notify is None
            }),
    {
        let reason = self.get_active_irq(pending_external, pending_timer, claimed);
        match reason {
            Ok(IRQReason::External(irq_num)) => self.handle_irq(irq_num as usize),
            _ => {
                proof {
                    assert(false);
                }
                IrqAction { notify: None, mask: true }
            },
        }
    }
}

} // verus!
