//! Tests, made before a system call is handled, of what handling it needs
//! of its inputs: that each resolution of a capability pointer ends and
//! that the arithmetic it does stays inside machine words. Where a test
//! passes, the call can be handed to [`crate::syscall::handle_syscall`] (or
//! the trap to [`crate::trap::handle_trap`]).
use vstd::prelude::*;
use crate::arith::pow2_usize;
use crate::align::align_up;
use crate::capability::{Capability, CapabilityData, cap_try_from_u8};
use crate::capability::untyped::{UntypedCap, retype_defined, spec_block_size, dispatch_defined, invoke_retype_defined, window_slot};
use crate::capability::cnode::{CNodeCap, spec_lookup_typed, lookup_defined};
use crate::cap_type::CapabilityType;
use crate::inv_labels::InvLabel;
use crate::object::cnode::{CNode, CSpace, SLOT_SIZE, mdb_neighbours_present};
use crate::object::page_table::{Page, PageTable, table_addr_ok};
use crate::object::tcb::{Registers, ThreadControlBlock, ThreadInfo};
use crate::object::{Endpoint, Notification};
use crate::syscall::{SysCallNo, get_hi32, cap_addr_at, untyped_invocation_defined, cnode_invocation_defined,
    tcb_invocation_defined, invocation_defined, syscall_defined};
use crate::scheduler::SchedulerState;
use crate::trap::{TrapCause, classify_trap, spec_classify_trap};

verus! {

/// Whether retyping `num` objects of kind `K` made with `user_size` from the
/// region of `cap` can be carried out (see [`retype_defined`]).
pub fn retype_ready<K>(cap: &UntypedCap, user_size: usize, num: usize) -> (r: bool)
    where CapabilityData<K>: Capability
    ensures
        r == retype_defined::<K>(*cap, user_size, num),
{
    if cap.is_device() && !CapabilityData::<K>::can_be_retyped_from_device_memory() {
        return true;
    }
    let bits = cap.cap_dep_val & 0x3f;
    if bits >= usize::BITS as u64 {
        return false;
    }
    let size = pow2_usize(bits as u32);
    assert(size == spec_block_size(*cap));
    let addr = cap.get_address();
    if addr > usize::MAX - size {
        return false;
    }
    let free = cap.get_free_index();
    if free > addr + size {
        return false;
    }
    if !CapabilityData::<K>::check_object_size(user_size) {
        return false;
    }
    let osize = CapabilityData::<K>::get_object_size(user_size);
    if osize != 0 && num > usize::MAX / osize {
        proof {
            assert(num * osize > usize::MAX) by (nonlinear_arith)
                requires osize > 0, num > (usize::MAX as int) / (osize as int);
        }
        return false;
    }
    proof {
        if osize != 0 {
            assert(num * osize <= usize::MAX) by (nonlinear_arith)
                requires osize > 0, num <= (usize::MAX as int) / (osize as int);
        }
    }
    let total = num * osize;
    if total <= addr + size - free {
        let align = CapabilityData::<K>::object_align();
        if free > usize::MAX - (align - 1) {
            return false;
        }
        let aligned = align_up(free, align);
        if num != 0 && total > (usize::MAX - aligned) / num {
            proof {
                assert(aligned + total * num > usize::MAX) by (nonlinear_arith)
                    requires num > 0, total > (usize::MAX - aligned) as int / (num as int), aligned <= usize::MAX;
            }
            return false;
        }
        proof {
            if num != 0 {
                assert(aligned + total * num <= usize::MAX) by (nonlinear_arith)
                    requires num > 0, total <= (usize::MAX - aligned) as int / (num as int), aligned <= usize::MAX;
            }
        }
    }
    true
}

/// Whether the derivation neighbours of the entry at `a` are occupied
/// slots (see [`mdb_neighbours_present`]).
pub fn neighbours_present(cspace: &CSpace, a: usize) -> (r: bool)
    requires
        cspace@.contains_key(a),
    ensures
        r == mdb_neighbours_present(cspace@, a),
{
    let e = cspace.get(a).unwrap();
    let next_ok = match e.get_next() {
        Some(n) => cspace.is_occupied(n),
        None => true,
    };
    let prev_ok = match e.get_prev() {
        Some(p) => cspace.is_occupied(p),
        None => true,
    };
    next_ok && prev_ok
}

/// Whether retyping `num` objects of kind `K` into the slots from `base` on,
/// each placed after the entry at `parent`, can be carried out (see
/// [`dispatch_defined`]).
pub fn dispatch_ready<K>(cap: &UntypedCap, cspace: &CSpace, parent: usize, base: usize, user_size: usize, num: usize) -> (r: bool)
    where CapabilityData<K>: Capability
    ensures
        r == dispatch_defined::<K>(*cap, cspace@, parent, base, user_size, num),
{
    if !retype_ready::<K>(cap, user_size, num) || !cspace.is_occupied(parent) || !neighbours_present(cspace, parent) || base == 0 {
        return false;
    }
    if num > (usize::MAX - base) / SLOT_SIZE {
        proof {
            assert(base + SLOT_SIZE * num > usize::MAX) by (nonlinear_arith)
                requires num > (usize::MAX - base) as int / 32, SLOT_SIZE == 32;
        }
        return false;
    }
    proof {
        assert(base + SLOT_SIZE * num <= usize::MAX) by (nonlinear_arith)
            requires num <= (usize::MAX - base) as int / 32, SLOT_SIZE == 32;
    }
    if ((base + SLOT_SIZE * num) as u64) >= 0x1_0000_0000_0000u64 {
        return false;
    }
    let mut j: usize = 0;
    while j < num
        invariant
            j <= num,
            base + SLOT_SIZE * num <= usize::MAX,
            forall|i: int| 0 <= i < j ==> !cspace@.contains_key(#[trigger] window_slot(base, i)),
        decreases num - j,
    {
        proof {
            assert(SLOT_SIZE * j <= SLOT_SIZE * num) by (nonlinear_arith) requires j <= num;
        }
        if cspace.is_occupied(base + SLOT_SIZE * j) {
            assert(cspace@.contains_key(window_slot(base, j as int)));
            return false;
        }
        j = j + 1;
    }
    true
}

/// Whether retyping `num` objects of kind `new_type` can be carried out
/// (see [`invoke_retype_defined`]).
pub fn invoke_retype_ready(cap: &UntypedCap, cspace: &CSpace, parent: usize, base: usize, user_size: usize, num: usize,
    new_type: CapabilityType) -> (r: bool)
    ensures
        r == invoke_retype_defined(*cap, cspace@, parent, base, user_size, num, new_type),
{
    match new_type {
        CapabilityType::Tcb => dispatch_ready::<ThreadControlBlock>(cap, cspace, parent, base, user_size, num),
        CapabilityType::CNode => dispatch_ready::<CNode>(cap, cspace, parent, base, user_size, num),
        CapabilityType::EndPoint => dispatch_ready::<Endpoint>(cap, cspace, parent, base, user_size, num),
        CapabilityType::Notification => dispatch_ready::<Notification>(cap, cspace, parent, base, user_size, num),
        CapabilityType::PageTable => dispatch_ready::<PageTable>(cap, cspace, parent, base, user_size, num),
        CapabilityType::Page => dispatch_ready::<Page>(cap, cspace, parent, base, user_size, num),
        _ => true,
    }
}

/// Whether a retype invocation on the untyped capability at `slot` can be
/// handled (see [`untyped_invocation_defined`]); a resolution that takes
/// more nodes than it has bits counts as not ending.
pub fn untyped_invocation_ready(cspace: &CSpace, root: &CNodeCap, slot: usize, reg: &Registers) -> (r: bool)
    requires
        cspace@.contains_key(slot),
    ensures
        r ==> untyped_invocation_defined(cspace@, *root, slot, *reg),
{
    let nt = match cap_try_from_u8(reg.a6 as u8) {
        Err(_) => return true,
        Ok(t) => t,
    };
    if !root.lookup_ends(cspace, reg.a3, reg.a4 as u32) {
        return false;
    }
    let dslot = match root.lookup_typed(cspace, reg.a3, reg.a4 as u32, CapabilityType::CNode) {
        Err(_) => return true,
        Ok(d) => d,
    };
    let dcap: CNodeCap = cspace.get(dslot).unwrap().cap.recast();
    let num = reg.a5 as u32;
    let index = get_hi32(reg.a4) as u32;
    if !dcap.span_ok() || num as usize > usize::MAX - index as usize {
        return false;
    }
    if num == 0 && (index as usize) < dcap.capacity() {
        return false;
    }
    let base = match dcap.get_writable(cspace, num, index) {
        Err(_) => return true,
        Ok(b) => b,
    };
    let untyped: UntypedCap = cspace.get(slot).unwrap().cap.recast();
    invoke_retype_ready(&untyped, cspace, slot, base, get_hi32(reg.a5), num as usize, nt)
}

/// Whether a node invocation can be handled (see
/// [`cnode_invocation_defined`]), with `dest_root` the invoked node.
pub fn cnode_invocation_ready(cspace: &CSpace, root: &CNodeCap, dest_root: &CNodeCap, reg: &Registers) -> (r: bool)
    ensures
        r ==> cnode_invocation_defined(cspace@, *root, *dest_root, *reg),
{
    let src_depth = get_hi32(reg.a4) as u32;
    if !root.lookup_ends(cspace, reg.a3, src_depth) {
        return false;
    }
    let s = match root.lookup_entry_mut(cspace, reg.a3, src_depth) {
        Err(_) => return true,
        Ok(s) => s,
    };
    if !cspace.is_occupied(s) {
        return true;
    }
    if !dest_root.lookup_ends(cspace, reg.a5, reg.a4 as u32) {
        return false;
    }
    let d = match dest_root.lookup_entry_mut(cspace, reg.a5, reg.a4 as u32) {
        Err(_) => return true,
        Ok(d) => d,
    };
    if cspace.is_occupied(d) {
        return true;
    }
    0 < d && (d as u64) < 0x1_0000_0000_0000u64 && neighbours_present(cspace, s)
}

/// Whether the root page table named by `a3`, `a4` resolves and leaves
/// room for its entries.
fn root_table_ready(cspace: &CSpace, root: &CNodeCap, reg: &Registers) -> (r: bool)
    ensures
        r ==> lookup_defined(cspace@, *root, reg.a3, reg.a4 as u32),
        r ==> (spec_lookup_typed(cspace@, *root, reg.a3, reg.a4 as u32, CapabilityType::PageTable) matches Ok(pt)
            ==> table_addr_ok(cap_addr_at(cspace@, pt))),
{
    if !root.lookup_ends(cspace, reg.a3, reg.a4 as u32) {
        return false;
    }
    match root.lookup_typed(cspace, reg.a3, reg.a4 as u32, CapabilityType::PageTable) {
        Err(_) => true,
        Ok(pt) => cspace.get(pt).unwrap().cap.get_address() <= usize::MAX - 4095,
    }
}

/// Whether a thread invocation can be handled (see
/// [`tcb_invocation_defined`]).
pub fn tcb_invocation_ready(cspace: &CSpace, root: &CNodeCap, label: InvLabel, reg: &Registers) -> (r: bool)
    ensures
        r ==> tcb_invocation_defined(cspace@, *root, label, *reg),
{
    if label == InvLabel::TcbConfigure {
        if !root.lookup_ends(cspace, reg.a3, reg.a4 as u32) {
            return false;
        }
        match root.lookup_entry_mut(cspace, reg.a3, reg.a4 as u32) {
            Err(_) => true,
            Ok(_) => root.lookup_ends(cspace, reg.a5, reg.a6 as u32),
        }
    } else if label == InvLabel::TcbSetIpcBuffer {
        root.lookup_ends(cspace, reg.a3, reg.a4 as u32)
    } else {
        true
    }
}

/// Whether an invocation of the capability at `cap_ptr`, resolved `depth`
/// bits deep from the caller's root node, can be handled (see
/// [`invocation_defined`]).
pub fn invocation_ready(cspace: &CSpace, current: &ThreadInfo, cap_ptr: usize, depth: usize, label: InvLabel, reg: &Registers) -> (r: bool)
    ensures
        r ==> invocation_defined(cspace@, *current, cap_ptr, depth, label, *reg),
{
    let root: CNodeCap = match current.root_cnode {
        None => return true,
        Some(e) => e.cap,
    };
    if !root.lookup_ends(cspace, cap_ptr, depth as u32) {
        return false;
    }
    let slot = match root.lookup_entry_mut(cspace, cap_ptr, depth as u32) {
        Err(_) => return true,
        Ok(s) => s,
    };
    let entry = match cspace.get(slot) {
        None => return true,
        Some(e) => e,
    };
    match entry.get_cap_type() {
        Err(_) => true,
        Ok(CapabilityType::Untyped) => untyped_invocation_ready(cspace, &root, slot, reg),
        Ok(CapabilityType::CNode) => {
            let node: CNodeCap = entry.cap.recast();
            cnode_invocation_ready(cspace, &root, &node, reg)
        },
        Ok(CapabilityType::Tcb) => tcb_invocation_ready(cspace, &root, label, reg),
        Ok(CapabilityType::Page) => {
            !(label == InvLabel::PageMap || label == InvLabel::PageUnMap) || root_table_ready(cspace, &root, reg)
        },
        Ok(CapabilityType::PageTable) => {
            label != InvLabel::PageTableUnMap && (label != InvLabel::PageTableMap || root_table_ready(cspace, &root, reg))
        },
        Ok(_) => true,
    }
}

/// Whether a system call with number `syscall_n` and registers `reg`, made
/// by `current`, can be handled (see [`syscall_defined`]).
pub fn syscall_ready(cspace: &CSpace, current: &ThreadInfo, syscall_n: usize, reg: &Registers) -> (r: bool)
    ensures
        r ==> syscall_defined(cspace@, *current, syscall_n, *reg),
{
    if reg.sepc > usize::MAX - 4 {
        return false;
    }
    match InvLabel::from_code(reg.a2) {
        Err(_) => true,
        Ok(label) => syscall_n == SysCallNo::Print.code() || invocation_ready(cspace, current, reg.a0, reg.a1, label, reg),
    }
}

/// Whether a trap with cause `scause` can be handled (see
/// [`crate::trap::handle_trap`]): the state names only threads that exist,
/// a timer interrupt finds the running thread with time left, and a system
/// call can be handled.
pub fn trap_ready(sched: &SchedulerState, cspace: &CSpace, scause: usize) -> (r: bool)
    ensures
        r ==> sched.wf(),
        r ==> (spec_classify_trap(scause) == TrapCause::SupervisorTimer && sched.current != sched.idle
            ==> sched.threads@[sched.current].time_slice > 0),
        r ==> (spec_classify_trap(scause) == TrapCause::EcallUser ==> {
            let t = sched.threads@[sched.current];
            syscall_defined(cspace@, t, t.registers.a7, t.registers)
        }),
{
    if !sched.is_wf() {
        return false;
    }
    let t = *sched.threads.get(&sched.current).unwrap();
    let cause = classify_trap(scause);
    if cause == TrapCause::SupervisorTimer && sched.current != sched.idle && t.time_slice == 0 {
        return false;
    }
    if cause == TrapCause::EcallUser {
        return syscall_ready(cspace, &t, t.registers.a7, &t.registers);
    }
    true
}

} // verus!
