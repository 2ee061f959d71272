use lib::cap_type::CapabilityType;
use lib::capability::cnode::CNodeCap;
use lib::capability::traverse::TraverseEvent;
use lib::capability::CapabilityData;
use lib::irq::{IRQReason, IRQStatus, IrqTable, MAX_IRQ};
use lib::object::cnode::CSpace;
use lib::object::page_table::{PageMemory, PageTable, PAGE_R, PAGE_U, PAGE_W, PAGE_X};
use lib::object::tcb::{ThreadInfo, ThreadState};
use lib::root_server::{
    BumpAllocator, ProgramSegment, RootServerElfMapper, RootServerMemory, RootServerResourceManager,
    ROOT_CNODE_IDX, ROOT_IPC_BUFFER, ROOT_TCB_IDX, ROOT_VSPACE_IDX, SSTATUS_SPIE,
};
use lib::scheduler::{CpuVar, Scheduler, SchedulerState, TASK_QUANTUM};
use lib::trap::{classify_trap, handle_trap, TrapCause, TrapOutcome};
use lib::vm::{kernel_vm_init, KernelLayout};
use std::collections::HashMap;

fn sched_with(threads: &[(usize, ThreadInfo)], current: usize, idle: usize) -> SchedulerState {
    let mut map = HashMap::new();
    for (a, t) in threads {
        map.insert(*a, *t);
    }
    SchedulerState {
        scheduler: Scheduler::new(),
        current,
        idle,
        threads: map,
        cpu: CpuVar { sptop: 0, sscratch: 0, cur_reg_base: current },
    }
}

#[test]
fn bump_allocator_hands_out_pages_in_order() {
    let mut b = BumpAllocator::new(0x8000_0000, 0x8001_0000);
    assert_eq!(b.allocate_page(), 0x8000_0000);
    assert_eq!(b.allocate_pages(3), 0x8000_1000);
    assert_eq!(b.allocate_page(), 0x8000_4000);
    assert_eq!(b.end_allocation(), (0x8000_5000, 0x8001_0000));
}

#[test]
fn resource_manager_hands_out_slots_and_untyped_regions() {
    let b = BumpAllocator::new(0x8000_0000, 0x8000_0000 + 0x7000);
    let mut mgr = RootServerResourceManager::new(b, 6, 100);
    assert_eq!(mgr.alloc_cnode_idx(), 6);
    assert_eq!(mgr.alloc_page(), 0x8000_0000);
    let mut gen = mgr.finalize();
    // 0x6000 bytes are left: a region of 0x4000, then one of 0x2000, then none
    let (idx, cap) = gen.next().unwrap();
    assert_eq!(idx, 7);
    assert_eq!(cap.get_address(), 0x8000_1000);
    assert_eq!(cap.block_size(), 0x4000);
    let (idx, cap) = gen.next().unwrap();
    assert_eq!(idx, 8);
    assert_eq!(cap.get_address(), 0x8000_5000);
    assert_eq!(cap.block_size(), 0x2000);
    assert!(gen.next().is_none());
}

#[test]
fn scheduler_round_robin() {
    let mut a = ThreadInfo::new();
    a.resume();
    let b = ThreadInfo::new();
    let idle = ThreadInfo::idle_init();
    let mut s = sched_with(&[(0x100, a), (0x200, b), (0x300, idle)], 0x100, 0x300);
    s.resume(0x200);
    s.require_schedule();
    assert_eq!(s.schedule(), Some(0x200));
    assert_eq!(s.current, 0x200);
    assert_eq!(s.cpu.cur_reg_base, 0x200);
    assert_eq!(s.threads.get(&0x200).unwrap().time_slice, TASK_QUANTUM);
    assert_eq!(s.scheduler.runqueue, vec![0x100]);
    assert!(!s.scheduler.requested);
    // no request: nothing changes
    assert_eq!(s.schedule(), None);
    assert_eq!(s.current, 0x200);
}

#[test]
fn scheduler_falls_back_to_idle() {
    let blocked = ThreadInfo::new();
    let idle = ThreadInfo::idle_init();
    let mut s = sched_with(&[(0x100, blocked), (0x300, idle)], 0x100, 0x300);
    s.require_schedule();
    assert_eq!(s.schedule(), Some(0x300));
    assert_eq!(s.current, 0x300);
}

#[test]
fn timer_ticks_use_up_the_time_slice() {
    let mut a = ThreadInfo::new();
    a.resume();
    a.set_timeout(2);
    let idle = ThreadInfo::idle_init();
    let mut s = sched_with(&[(0x100, a), (0x300, idle)], 0x100, 0x300);
    let mut cs = CSpace::new();
    let mut pm = PageMemory::new();
    let timer_cause: usize = (1usize << (usize::BITS - 1)) | 5;
    assert!(matches!(handle_trap(&mut s, &mut cs, &mut pm, timer_cause), TrapOutcome::Timer));
    assert_eq!(s.threads.get(&0x100).unwrap().time_slice, 1);
    assert!(!s.scheduler.requested);
    assert!(matches!(handle_trap(&mut s, &mut cs, &mut pm, timer_cause), TrapOutcome::Timer));
    assert_eq!(s.threads.get(&0x100).unwrap().time_slice, 0);
    assert!(s.scheduler.requested);
}

#[test]
fn trap_causes() {
    let top = 1usize << (usize::BITS - 1);
    assert_eq!(classify_trap(top | 5), TrapCause::SupervisorTimer);
    assert_eq!(classify_trap(top | 9), TrapCause::SupervisorExternal);
    assert_eq!(classify_trap(top | 1), TrapCause::SupervisorSoftware);
    assert_eq!(classify_trap(top | 2), TrapCause::UnexpectedInterrupt);
    assert_eq!(classify_trap(8), TrapCause::EcallUser);
    assert_eq!(classify_trap(13), TrapCause::LoadPageFault);
    assert_eq!(classify_trap(15), TrapCause::StorePageFault);
    assert_eq!(classify_trap(14), TrapCause::UnexpectedException);
}

#[test]
fn a_page_fault_is_fatal_and_changes_nothing() {
    let idle = ThreadInfo::idle_init();
    let mut s = sched_with(&[(0x300, idle)], 0x300, 0x300);
    let mut cs = CSpace::new();
    let mut pm = PageMemory::new();
    assert!(matches!(handle_trap(&mut s, &mut cs, &mut pm, 12), TrapOutcome::Fatal(TrapCause::InstPageFault)));
    assert_eq!(s.current, 0x300);
}

#[test]
fn a_system_call_trap_updates_the_thread_registers() {
    let mut a = ThreadInfo::new();
    a.registers.a2 = lib::inv_labels::InvLabel::PutChar.code();
    a.registers.a0 = b'k' as usize;
    a.registers.a7 = lib::syscall::SysCallNo::Print.code();
    a.registers.sepc = 0x40;
    let idle = ThreadInfo::idle_init();
    let mut s = sched_with(&[(0x100, a), (0x300, idle)], 0x100, 0x300);
    let mut cs = CSpace::new();
    let mut pm = PageMemory::new();
    let out = handle_trap(&mut s, &mut cs, &mut pm, 8);
    assert!(matches!(out, TrapOutcome::Syscall(lib::syscall::SyscallOutcome::PutChar(b'k'))));
    assert_eq!(s.threads.get(&0x100).unwrap().registers.sepc, 0x44);
    assert_eq!(s.threads.get(&0x100).unwrap().registers.a0, 0);
}

#[test]
fn interrupts_signal_their_notification() {
    let mut irqs = IrqTable::new();
    assert_eq!(irqs.activate_irq(3), Ok(()));
    assert_eq!(irqs.activate_irq(3).unwrap_err().e_kind, lib::err_kind::ErrKind::IRQAlreadyActive);
    assert_eq!(irqs.activate_irq(MAX_IRQ).unwrap_err().e_kind, lib::err_kind::ErrKind::UnknownIRQ);
    let n = CapabilityData::<lib::object::Notification>::init(0x9000, 0);
    let mut cs = CSpace::new();
    let root = CNodeCap::new(CapabilityType::CNode, 0x10_0000, 4);
    root.write_slot(&mut cs, n, 3).unwrap();
    let not_slot = 0x10_0000 + 32 * 3;
    irqs.set_irq(3, &mut cs, not_slot, 0x50_0000);
    // the interrupt's copy follows the notification's slot in the derivation list
    assert_eq!(cs.get(not_slot).unwrap().get_next(), Some(0x50_0000));
    assert_eq!(cs.get(0x50_0000).unwrap().get_prev(), Some(not_slot));
    assert_eq!(irqs.nodes[3].unwrap().get_prev(), Some(not_slot));
    let a = irqs.handle_irq_entry(true, false, 3);
    assert!(a.mask);
    assert_eq!(a.notify.unwrap().get_address(), 0x9000);
    assert!(irqs.current.is_none());
    let a = irqs.handle_irq_entry(true, false, 4);
    assert!(a.notify.is_none());
    assert_eq!(irqs.stats[4], IRQStatus::Inactive);
}

#[test]
fn active_interrupt_is_remembered_until_acknowledged() {
    let mut irqs = IrqTable::new();
    assert_eq!(irqs.get_active_irq(false, true, 0), Ok(IRQReason::Timer));
    assert_eq!(irqs.get_active_irq(true, false, 7), Ok(IRQReason::Timer));
    irqs.ack_irq(0);
    assert_eq!(irqs.get_active_irq(false, false, 0).unwrap_err().e_kind, lib::err_kind::ErrKind::IRQInvalid);
}

#[test]
fn traversal_lists_occupied_slots_and_nested_nodes() {
    let mut cs = CSpace::new();
    let root = CNodeCap::new(CapabilityType::CNode, 0x10_0000, 2);
    let child = CNodeCap::new(CapabilityType::CNode, 0x20_0000, 1);
    root.write_slot(&mut cs, root, 0).unwrap();
    root.write_slot(&mut cs, child, 2).unwrap();
    child.write_slot(&mut cs, CapabilityData::<lib::object::Endpoint>::init(0x30_0000, 0), 1).unwrap();
    let ev = root.print_traverse(&cs);
    assert_eq!(ev.len(), 7);
    assert!(matches!(ev[0], TraverseEvent::Node { level: 0, radix: 2 }));
    assert!(matches!(ev[1], TraverseEvent::Entry { level: 0, index: 0, .. }));
    assert!(matches!(ev[2], TraverseEvent::SameNode));
    assert!(matches!(ev[3], TraverseEvent::Entry { level: 0, index: 2, .. }));
    assert!(matches!(ev[4], TraverseEvent::Node { level: 1, radix: 1 }));
    assert!(matches!(ev[5], TraverseEvent::Entry { level: 1, index: 1, .. }));
    assert!(matches!(ev[6], TraverseEvent::EndLine));
}

#[test]
fn segment_flags_for_user_mode() {
    assert_eq!(RootServerElfMapper::get_flags(0), PAGE_U);
    assert_eq!(RootServerElfMapper::get_flags(5), PAGE_X | PAGE_R | PAGE_U);
    assert_eq!(RootServerElfMapper::get_flags(6), PAGE_W | PAGE_R | PAGE_U);
}

#[test]
fn root_server_objects_and_address_space() {
    let start: usize = 0x8000_0000;
    let mut bump = BumpAllocator::new(start, start + 0x200_0000);
    let mem = RootServerMemory::init_with_uninit(&mut bump);
    assert_eq!(mem.cnode, start);
    assert_eq!(mem.vspace, start + 0x80_0000);
    assert_eq!(mem.tcb, mem.vspace + 0x1000);
    assert_eq!(mem.boot_frame, mem.ipc_buf + 0x1000);
    assert_eq!(bump.current, mem.boot_frame + 0x1000);
    let mut cs = CSpace::new();
    let mut pm = PageMemory::new();
    let cnode = mem.create_root_cnode(&mut cs);
    assert_eq!(cnode.radix(), 18);
    assert_eq!(cs.get(start + 32 * ROOT_CNODE_IDX).unwrap().cap.get_address(), start);
    let mgr = RootServerResourceManager::new(bump, 6, (1 << 18) - 1);
    let segments = vec![
        ProgramSegment { vaddr: 0x1_0000, mem_size: 0x1800, file_size: 0x1200, flags: 5 },
        ProgramSegment { vaddr: 0x2_0000, mem_size: 0x1000, file_size: 0, flags: 6 },
    ];
    let (vspace, max_vaddr, copies, mut mgr) = mem.create_address_space(&mut cs, &cnode, &segments, mgr, &mut pm);
    assert_eq!(vspace.get_address(), mem.vspace);
    assert!(cs.is_occupied(start + 32 * ROOT_VSPACE_IDX));
    assert_eq!(max_vaddr, 0x2_0000);
    assert_eq!(copies.len(), 2);
    assert_eq!(copies[0].len(), 2);
    assert_eq!(copies[0][0].offset, 0);
    assert_eq!(copies[0][0].len, 0x1000);
    assert_eq!(copies[0][1].offset, 0x1000);
    assert_eq!(copies[0][1].len, 0x200);
    assert_eq!(copies[1].len(), 0);
    // every page of the program is mapped with user permissions
    for (vaddr, page) in [(0x1_0000usize, copies[0][0].page), (0x1_1000, copies[0][1].page)] {
        let (level, entry) = PageTable::walk(&pm, mem.vspace, vaddr);
        assert_eq!(level, 0);
        let pte = pm.read(entry);
        assert!(pte.is_valid());
        assert_eq!(pte.get_address(), page);
        assert_eq!(pte.0 & 0x3ff, PAGE_X | PAGE_R | PAGE_U | 1);
    }
    let ipc = mem.create_ipc_buf_frame(&mut cs, &cnode, &vspace, max_vaddr, &mut mgr, &mut pm);
    assert_eq!(ipc.get_address(), mem.ipc_buf);
    assert!(cs.is_occupied(start + 32 * ROOT_IPC_BUFFER));
    let (level, entry) = PageTable::walk(&pm, mem.vspace, max_vaddr + 0x1000);
    assert_eq!(level, 0);
    assert_eq!(pm.read(entry).get_address(), mem.ipc_buf);
    let (tcb_cap, tcb) = mem.create_root_tcb(&mut cs, &cnode, &vspace, &ipc, 0x1_0000);
    assert_eq!(tcb_cap.get_address(), mem.tcb);
    assert!(cs.is_occupied(start + 32 * ROOT_TCB_IDX));
    assert_eq!(tcb.registers.sepc, 0x1_0000);
    assert_eq!(tcb.registers.sstatus, SSTATUS_SPIE);
    assert_eq!(tcb.status, ThreadState::Inactive);
    assert_eq!(tcb.root_cnode.unwrap().cap.get_address(), start);
    // each of the thread's copies follows, in the derivation list, the slot it was copied from
    for (k, idx) in [ROOT_CNODE_IDX, ROOT_VSPACE_IDX, ROOT_IPC_BUFFER].into_iter().enumerate() {
        let copy = mem.tcb + 32 * k;
        assert_eq!(cs.get(start + 32 * idx).unwrap().get_next(), Some(copy));
        assert_eq!(cs.get(copy).unwrap().get_prev(), Some(start + 32 * idx));
    }
    assert_eq!(tcb.root_cnode.unwrap().get_prev(), Some(start + 32 * ROOT_CNODE_IDX));
    assert_eq!(tcb.vspace.unwrap().get_prev(), Some(start + 32 * ROOT_VSPACE_IDX));
    assert_eq!(tcb.ipc_buffer.unwrap().get_prev(), Some(start + 32 * ROOT_IPC_BUFFER));
}

#[test]
fn the_root_server_is_set_up_with_its_boot_information() {
    let start: usize = 0x8000_0000;
    let mut bump = BumpAllocator::new(start, start + 0x100_0000);
    let mem = RootServerMemory::init_with_uninit(&mut bump);
    let mgr = RootServerResourceManager::new(bump, 6, (1 << 18) - 1);
    let mut cs = CSpace::new();
    let mut pm = PageMemory::new();
    let segments = vec![ProgramSegment { vaddr: 0x1_0000, mem_size: 0x1000, file_size: 0x800, flags: 5 }];
    let init = lib::root_server::create_initial_thread(&mem, mgr, &mut cs, &mut pm, &segments, 0x1_0000);
    let max_vaddr = 0x1_0000;
    assert_eq!(init.boot_info.ipc_buffer_addr, max_vaddr + 0x1000);
    assert_eq!(init.boot_info.root_cnode_idx, ROOT_CNODE_IDX);
    assert_eq!(init.boot_info.root_vspace_idx, ROOT_VSPACE_IDX);
    assert_eq!(&init.boot_info.msg[..19], b"hello, root_server\n");
    assert_eq!(init.boot_info.msg[19], 0);
    assert_eq!(init.tcb.status, ThreadState::Runnable);
    assert_eq!(init.tcb.registers.a0, max_vaddr + 0x2000);
    assert_eq!(init.tcb.registers.sepc, 0x1_0000);
    assert_eq!(init.boot_info_addr, mem.boot_frame);
    // the untyped regions cover the rest of memory, largest first
    let n = init.boot_info.untyped_num;
    assert!(n > 0);
    let mut next = init.boot_info.untyped_infos[0].phys_addr;
    for i in 0..n {
        let info = init.boot_info.untyped_infos[i];
        assert_eq!(info.phys_addr, next);
        assert!(info.bits.is_power_of_two());
        assert!(cs.is_occupied(start + 32 * info.idx));
        next += info.bits;
    }
    assert_eq!(init.boot_info.firtst_empty_idx, init.boot_info.untyped_infos[n - 1].idx + 1);
    assert!(start + 0x100_0000 - next <= 0x1000);
    // the program page, the IPC buffer and the boot-information page are mapped
    for vaddr in [0x1_0000usize, max_vaddr + 0x1000, max_vaddr + 0x2000] {
        let (level, entry) = PageTable::walk(&pm, mem.vspace, vaddr);
        assert_eq!(level, 0);
        assert!(pm.read(entry).is_valid());
    }
    assert_eq!(init.copies.len(), 1);
    assert_eq!(init.copies[0].len(), 1);
    assert_eq!(init.copies[0][0].len, 0x800);
}

#[test]
fn slot_indices_run_up_to_the_largest_word() {
    let b = BumpAllocator::new(0x8000_0000, 0x8000_1000);
    let mut mgr = RootServerResourceManager::new(b, usize::MAX - 2, usize::MAX);
    assert_eq!(mgr.alloc_cnode_idx(), usize::MAX - 2);
    assert_eq!(mgr.alloc_cnode_idx(), usize::MAX - 1);
}

#[test]
fn the_kernel_address_space_maps_memory_and_the_kernel_image() {
    let mut pm = PageMemory::new();
    let layout = KernelLayout { phys_offset: 0xffff_8000_0000_0000, code_prefix: 0xffff_ffff_0000_0000 };
    let root = 0x8100_0000;
    let lv2 = 0xffff_ffff_8030_0000;
    let text = 0xffff_ffff_8020_0000;
    kernel_vm_init(&mut pm, root, lv2, layout, 0x80_8000_0000, text, text + 0x10_0000);
    // two 512 GiB leaves for physical memory, at the kernel's view of it
    assert_eq!(pm.read(0x8100_0800).0, 0xef);
    assert_eq!(pm.read(0x8100_0808).0, 0x20_0000_00ef);
    // the root entry of the text points to the second-level table
    assert_eq!(pm.read(0x8100_0ff8).0, 0x200c_0001);
    // one 1 GiB leaf for the kernel image, with the code bits cleared
    assert_eq!(pm.read(0xffff_ffff_8030_0ff0).0, 0x2000_00ef);
    assert_eq!(pm.ptes.len(), 4);
}

#[test]
fn a_handed_back_resume_runs_the_thread_named_by_the_slot() {
    let a = ThreadInfo::new();
    let idle = ThreadInfo::idle_init();
    let mut s = sched_with(&[(0x100, a), (0x200, ThreadInfo::new()), (0x300, idle)], 0x100, 0x300);
    let mut cs = CSpace::new();
    let root = CNodeCap::new(CapabilityType::CNode, 0x10_0000, 4);
    let tcb = CapabilityData::<lib::object::tcb::ThreadControlBlock>::new(CapabilityType::Tcb, 0x200, 0);
    root.write_slot(&mut cs, tcb, 5).unwrap();
    assert!(s.resume_slot_ready(&cs, 0x10_0000 + 32 * 5));
    assert_eq!(s.resume_slot(&cs, 0x10_0000 + 32 * 5), Ok(()));
    assert_eq!(s.threads.get(&0x200).unwrap().status, ThreadState::Runnable);
    assert_eq!(s.scheduler.runqueue, vec![0x200]);
    assert_eq!(s.resume_slot(&cs, 0x10_0000 + 32 * 6).unwrap_err().e_kind, lib::err_kind::ErrKind::SlotIsEmpty);
}
