use lib::cap_type::CapabilityType;
use lib::capability::cnode::CNodeCap;
use lib::capability::objects::{PageCap, PageTableCap, TCBCap};
use lib::capability::untyped::UntypedCap;
use lib::capability::CapabilityData;
use lib::err_kind::ErrKind;
use lib::inv_labels::InvLabel;
use lib::object::cnode::CSpace;
use lib::object::page_table::PageMemory;
use lib::object::tcb::{Registers, ThreadInfo};
use lib::syscall::{handle_syscall, Invocation, SysCallNo, SyscallOutcome};

const ROOT: usize = 0x10_0000;
const RADIX: usize = 4;
const THREAD_SLOT: usize = 0x90_0000;

fn slot(i: usize) -> usize {
    ROOT + 32 * i
}

fn setup() -> (CSpace, PageMemory, ThreadInfo, CNodeCap) {
    let mut cs = CSpace::new();
    let root = CNodeCap::new(CapabilityType::CNode, ROOT, RADIX as u64);
    root.write_slot(&mut cs, root, 2).unwrap();
    let mut t = ThreadInfo::new();
    t.set_root_cspace(root, &mut cs, THREAD_SLOT, slot(2));
    (cs, PageMemory::new(), t, root)
}

fn call(cs: &mut CSpace, pm: &mut PageMemory, t: &ThreadInfo, cap_ptr: usize, label: InvLabel,
    a3: usize, a4: usize, a5: usize, a6: usize) -> (SyscallOutcome, Registers) {
    let mut reg = Registers::null();
    reg.a0 = cap_ptr;
    reg.a1 = RADIX;
    reg.a2 = label.code();
    reg.a3 = a3;
    reg.a4 = a4;
    reg.a5 = a5;
    reg.a6 = a6;
    reg.a7 = SysCallNo::Call.code();
    reg.sepc = 0x1000;
    let out = handle_syscall(cs, pm, t, reg.a7, &mut reg);
    (out, reg)
}

fn both_depths(src: usize, dest: usize) -> usize {
    (src << 32) | dest
}

#[test]
fn cnode_copy_into_empty_slot_links_after_source() {
    let (mut cs, mut pm, t, root) = setup();
    let (out, reg) = call(&mut cs, &mut pm, &t, 2, InvLabel::CNodeCopy, 2, both_depths(RADIX, RADIX), 7, 0);
    assert!(matches!(out, SyscallOutcome::Done));
    assert_eq!(reg.a0, 0);
    assert_eq!(reg.sepc, 0x1004);
    let copied = cs.get(slot(7)).unwrap();
    assert_eq!(copied.cap.get_address(), ROOT);
    assert_eq!(copied.cap.cap_type, CapabilityType::CNode.code());
    assert_eq!(cs.get(slot(2)).unwrap().get_next(), Some(slot(7)));
    assert_eq!(copied.get_prev(), Some(slot(2)));
    assert_eq!(root.get_address(), ROOT);
}

#[test]
fn cnode_copy_into_occupied_slot_fails() {
    let (mut cs, mut pm, t, _root) = setup();
    let (_, reg) = call(&mut cs, &mut pm, &t, 2, InvLabel::CNodeCopy, 2, both_depths(RADIX, RADIX), 2, 0);
    assert_eq!(reg.a0, ErrKind::NotEmptySlot.code());
}

#[test]
fn cnode_copy_from_empty_slot_fails() {
    let (mut cs, mut pm, t, _root) = setup();
    let (_, reg) = call(&mut cs, &mut pm, &t, 2, InvLabel::CNodeCopy, 5, both_depths(RADIX, RADIX), 7, 0);
    assert_eq!(reg.a0, ErrKind::SlotIsEmpty.code());
    assert!(!cs.is_occupied(slot(7)));
}

#[test]
fn cnode_mint_replaces_kind_dependent_value() {
    let (mut cs, mut pm, t, root) = setup();
    let ep = CapabilityData::<lib::object::Endpoint>::init(0x20_0000, 0);
    root.write_slot(&mut cs, ep, 3).unwrap();
    let (_, reg) = call(&mut cs, &mut pm, &t, 2, InvLabel::CNodeMint, 3, both_depths(RADIX, RADIX), 8, 0xdead_beef);
    assert_eq!(reg.a0, 0);
    let minted = cs.get(slot(8)).unwrap();
    assert_eq!(minted.cap.cap_dep_val, 0xdead_beef);
    assert_eq!(minted.cap.get_address(), 0x20_0000);
}

#[test]
fn cnode_move_empties_source() {
    let (mut cs, mut pm, t, root) = setup();
    let ep = CapabilityData::<lib::object::Endpoint>::init(0x20_0000, 0);
    root.write_slot(&mut cs, ep, 3).unwrap();
    let (_, reg) = call(&mut cs, &mut pm, &t, 2, InvLabel::CNodeMove, 3, both_depths(RADIX, RADIX), 9, 0);
    assert_eq!(reg.a0, 0);
    assert!(!cs.is_occupied(slot(3)));
    assert_eq!(cs.get(slot(9)).unwrap().cap.get_address(), 0x20_0000);
}

#[test]
fn cnode_move_keeps_the_derivation_list_linked() {
    let (mut cs, mut pm, t, root) = setup();
    let ep = CapabilityData::<lib::object::Endpoint>::init(0x20_0000, 0);
    root.write_slot(&mut cs, ep, 3).unwrap();
    let (_, reg) = call(&mut cs, &mut pm, &t, 2, InvLabel::CNodeCopy, 3, both_depths(RADIX, RADIX), 7, 0);
    assert_eq!(reg.a0, 0);
    let (_, reg) = call(&mut cs, &mut pm, &t, 2, InvLabel::CNodeMove, 3, both_depths(RADIX, RADIX), 9, 0);
    assert_eq!(reg.a0, 0);
    // the moved entry takes the place of the source: its copy now follows it
    assert_eq!(cs.get(slot(9)).unwrap().get_next(), Some(slot(7)));
    assert_eq!(cs.get(slot(7)).unwrap().get_prev(), Some(slot(9)));
    assert_eq!(cs.get(slot(9)).unwrap().get_prev(), None);
}

#[test]
fn the_thread_keeps_a_linked_copy_of_its_root_node() {
    let (cs, _, t, _) = setup();
    assert_eq!(cs.get(slot(2)).unwrap().get_next(), Some(THREAD_SLOT));
    assert_eq!(t.root_cnode.unwrap().get_prev(), Some(slot(2)));
}

#[test]
fn copying_a_page_table_capability_is_refused() {
    let (mut cs, mut pm, t, root) = setup();
    root.write_slot(&mut cs, PageTableCap::init(0x40_0000, 0), 4).unwrap();
    let (_, reg) = call(&mut cs, &mut pm, &t, 2, InvLabel::CNodeCopy, 4, both_depths(RADIX, RADIX), 10, 0);
    assert_eq!(reg.a0, ErrKind::CanNotDerivable.code());
}

#[test]
fn untyped_retype_makes_pages_in_consecutive_slots() {
    let (mut cs, mut pm, t, root) = setup();
    let untyped = UntypedCap::init(0x100_0000, 1 << 16);
    root.write_slot(&mut cs, untyped, 3).unwrap();
    let user_size_and_num = 1;
    let index_and_depth = (8 << 32) | RADIX;
    let (_, reg) = call(&mut cs, &mut pm, &t, 3, InvLabel::UntypedRetype, 2, index_and_depth, user_size_and_num,
        CapabilityType::Page.code() as usize);
    assert_eq!(reg.a0, 0);
    let page = cs.get(slot(8)).unwrap();
    assert_eq!(page.cap.cap_type, CapabilityType::Page.code());
    assert_eq!(page.cap.get_address(), 0x100_0000);
    let after: UntypedCap = cs.get(slot(3)).unwrap().cap.recast();
    assert_eq!(after.get_free_index(), 0x100_0000 + 4096);
    assert_eq!(after.block_size(), 1 << 16);
}

#[test]
fn retyped_objects_follow_the_untyped_region_newest_first() {
    let (mut cs, mut pm, t, root) = setup();
    let untyped = UntypedCap::init(0x100_0000, 1 << 16);
    root.write_slot(&mut cs, untyped, 3).unwrap();
    // three endpoints into slots 8, 9 and 10
    let (_, reg) = call(&mut cs, &mut pm, &t, 3, InvLabel::UntypedRetype, 2, (8 << 32) | RADIX, 3,
        CapabilityType::EndPoint.code() as usize);
    assert_eq!(reg.a0, 0);
    assert_eq!(cs.get(slot(3)).unwrap().get_next(), Some(slot(10)));
    assert_eq!(cs.get(slot(10)).unwrap().get_prev(), Some(slot(3)));
    assert_eq!(cs.get(slot(10)).unwrap().get_next(), Some(slot(9)));
    assert_eq!(cs.get(slot(9)).unwrap().get_prev(), Some(slot(10)));
    assert_eq!(cs.get(slot(9)).unwrap().get_next(), Some(slot(8)));
    assert_eq!(cs.get(slot(8)).unwrap().get_prev(), Some(slot(9)));
    assert_eq!(cs.get(slot(8)).unwrap().get_next(), None);
}

#[test]
fn untyped_retype_into_occupied_slot_fails() {
    let (mut cs, mut pm, t, root) = setup();
    root.write_slot(&mut cs, UntypedCap::init(0x100_0000, 1 << 16), 3).unwrap();
    let index_and_depth = (2 << 32) | RADIX;
    let (_, reg) = call(&mut cs, &mut pm, &t, 3, InvLabel::UntypedRetype, 2, index_and_depth, 1,
        CapabilityType::Page.code() as usize);
    assert_eq!(reg.a0, ErrKind::NotEmptySlot.code());
}

#[test]
fn untyped_retype_past_the_node_fails() {
    let (mut cs, mut pm, t, root) = setup();
    root.write_slot(&mut cs, UntypedCap::init(0x100_0000, 1 << 16), 3).unwrap();
    let index_and_depth = (15 << 32) | RADIX;
    let (_, reg) = call(&mut cs, &mut pm, &t, 3, InvLabel::UntypedRetype, 2, index_and_depth, 1,
        CapabilityType::Page.code() as usize);
    assert_eq!(reg.a0, ErrKind::InvalidOperation.code());
}

#[test]
fn untyped_retype_beyond_free_memory_fails() {
    let (mut cs, mut pm, t, root) = setup();
    root.write_slot(&mut cs, UntypedCap::init(0x100_0000, 1 << 12), 3).unwrap();
    let index_and_depth = (8 << 32) | RADIX;
    let (_, reg) = call(&mut cs, &mut pm, &t, 3, InvLabel::UntypedRetype, 2, index_and_depth, 2,
        CapabilityType::Page.code() as usize);
    assert_eq!(reg.a0, ErrKind::NoMemory.code());
}

#[test]
fn page_map_needs_an_aligned_address() {
    let (mut cs, mut pm, t, root) = setup();
    root.write_slot(&mut cs, PageTableCap::init(0x40_0000, 0), 5).unwrap();
    root.write_slot(&mut cs, PageCap::init(0x50_0000, 0), 6).unwrap();
    let (_, reg) = call(&mut cs, &mut pm, &t, 6, InvLabel::PageMap, 5, RADIX, 0x1001, 4);
    assert_eq!(reg.a0, ErrKind::NotAligned.code());
    assert_eq!(reg.a1, 4096);
}

#[test]
fn page_map_without_tables_reports_the_missing_level() {
    let (mut cs, mut pm, t, root) = setup();
    root.write_slot(&mut cs, PageTableCap::init(0x40_0000, 0), 5).unwrap();
    root.write_slot(&mut cs, PageCap::init(0x50_0000, 0), 6).unwrap();
    let (_, reg) = call(&mut cs, &mut pm, &t, 6, InvLabel::PageMap, 5, RADIX, 0x1000, 4);
    assert_eq!(reg.a0, ErrKind::PageTableNotMappedYet.code());
    assert_eq!(reg.a1, 3);
}

#[test]
fn page_tables_then_page_map_and_duplicate_map() {
    let (mut cs, mut pm, t, root) = setup();
    root.write_slot(&mut cs, PageTableCap::init(0x40_0000, 0), 5).unwrap();
    root.write_slot(&mut cs, PageTableCap::init(0x41_0000, 0), 10).unwrap();
    root.write_slot(&mut cs, PageTableCap::init(0x42_0000, 0), 11).unwrap();
    root.write_slot(&mut cs, PageTableCap::init(0x43_0000, 0), 12).unwrap();
    root.write_slot(&mut cs, PageCap::init(0x50_0000, 0), 6).unwrap();
    let vaddr = 0x7000;
    let mut expected_level = 2;
    for table_slot in [10usize, 11, 12] {
        let (_, reg) = call(&mut cs, &mut pm, &t, table_slot, InvLabel::PageTableMap, 5, RADIX, vaddr, 0);
        assert_eq!(reg.a0, 0);
        assert_eq!(reg.a1, expected_level);
        expected_level = expected_level.wrapping_sub(1);
    }
    let (_, reg) = call(&mut cs, &mut pm, &t, 12, InvLabel::PageTableMap, 5, RADIX, vaddr, 0);
    assert_eq!(reg.a0, ErrKind::VaddressAlreadyMapped.code());
    let (_, reg) = call(&mut cs, &mut pm, &t, 6, InvLabel::PageMap, 5, RADIX, vaddr, 6);
    assert_eq!(reg.a0, 0);
    let (level, entry) = lib::object::page_table::PageTable::walk(&pm, 0x40_0000, vaddr);
    assert_eq!(level, 0);
    let pte = pm.read(entry);
    assert!(pte.is_valid());
    assert_eq!(pte.get_address(), 0x50_0000);
    let (_, reg) = call(&mut cs, &mut pm, &t, 6, InvLabel::PageMap, 5, RADIX, vaddr, 6);
    assert_eq!(reg.a0, ErrKind::VaddressAlreadyMapped.code());
}

#[test]
fn page_unmap_is_handed_back() {
    let (mut cs, mut pm, t, root) = setup();
    root.write_slot(&mut cs, PageTableCap::init(0x40_0000, 0), 5).unwrap();
    root.write_slot(&mut cs, PageCap::init(0x50_0000, 0), 6).unwrap();
    let (out, reg) = call(&mut cs, &mut pm, &t, 6, InvLabel::PageUnMap, 5, RADIX, 0, 0);
    assert!(matches!(out, SyscallOutcome::Pending(Invocation::PageUnMap { page, page_table })
        if page == slot(6) && page_table == slot(5)));
    assert_eq!(reg.sepc, 0x1000);
}

#[test]
fn tcb_configure_checks_kinds() {
    let (mut cs, mut pm, t, root) = setup();
    root.write_slot(&mut cs, TCBCap::init(0x60_0000, 0), 1).unwrap();
    root.write_slot(&mut cs, PageTableCap::init(0x40_0000, 0), 5).unwrap();
    let (out, _) = call(&mut cs, &mut pm, &t, 1, InvLabel::TcbConfigure, 2, RADIX, 5, RADIX);
    assert!(matches!(out, SyscallOutcome::Pending(Invocation::TcbConfigure { tcb, cnode, vspace })
        if tcb == slot(1) && cnode == slot(2) && vspace == slot(5)));
    let (_, reg) = call(&mut cs, &mut pm, &t, 1, InvLabel::TcbConfigure, 5, RADIX, 2, RADIX);
    assert_eq!(reg.a0, ErrKind::UnexpectedCapType.code());
    let (_, reg) = call(&mut cs, &mut pm, &t, 1, InvLabel::TcbConfigure, 2, RADIX, 2, RADIX);
    assert_eq!(reg.a0, ErrKind::InvalidOperation.code());
}

#[test]
fn tcb_write_regs_needs_an_ipc_buffer() {
    let (mut cs, mut pm, t, root) = setup();
    root.write_slot(&mut cs, TCBCap::init(0x60_0000, 0), 1).unwrap();
    let (_, reg) = call(&mut cs, &mut pm, &t, 1, InvLabel::TcbWriteReg, 0, 0, 0, 0);
    assert_eq!(reg.a0, ErrKind::InvalidOperation.code());
}

#[test]
fn notification_and_endpoint_invocations_are_handed_back() {
    let (mut cs, mut pm, t, root) = setup();
    root.write_slot(&mut cs, CapabilityData::<lib::object::Notification>::init(0x70_0000, 0), 3).unwrap();
    root.write_slot(&mut cs, CapabilityData::<lib::object::Endpoint>::init(0x71_0000, 0), 4).unwrap();
    let (out, _) = call(&mut cs, &mut pm, &t, 3, InvLabel::NotifySend, 0, 0, 0, 0);
    assert!(matches!(out, SyscallOutcome::Pending(Invocation::NotifySend { notification }) if notification == slot(3)));
    let (out, _) = call(&mut cs, &mut pm, &t, 4, InvLabel::EpRecv, 0, 0, 0, 0);
    assert!(matches!(out, SyscallOutcome::Pending(Invocation::EpRecv { endpoint }) if endpoint == slot(4)));
    let (_, reg) = call(&mut cs, &mut pm, &t, 4, InvLabel::NotifyWait, 0, 0, 0, 0);
    assert_eq!(reg.a0, ErrKind::UnknownInvocation.code());
}

#[test]
fn invoking_an_empty_slot_fails() {
    let (mut cs, mut pm, t, _root) = setup();
    let (_, reg) = call(&mut cs, &mut pm, &t, 11, InvLabel::CNodeCopy, 0, 0, 0, 0);
    assert_eq!(reg.a0, ErrKind::SlotIsEmpty.code());
}

#[test]
fn invoking_without_a_root_node_fails() {
    let (mut cs, mut pm, _t, _root) = setup();
    let bare = ThreadInfo::new();
    let (_, reg) = call(&mut cs, &mut pm, &bare, 2, InvLabel::CNodeCopy, 0, 0, 0, 0);
    assert_eq!(reg.a0, ErrKind::CapNotFound.code());
}

#[test]
fn print_calls() {
    let (mut cs, mut pm, t, root) = setup();
    let mut reg = Registers::null();
    reg.a0 = b'x' as usize;
    reg.a2 = InvLabel::PutChar.code();
    reg.a7 = SysCallNo::Print.code();
    let out = handle_syscall(&mut cs, &mut pm, &t, reg.a7, &mut reg);
    assert!(matches!(out, SyscallOutcome::PutChar(b'x')));
    assert_eq!(reg.a0, 0);
    reg.a2 = InvLabel::CNodeTraverse.code();
    let out = handle_syscall(&mut cs, &mut pm, &t, reg.a7, &mut reg);
    assert!(matches!(out, SyscallOutcome::Traverse(c) if c.get_address() == root.get_address()));
    reg.a2 = InvLabel::EpSend.code();
    let _ = handle_syscall(&mut cs, &mut pm, &t, reg.a7, &mut reg);
    assert_eq!(reg.a0, ErrKind::UnknownSysCall.code());
    reg.a2 = 99;
    let _ = handle_syscall(&mut cs, &mut pm, &t, reg.a7, &mut reg);
    assert_eq!(reg.a0, ErrKind::UnknownInvocation.code());
}

#[test]
fn a_system_call_is_ready_when_its_resolutions_end() {
    let (cs, _, t, root) = setup();
    let mut reg = Registers::null();
    reg.a0 = 2;
    reg.a1 = RADIX;
    reg.a2 = InvLabel::CNodeCopy.code();
    reg.a3 = 2;
    reg.a4 = both_depths(RADIX, RADIX);
    reg.a5 = 7;
    reg.a7 = SysCallNo::Call.code();
    assert!(lib::ready::syscall_ready(&cs, &t, reg.a7, &reg));
    // no room to step past the call
    reg.sepc = usize::MAX - 2;
    assert!(!lib::ready::syscall_ready(&cs, &t, reg.a7, &reg));
    assert!(root.traverse_ready(&cs));
}

#[test]
fn a_resolution_through_a_node_that_takes_no_bits_is_not_ready() {
    let (mut cs, _, t, root) = setup();
    let z = CNodeCap::new(CapabilityType::CNode, 0x20_0000, 0);
    root.write_slot(&mut cs, z, 5).unwrap();
    z.write_slot(&mut cs, z, 0).unwrap();
    let mut reg = Registers::null();
    reg.a0 = 5 << 4;
    reg.a1 = RADIX + 4;
    reg.a2 = InvLabel::CNodeCopy.code();
    reg.a7 = SysCallNo::Call.code();
    assert!(!lib::ready::syscall_ready(&cs, &t, reg.a7, &reg));
}
