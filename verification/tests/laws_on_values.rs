use lib::cap_type::CapabilityType;
use lib::capability::cnode::CNodeCap;
use lib::capability::{CapabilityData, Something};
use lib::err_kind::{ErrKind, KernelError};
use lib::object::cnode::{CNodeEntry, CSpace};
use lib::object::page_table::{Page, PageMemory, PageTable, Pte, PAGE_R, PAGE_V, PAGE_W};
use lib::object::tcb::Registers;
use lib::syscall::write_syscall_result;
use lib::user::syscall::{decode_reply, SyscallWriter};
use lib::inv_labels::InvLabel;
use lib::syscall::SysCallNo;

fn linked_tables(mem: &mut PageMemory, root: usize, vaddr: usize) {
    for (i, table) in [0x41_0000usize, 0x42_0000, 0x43_0000].iter().enumerate() {
        assert_eq!(PageTable::map(*table, mem, root, vaddr), Ok(2 - i));
    }
}

#[test]
fn unmapping_a_page_just_mapped_clears_its_entry() {
    let mut mem = PageMemory::new();
    let root = 0x40_0000;
    let vaddr = 0x7000;
    linked_tables(&mut mem, root, vaddr);
    let (_, entry) = PageTable::walk(&mem, root, vaddr);
    let before = mem.read(entry);
    assert_eq!(before.0, 0);
    assert_eq!(Page::map(0x50_0000, &mut mem, root, vaddr, PAGE_R | PAGE_W), Ok(()));
    assert_eq!(PageTable::walk(&mem, root, vaddr), (0, entry));
    assert_eq!(Page::unmap(0x50_0000, &mut mem, root, vaddr), Ok(()));
    assert_eq!(mem.read(entry), before);
    assert_eq!(PageTable::walk(&mem, root, vaddr), (0, entry));
}

#[test]
fn unmapping_another_page_is_refused() {
    let mut mem = PageMemory::new();
    let root = 0x40_0000;
    linked_tables(&mut mem, root, 0x7000);
    assert_eq!(Page::map(0x50_0000, &mut mem, root, 0x7000, PAGE_R), Ok(()));
    assert_eq!(Page::unmap(0x51_0000, &mut mem, root, 0x7000).unwrap_err().e_kind, ErrKind::InvalidOperation);
    assert_eq!(Page::unmap(0x50_0000, &mut mem, root, 0x8000).unwrap_err().e_kind, ErrKind::PageNotMappedYet);
    assert_eq!(Page::unmap(0x50_0000, &mut mem, root, 0x4000_0000).unwrap_err(),
        KernelError { e_kind: ErrKind::PageTableNotMappedYet, e_val: 2 });
}

#[test]
fn derivation_list_stays_consistent_after_copies() {
    let base = 0x10_0000;
    let mut cs = CSpace::new();
    let root = CNodeCap::new(CapabilityType::CNode, base, 3);
    let ep = CapabilityData::<lib::object::Endpoint>::init(0x20_0000, 0);
    root.write_slot(&mut cs, ep, 1).unwrap();
    root.write_slot(&mut cs, ep, 2).unwrap();
    root.write_slot(&mut cs, ep, 3).unwrap();
    // 2 goes after 1, then 3 goes between 1 and 2
    CNodeEntry::<Something>::insert(&mut cs, base + 64, base + 32);
    CNodeEntry::<Something>::insert(&mut cs, base + 96, base + 32);
    let e1 = cs.get(base + 32).unwrap();
    let e2 = cs.get(base + 64).unwrap();
    let e3 = cs.get(base + 96).unwrap();
    assert_eq!(e1.get_next(), Some(base + 96));
    assert_eq!(e3.get_prev(), Some(base + 32));
    assert_eq!(e3.get_next(), Some(base + 64));
    assert_eq!(e2.get_prev(), Some(base + 96));
    assert_eq!(e2.get_next(), None);
    assert_eq!(e1.get_prev(), None);
}

#[test]
fn moving_takes_the_place_in_the_derivation_list() {
    let base = 0x10_0000;
    let mut cs = CSpace::new();
    let root = CNodeCap::new(CapabilityType::CNode, base, 3);
    let ep = CapabilityData::<lib::object::Endpoint>::init(0x20_0000, 0);
    for i in 1..=4 {
        root.write_slot(&mut cs, ep, i).unwrap();
    }
    CNodeEntry::<Something>::insert(&mut cs, base + 64, base + 32);
    CNodeEntry::<Something>::insert(&mut cs, base + 96, base + 64);
    // 4 replaces 2 between 1 and 3
    CNodeEntry::<Something>::replace(&mut cs, base + 128, base + 64);
    assert_eq!(cs.get(base + 32).unwrap().get_next(), Some(base + 128));
    assert_eq!(cs.get(base + 128).unwrap().get_prev(), Some(base + 32));
    assert_eq!(cs.get(base + 128).unwrap().get_next(), Some(base + 96));
    assert_eq!(cs.get(base + 96).unwrap().get_prev(), Some(base + 128));
}

#[test]
fn kernel_replies_decode_to_what_was_reported() {
    let mut reg = Registers::null();
    reg.a1 = 77;
    write_syscall_result(&mut reg, Ok(Some(5)));
    assert_eq!(decode_reply(reg.a0, reg.a1), Ok(5));
    let mut reg = Registers::null();
    reg.a1 = 77;
    write_syscall_result(&mut reg, Ok(None));
    assert_eq!(decode_reply(reg.a0, reg.a1), Ok(77));
    let mut reg = Registers::null();
    write_syscall_result(&mut reg, Err(KernelError { e_kind: ErrKind::PageTableNotMappedYet, e_val: 2 }));
    assert_eq!(decode_reply(reg.a0, reg.a1), Err((ErrKind::PageTableNotMappedYet, 2)));
    assert_eq!(reg.sepc, 4);
    // a kind past the decodable ones does not come back as itself
    let mut reg = Registers::null();
    write_syscall_result(&mut reg, Err(KernelError { e_kind: ErrKind::IRQInvalid, e_val: 0 }));
    assert_eq!(decode_reply(reg.a0, reg.a1), Err((ErrKind::UnknownSysCall, 0)));
}

#[test]
fn the_kernel_mapping_is_copied_into_a_new_table() {
    let mut mem = PageMemory::new();
    let kernel_root = 0x80_0000;
    mem.store(kernel_root + 8 * 256, Pte(0x2000_0000 | PAGE_V));
    mem.store(kernel_root + 8 * 511, Pte(0x3000_0000 | PAGE_V));
    mem.store(0x90_0000 + 8 * 3, Pte(0x1234));
    PageTable::copy_global_mapping(&mut mem, 0x90_0000, kernel_root);
    assert_eq!(mem.read(0x90_0000 + 8 * 256).0, 0x2000_0000 | PAGE_V);
    assert_eq!(mem.read(0x90_0000 + 8 * 511).0, 0x3000_0000 | PAGE_V);
    assert_eq!(mem.read(0x90_0000 + 8 * 3).0, 0);
    assert_eq!(mem.read(kernel_root + 8 * 256).0, 0x2000_0000 | PAGE_V);
}

#[test]
fn text_is_written_one_print_call_per_byte() {
    let mut w = SyscallWriter;
    let calls = w.write_str("hi\n");
    assert_eq!(calls.len(), 3);
    assert_eq!(calls[0].cap_ptr, b'h' as usize);
    assert_eq!(calls[2].cap_ptr, b'\n' as usize);
    assert!(calls.iter().all(|c| c.inv_label == InvLabel::PutChar && c.sysno == SysCallNo::Print));
}

#[test]
fn an_index_resolved_with_the_radix_names_its_slot() {
    let base = 0x10_0000;
    let cs = CSpace::new();
    let root = CNodeCap::new(CapabilityType::CNode, base, 5);
    for index in [0usize, 1, 17, 31] {
        assert_eq!(root.lookup_entry_mut_one_level(&cs, index), Ok(base + 32 * index));
    }
}

#[test]
fn an_irq_handler_capability_gives_back_its_number() {
    let cap = lib::capability::irq::IrqHandlerCap::create(42);
    assert_eq!(cap.get_irq_number(), 42);
    assert_eq!(cap.cap_type, CapabilityType::IrqHandler.code());
    // only the low twelve bits of the number are kept
    let wide = lib::capability::irq::IrqHandlerCap::create(0x1_2345);
    assert_eq!(wide.cap_dep_val, 0x345);
}

#[test]
fn the_kind_survives_edits_of_a_capability() {
    let mut cap = CapabilityData::<lib::object::Endpoint>::init(0x20_0000, 0);
    cap.set_address(0x30_0000);
    cap.set_cap_dep_val(0xabc);
    let copy = cap.replicate();
    assert_eq!(copy.get_cap_type(), Ok(CapabilityType::EndPoint));
    assert_eq!(copy.get_address(), 0x30_0000);
}

#[test]
fn a_fresh_untyped_region_is_all_free() {
    let cap = CapabilityData::<lib::object::Untyped>::init(0x8000_0000, 0x1_0000);
    assert_eq!(cap.get_free_index(), 0x8000_0000);
    assert!(!cap.is_device());
    assert_eq!(cap.block_size(), 0x1_0000);
}

#[test]
fn setting_a_next_entry_links_both_ways() {
    let mut cs = CSpace::new();
    let root = CNodeCap::new(CapabilityType::CNode, 0x10_0000, 4);
    root.write_slot(&mut cs, root, 2).unwrap();
    root.write_slot(&mut cs, root, 5).unwrap();
    let (a, b) = (0x10_0000 + 32 * 2, 0x10_0000 + 32 * 5);
    lib::object::cnode::ManagementDB::set_next(&mut cs, a, b);
    assert_eq!(cs.get(a).unwrap().get_next(), Some(b));
    assert_eq!(cs.get(b).unwrap().get_prev(), Some(a));
    let c = 0x10_0000 + 32 * 7;
    root.write_slot(&mut cs, root, 7).unwrap();
    lib::object::cnode::ManagementDB::set_prev(&mut cs, c, b);
    assert_eq!(cs.get(c).unwrap().get_prev(), Some(b));
    assert_eq!(cs.get(b).unwrap().get_next(), Some(c));
    assert_eq!(cs.get(b).unwrap().get_prev(), Some(a));
}

#[test]
fn a_resolution_that_keeps_taking_no_bits_is_not_known_to_end() {
    let mut cs = CSpace::new();
    let root = CNodeCap::new(CapabilityType::CNode, 0x10_0000, 4);
    root.write_slot(&mut cs, root, 2).unwrap();
    assert!(root.lookup_ends(&cs, 2, 4));
    assert!(root.lookup_ends(&cs, (2 << 4) | 2, 8));
    assert!(root.lookup_ends(&cs, 2, 3));
    // a node of radix 0 that holds itself: every step leaves the depth as it was
    let z = CNodeCap::new(CapabilityType::CNode, 0x20_0000, 0);
    z.write_slot(&mut cs, z, 0).unwrap();
    assert!(!z.lookup_ends(&cs, 0, 8));
}
