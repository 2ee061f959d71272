use lib::cap_type::CapabilityType;
use lib::capability::cnode::CNodeCap;
use lib::capability::CapabilityData;
use lib::err_kind::ErrKind;
use lib::inv_labels::InvLabel;
use lib::object::cnode::CSpace;
use lib::object::page_table::PageMemory;
use lib::object::tcb::{Registers, ThreadInfo};
use lib::syscall::{handle_syscall, SysCallNo};
use lib::types::UntypedInfo;
use lib::user::caps::{
    CNode, CNodeCapability, CSlot, Capability, Endpoint, IRQControl, Notificaiton, Page, PageCapability,
    PageFlags, PageTable, UntypedCapability,
};
use lib::user::syscall::{decode_reply, SysCall};

fn registers_of(call: &SysCall) -> Registers {
    let mut reg = Registers::null();
    reg.a0 = call.cap_ptr;
    reg.a1 = call.cap_depth as usize;
    reg.a2 = call.inv_label.code();
    reg.a3 = call.arg3;
    reg.a4 = call.arg4;
    reg.a5 = call.arg5;
    reg.a6 = call.arg6;
    reg.a7 = call.sysno.code();
    reg
}

#[test]
fn page_flag_bits() {
    assert_eq!(PageFlags::readonly().bits(), 4);
    assert_eq!(PageFlags::writeonly().bits(), 2);
    assert_eq!(PageFlags::executable().bits(), 5);
    assert_eq!(PageFlags::readandwrite().bits(), 6);
    assert_eq!(PageFlags::all().bits(), 7);
    assert_eq!(PageFlags::never().bits(), 0);
    let as_usize: usize = PageFlags::all().into();
    assert_eq!(as_usize, 7);
}

#[test]
fn slot_pointer_appends_the_index() {
    let s = CSlot { pptr: 2, depth: 4, radix: 4, index: 6 };
    assert_eq!(s.get_cap_ptr(), (2 * 16 + 6, 8));
}

#[test]
fn slots_are_handed_out_until_the_node_is_full() {
    let mut node = CNodeCapability { cap_ptr: 2, cap_depth: 4, cap_data: CNode { radix: 1, cursor: 0 } };
    assert_eq!(node.get_size(), 2);
    assert_eq!(node.get_slot(), Ok(CSlot { pptr: 2, depth: 4, radix: 1, index: 0 }));
    assert_eq!(node.get_slot(), Ok(CSlot { pptr: 2, depth: 4, radix: 1, index: 1 }));
    assert_eq!(node.get_slot(), Err((ErrKind::NoEnoughSlot, 0)));
}

#[test]
fn untyped_from_boot_record() {
    let info = UntypedInfo { bits: 16, idx: 9, is_device: false, phys_addr: 0x8000_0000 };
    let u = UntypedCapability::from_untyped_info(18, &info);
    assert_eq!(u.cap_ptr, 9);
    assert_eq!(u.cap_depth, 18);
    assert_eq!(u.cap_data.size_bits, 16);
    assert_eq!(u.cap_data.phys_addr, 0x8000_0000);
}

#[test]
fn retype_request_packs_index_depth_size_and_count() {
    let info = UntypedInfo { bits: 16, idx: 3, is_device: false, phys_addr: 0x100_0000 };
    let mut u = UntypedCapability::from_untyped_info(4, &info);
    let mut slot = CSlot { pptr: 2, depth: 0, radix: 4, index: 8 };
    let (call, page) = u.retype_single_with_fixed_size::<Page>(&mut slot);
    assert_eq!(call.inv_label, InvLabel::UntypedRetype);
    assert_eq!(call.cap_ptr, 3);
    assert_eq!(call.arg3, 2);
    assert_eq!(call.arg4, (8 << 32) | 0);
    assert_eq!(call.arg5, (4096 << 32) | 1);
    assert_eq!(call.arg6, CapabilityType::Page.code() as usize);
    assert_eq!(call.sysno, SysCallNo::Call);
    assert_eq!((page.cap_ptr, page.cap_depth), (2 * 16 + 8, 4));
}

#[test]
fn page_map_reply_updates_what_the_program_knows() {
    let mut page = PageCapability { cap_ptr: 6, cap_depth: 4, cap_data: Page::default() };
    let table = Capability { cap_ptr: 5, cap_depth: 4, cap_data: PageTable::default() };
    let call = page.map_request(&table, 0x7000, PageFlags::readandwrite());
    assert_eq!(call.inv_label, InvLabel::PageMap);
    assert_eq!((call.arg3, call.arg4, call.arg5, call.arg6), (5, 4, 0x7000, 6));
    assert_eq!(page.map(0x7000, PageFlags::readandwrite(), Err((ErrKind::VaddressAlreadyMapped, 0))),
        Err((ErrKind::VaddressAlreadyMapped, 0)));
    assert!(!page.cap_data.is_mapped);
    assert_eq!(page.map(0x7000, PageFlags::readandwrite(), Ok(0)), Ok(()));
    assert!(page.cap_data.is_mapped);
    assert_eq!(page.cap_data.mapped_address, 0x7000);
    assert_eq!(page.unmap(Ok(0)), Ok(()));
    assert!(!page.cap_data.is_mapped);
    assert_eq!(page.cap_data.rights, PageFlags::never());
}

#[test]
fn endpoint_and_notification_requests() {
    let ep = Capability { cap_ptr: 4, cap_depth: 4, cap_data: Endpoint {} };
    assert_eq!(ep.send().sysno, SysCallNo::Send);
    assert_eq!(ep.recive().inv_label, InvLabel::EpRecv);
    assert_eq!(ep.recive().sysno, SysCallNo::Recv);
    let n = Capability { cap_ptr: 3, cap_depth: 4, cap_data: Notificaiton {} };
    assert_eq!(n.send().inv_label, InvLabel::NotifySend);
    assert_eq!(n.wait().sysno, SysCallNo::Recv);
}

#[test]
fn irq_control_checks_the_number() {
    let ctl = Capability { cap_ptr: 7, cap_depth: 4, cap_data: IRQControl { irqs_status: 0b100 } };
    let slot = CSlot { pptr: 2, depth: 4, radix: 4, index: 1 };
    assert_eq!(ctl.control_request(64, &slot), Err((ErrKind::InvalidOperation, 0)));
    assert_eq!(ctl.control_request(4, &slot), Err((ErrKind::InvalidOperation, 0)));
    let call = ctl.control_request(3, &slot).unwrap();
    assert_eq!(call.inv_label, InvLabel::IRQControl);
    assert_eq!((call.arg3, call.arg4, call.arg5), (3, 2 * 16 + 1, 8));
}

#[test]
fn a_copy_request_is_carried_out_by_the_kernel_at_the_slot_it_names() {
    // kernel side: a root node of 16 slots holding itself in slot 2 and an endpoint in slot 3
    let root_addr: usize = 0x10_0000;
    let mut cs = CSpace::new();
    let root = CNodeCap::new(CapabilityType::CNode, root_addr, 4);
    root.write_slot(&mut cs, root, 2).unwrap();
    root.write_slot(&mut cs, CapabilityData::<lib::object::Notification>::init(0x20_0000, 0), 3).unwrap();
    let mut t = ThreadInfo::new();
    t.set_root_cspace(root, &mut cs, 0x90_0000, root_addr + 32 * 2);
    let mut pm = PageMemory::new();
    // user side: the program's view of the same node and notification
    let mut node = CNodeCapability { cap_ptr: 2, cap_depth: 4, cap_data: CNode { radix: 4, cursor: 6 } };
    let n = Capability { cap_ptr: 3, cap_depth: 4, cap_data: Notificaiton {} };
    let (call, copy) = node.copy(&n).unwrap();
    let mut reg = registers_of(&call);
    let _ = handle_syscall(&mut cs, &mut pm, &t, reg.a7, &mut reg);
    // success with no value leaves a1 as the request set it: the depth
    assert_eq!(decode_reply(reg.a0, reg.a1), Ok(4));
    assert_eq!(cs.get(root_addr + 32 * 6).unwrap().cap.get_address(), 0x20_0000);
    // the copy's pointer, resolved from the root, names that slot
    assert_eq!(root.lookup_entry_mut(&cs, copy.cap_ptr, copy.cap_depth), Ok(root_addr + 32 * 6));
}

#[test]
fn write_regs_puts_the_registers_in_the_ipc_buffer() {
    let mut tcb = Capability { cap_ptr: 5, cap_depth: 4, cap_data: lib::user::caps::ThreadControlBlock {} };
    let mut buffer = lib::types::IPCBuffer { tag: 9, message: [7; lib::types::MESSAGE_LEN], user_data: 11 };
    let mut regs = Registers::null();
    regs.ra = 1;
    regs.sp = 2;
    regs.a0 = 3;
    regs.sepc = 0x1_0000;
    regs.scause = 8;
    let call = tcb.write_regs(regs, &mut buffer);
    assert_eq!(call.inv_label, InvLabel::TcbWriteReg);
    assert_eq!((call.cap_ptr, call.cap_depth), (5, 4));
    assert_eq!(buffer.message[0], 1);
    assert_eq!(buffer.message[1], 2);
    assert_eq!(buffer.message[9], 3);
    assert_eq!(buffer.message[31], 0x1_0000);
    assert_eq!(buffer.message[33], 8);
    assert_eq!(buffer.message[34], 7);
    assert_eq!((buffer.tag, buffer.user_data), (9, 11));
}

#[test]
fn a_reply_settles_a_request() {
    assert_eq!(lib::user::caps::settle(Ok(0), 5usize), Ok(5));
    assert_eq!(lib::user::caps::settle(Err((ErrKind::NotEmptySlot, 0)), 5usize), Err((ErrKind::NotEmptySlot, 0)));
}

#[test]
fn a_slot_pointer_that_overflows_is_refused() {
    assert!(CSlot { pptr: 2, depth: 4, radix: 4, index: 1 }.cap_ptr_ok());
    assert!(!CSlot { pptr: usize::MAX, depth: 4, radix: 4, index: 1 }.cap_ptr_ok());
    assert!(!CSlot { pptr: 2, depth: u32::MAX, radix: 4, index: 1 }.cap_ptr_ok());
    assert!(!CSlot { pptr: 2, depth: 4, radix: 64, index: 1 }.cap_ptr_ok());
}
