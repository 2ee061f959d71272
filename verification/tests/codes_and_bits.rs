use lib::align::{align_down, align_up, is_aligned};
use lib::arith::{ilog2, pow2_usize};
use lib::cap_type::CapabilityType;
use lib::capability::cap_try_from_u8;
use lib::err_kind::ErrKind;
use lib::inv_labels::InvLabel;
use lib::object::page_table::{get_user_flags, get_vpn, Pte, PAGE_R, PAGE_V, PAGE_W, PAGE_X};
use lib::syscall::get_hi32;
use lib::user::syscall::{decode_reply, make_pack32};
use std::convert::TryFrom;

#[test]
fn err_kind_codes_follow_declaration_order() {
    assert_eq!(ErrKind::NoMemory.code(), 1);
    assert_eq!(ErrKind::NotAligned.code(), 20);
    assert_eq!(ErrKind::UnknownIRQ.code(), 25);
    assert_eq!(ErrKind::from_code(11), Ok(ErrKind::VaddressAlreadyMapped));
    assert_eq!(ErrKind::try_from(20usize), Ok(ErrKind::NotAligned));
}

#[test]
fn err_kind_decoding_refuses_codes_past_not_aligned() {
    assert_eq!(ErrKind::from_code(0), Err(()));
    assert_eq!(ErrKind::from_code(21), Err(()));
    assert_eq!(ErrKind::try_from(25usize), Err(()));
}

#[test]
fn err_kind_roundtrip_for_decodable_kinds() {
    for v in 1..=20usize {
        let k = ErrKind::from_code(v).unwrap();
        assert_eq!(k.code(), v);
    }
}

#[test]
fn cap_type_codes() {
    assert_eq!(CapabilityType::Untyped.code(), 1);
    assert_eq!(CapabilityType::CNode.code(), 7);
    assert_eq!(CapabilityType::PageTable.code(), 2);
    assert_eq!(CapabilityType::Page.code(), 4);
    assert_eq!(CapabilityType::try_from(13u8), Ok(CapabilityType::IrqHandler));
    assert_eq!(CapabilityType::from_code(6), Err(ErrKind::UnknownCapType));
    assert_eq!(cap_try_from_u8(0).unwrap_err().e_kind, ErrKind::UnknownCapType);
    assert_eq!(cap_try_from_u8(3).unwrap(), CapabilityType::Tcb);
}

#[test]
fn inv_label_codes() {
    assert_eq!(InvLabel::PutChar.code(), 0);
    assert_eq!(InvLabel::CNodeCopy.code(), 9);
    assert_eq!(InvLabel::IRQHandlerSet.code(), 21);
    assert_eq!(InvLabel::from_code(14), Ok(InvLabel::PageTableMap));
    assert_eq!(InvLabel::try_from(22usize), Err(ErrKind::UnknownInvocation));
    for v in 0..=21usize {
        assert_eq!(InvLabel::from_code(v).unwrap().code(), v);
    }
}

#[test]
fn alignment_helpers() {
    assert!(is_aligned(0x3000, 0x1000));
    assert!(!is_aligned(0x3001, 0x1000));
    assert!(is_aligned(0, 0));
    assert!(!is_aligned(5, 0));
    assert_eq!(align_up(0x1001, 0x1000), 0x2000);
    assert_eq!(align_up(0x2000, 0x1000), 0x2000);
    assert_eq!(align_down(0x1fff, 0x1000), 0x1000);
    assert_eq!(align_down(7, 8), 0);
}

#[test]
fn powers_and_logarithms() {
    assert_eq!(pow2_usize(0), 1);
    assert_eq!(pow2_usize(18), 0x4_0000);
    assert_eq!(ilog2(1), 0);
    assert_eq!(ilog2(4096), 12);
    assert_eq!(ilog2(4097), 12);
    assert_eq!(ilog2(8191), 12);
}

#[test]
fn page_table_entry_encoding() {
    let mut pte = Pte(0);
    assert!(!pte.is_valid());
    pte.write(0x8020_3000, PAGE_V | PAGE_R);
    assert!(pte.is_valid());
    assert_eq!(pte.0, (0x8020_3000 >> 12 << 10) | 3);
    assert_eq!(pte.get_address(), 0x8020_3000);
    pte.clear();
    assert_eq!(pte.0, 0);
    assert!(!pte.is_valid());
}

#[test]
fn user_flags_translate_to_entry_flags() {
    assert_eq!(get_user_flags(0), 0);
    assert_eq!(get_user_flags(1), PAGE_X);
    assert_eq!(get_user_flags(2), PAGE_W);
    assert_eq!(get_user_flags(4), PAGE_R);
    assert_eq!(get_user_flags(7), PAGE_X | PAGE_W | PAGE_R);
}

#[test]
fn virtual_page_numbers() {
    let vaddr: usize = (3 << 39) | (5 << 30) | (7 << 21) | (9 << 12) | 0x123;
    assert_eq!(get_vpn(vaddr, 3), 3);
    assert_eq!(get_vpn(vaddr, 2), 5);
    assert_eq!(get_vpn(vaddr, 1), 7);
    assert_eq!(get_vpn(vaddr, 0), 9);
}

#[test]
fn packed_registers_roundtrip() {
    let p = make_pack32(0xdead, 0xbeef);
    assert_eq!(get_hi32(p), 0xdead);
    assert_eq!(p as u32, 0xbeef);
}

#[test]
fn reply_decoding() {
    assert_eq!(decode_reply(0, 42), Ok(42));
    assert_eq!(decode_reply(9, 0), Err((ErrKind::NotEmptySlot, 0)));
    assert_eq!(decode_reply(20, 4096), Err((ErrKind::NotAligned, 4096)));
    assert_eq!(decode_reply(23, 1), Err((ErrKind::UnknownSysCall, 1)));
}
