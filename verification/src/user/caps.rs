//! The capabilities a user program holds: where each one is in its
//! capability space, and what the program knows of the object.
//!
//! Each operation returns the system-call request to make; operations whose
//! bookkeeping depends on the outcome take the kernel's reply afterwards.
use vstd::prelude::*;
use vstd::arithmetic::power2::pow2;
use crate::cap_type::CapabilityType;
use crate::err_kind::ErrKind;
use crate::inv_labels::InvLabel;
use crate::syscall::SysCallNo;
use crate::types::{IPCBuffer, UntypedInfo};
use crate::object::tcb::Registers;
use crate::arith::pow2_usize;
use crate::user::syscall::{SysCall, SysCallFailed, SysCallRes, spec_call, pack32,
    untyped_retype, cnode_copy, cnode_mint, map_page_table, make_page_table_root, map_page, unmap_page,
    set_ipc_buffer, write_reg, spec_register_words, REGISTER_WORDS, configure_tcb, resume_tcb, send_ipc, recv_ipc, send_signal, recv_signal};

verus! {

/// A kind of kernel object, as the user library sees it.
pub trait KernelObject: Sized {
    spec fn spec_cap_type() -> CapabilityType;

    fn cap_type() -> (r: CapabilityType)
        ensures
            r == Self::spec_cap_type(),
    ;
}

/// An object that can be made from untyped memory.
pub trait FromUntype: KernelObject {
    spec fn spec_from_untype(user_size: usize, is_device: bool, phys_addr: usize) -> Self;

    fn from_untype(user_size: usize, is_device: bool, phys_addr: usize) -> (r: Self)
        ensures
            r == Self::spec_from_untype(user_size, is_device, phys_addr),
    ;
}

/// An object of a fixed size.
pub trait FixedSizeObject: FromUntype {
    spec fn spec_object_size() -> usize;

    fn object_size() -> (r: usize)
        ensures
            r == Self::spec_object_size(),
    ;
}

/// An object whose capability can be copied.
pub trait Copyable: KernelObject {
    spec fn spec_copy_data(&self) -> Self;

    fn copy_data(&self) -> (r: Self)
        ensures
            r == self.spec_copy_data(),
    ;
}

/// An object whose capability can be minted.
pub trait Mintable: KernelObject {
    spec fn spec_mint_data(&self, value: usize) -> Self;

    fn mint_data(&self, value: usize) -> (r: Self)
        ensures
            r == self.spec_mint_data(value),
    ;
}

/// The outcome of a request once the kernel has replied: the reply's error
/// when the call failed, and otherwise `made`, what the request makes on
/// success (the capability a copy, mint or retype yields, or nothing).
pub fn settle<T>(reply: SysCallRes, made: T) -> (r: Result<T, SysCallFailed>)
    ensures
        reply matches Err(e) ==> r == Err::<T, SysCallFailed>(e),
        reply is Ok ==> r == Ok::<T, SysCallFailed>(made),
{
    match reply {
        Err(e) => Err(e),
        Ok(_) => Ok(made),
    }
}

/// A capability the program holds: where it is (a pointer and the number
/// of its bits to resolve) and what the program knows of the object.
#[derive(Debug)]
pub struct Capability<K> {
    pub cap_ptr: usize,
    pub cap_depth: u32,
    pub cap_data: K,
}

/// An untyped region.
#[derive(Default, Debug, Clone, Copy, PartialEq, Eq, Structural)]
pub struct Untyped {
    pub is_device: bool,
    pub size_bits: usize,
    pub phys_addr: usize,
}

impl KernelObject for Untyped {
    open spec fn spec_cap_type() -> CapabilityType { CapabilityType::Untyped }
    fn cap_type() -> (r: CapabilityType) { CapabilityType::Untyped }
}

impl FromUntype for Untyped {
    open spec fn spec_from_untype(user_size: usize, is_device: bool, phys_addr: usize) -> Self {
        Untyped { size_bits: user_size, is_device, phys_addr }
    }
    fn from_untype(user_size: usize, is_device: bool, phys_addr: usize) -> (r: Self) {
        Untyped { size_bits: user_size, is_device, phys_addr }
    }
}

/// A capability node: its radix and the next slot to hand out.
#[derive(Debug, Default, Clone, Copy, PartialEq, Eq, Structural)]
pub struct CNode {
    pub radix: u32,
    pub cursor: usize,
}

impl KernelObject for CNode {
    open spec fn spec_cap_type() -> CapabilityType { CapabilityType::CNode }
    fn cap_type() -> (r: CapabilityType) { CapabilityType::CNode }
}

impl FromUntype for CNode {
    open spec fn spec_from_untype(user_size: usize, is_device: bool, phys_addr: usize) -> Self {
        CNode { radix: user_size as u32, cursor: 0 }
    }
    fn from_untype(user_size: usize, is_device: bool, phys_addr: usize) -> (r: Self) {
        CNode { radix: user_size as u32, cursor: 0 }
    }
}

/// A page table: where it is mapped, whether it is a root, whether it is mapped.
#[derive(Debug, Default, Clone, Copy, PartialEq, Eq, Structural)]
pub struct PageTable {
    pub mapped_address: usize,
    pub is_root: bool,
    pub is_mapped: bool,
}

impl KernelObject for PageTable {
    open spec fn spec_cap_type() -> CapabilityType { CapabilityType::PageTable }
    fn cap_type() -> (r: CapabilityType) { CapabilityType::PageTable }
}

impl FromUntype for PageTable {
    open spec fn spec_from_untype(user_size: usize, is_device: bool, phys_addr: usize) -> Self {
        PageTable { mapped_address: 0, is_root: false, is_mapped: false }
    }
    fn from_untype(user_size: usize, is_device: bool, phys_addr: usize) -> (r: Self) {
        PageTable { mapped_address: 0, is_root: false, is_mapped: false }
    }
}

impl FixedSizeObject for PageTable {
    open spec fn spec_object_size() -> usize { 4096 }
    fn object_size() -> (r: usize) { 4096 }
}

/// Read, write and execute permissions of a mapping.
#[derive(Debug, Clone, Copy, Default, PartialEq, Eq, Structural)]
pub struct PageFlags {
    pub is_writable: bool,
    pub is_readable: bool,
    pub is_executable: bool,
}

/// A page: where it is mapped, whether it is mapped, and with which rights.
#[derive(Debug, Default, Clone, Copy, PartialEq, Eq, Structural)]
pub struct Page {
    pub mapped_address: usize,
    pub is_mapped: bool,
    pub rights: PageFlags,
}

impl KernelObject for Page {
    open spec fn spec_cap_type() -> CapabilityType { CapabilityType::Page }
    fn cap_type() -> (r: CapabilityType) { CapabilityType::Page }
}

impl FromUntype for Page {
    open spec fn spec_from_untype(user_size: usize, is_device: bool, phys_addr: usize) -> Self {
        Page { mapped_address: 0, is_mapped: false, rights: PageFlags { is_writable: false, is_readable: false, is_executable: false } }
    }
    fn from_untype(user_size: usize, is_device: bool, phys_addr: usize) -> (r: Self) {
        Page { mapped_address: 0, is_mapped: false, rights: PageFlags::never() }
    }
}

impl FixedSizeObject for Page {
    open spec fn spec_object_size() -> usize { 4096 }
    fn object_size() -> (r: usize) { 4096 }
}

impl Copyable for Page {
    open spec fn spec_copy_data(&self) -> Self { *self }
    fn copy_data(&self) -> (r: Self) { *self }
}

/// An endpoint.
#[derive(Debug, Default, Clone, Copy, PartialEq, Eq, Structural)]
pub struct Endpoint {}

impl KernelObject for Endpoint {
    open spec fn spec_cap_type() -> CapabilityType { CapabilityType::EndPoint }
    fn cap_type() -> (r: CapabilityType) { CapabilityType::EndPoint }
}

impl FromUntype for Endpoint {
    open spec fn spec_from_untype(user_size: usize, is_device: bool, phys_addr: usize) -> Self { Endpoint {} }
    fn from_untype(user_size: usize, is_device: bool, phys_addr: usize) -> (r: Self) { Endpoint {} }
}

impl FixedSizeObject for Endpoint {
    open spec fn spec_object_size() -> usize { 0 }
    fn object_size() -> (r: usize) { 0 }
}

impl Mintable for Endpoint {
    open spec fn spec_mint_data(&self, value: usize) -> Self { *self }
    fn mint_data(&self, value: usize) -> (r: Self) { *self }
}

/// A notification.
#[derive(Debug, Default, Clone, Copy, PartialEq, Eq, Structural)]
pub struct Notificaiton {}

impl KernelObject for Notificaiton {
    open spec fn spec_cap_type() -> CapabilityType { CapabilityType::Notification }
    fn cap_type() -> (r: CapabilityType) { CapabilityType::Notification }
}

impl FromUntype for Notificaiton {
    open spec fn spec_from_untype(user_size: usize, is_device: bool, phys_addr: usize) -> Self { Notificaiton {} }
    fn from_untype(user_size: usize, is_device: bool, phys_addr: usize) -> (r: Self) { Notificaiton {} }
}

impl FixedSizeObject for Notificaiton {
    open spec fn spec_object_size() -> usize { 0 }
    fn object_size() -> (r: usize) { 0 }
}

impl Copyable for Notificaiton {
    open spec fn spec_copy_data(&self) -> Self { *self }
    fn copy_data(&self) -> (r: Self) { *self }
}

impl Mintable for Notificaiton {
    open spec fn spec_mint_data(&self, value: usize) -> Self { *self }
    fn mint_data(&self, value: usize) -> (r: Self) { *self }
}

/// A thread.
#[derive(Debug, Default, Clone, Copy, PartialEq, Eq, Structural)]
pub struct ThreadControlBlock {}

impl KernelObject for ThreadControlBlock {
    open spec fn spec_cap_type() -> CapabilityType { CapabilityType::Tcb }
    fn cap_type() -> (r: CapabilityType) { CapabilityType::Tcb }
}

impl FromUntype for ThreadControlBlock {
    open spec fn spec_from_untype(user_size: usize, is_device: bool, phys_addr: usize) -> Self { ThreadControlBlock {} }
    fn from_untype(user_size: usize, is_device: bool, phys_addr: usize) -> (r: Self) { ThreadControlBlock {} }
}

impl FixedSizeObject for ThreadControlBlock {
    open spec fn spec_object_size() -> usize { 0 }
    fn object_size() -> (r: usize) { 0 }
}

/// The authority to claim interrupts, with a word recording the ones claimed.
#[derive(Debug, Default, Clone, Copy, PartialEq, Eq, Structural)]
pub struct IRQControl {
    pub irqs_status: usize,
}

impl KernelObject for IRQControl {
    open spec fn spec_cap_type() -> CapabilityType { CapabilityType::IrqControl }
    fn cap_type() -> (r: CapabilityType) { CapabilityType::IrqControl }
}

/// The authority over one interrupt.
#[derive(Debug, Default, Clone, Copy, PartialEq, Eq, Structural)]
pub struct IRQHandler {
    pub irq_number: usize,
}

impl KernelObject for IRQHandler {
    open spec fn spec_cap_type() -> CapabilityType { CapabilityType::IrqHandler }
    fn cap_type() -> (r: CapabilityType) { CapabilityType::IrqHandler }
}

/// Each kind of object the program names in a request is the kernel's kind
/// of the same name, carried as that kind's wire code: a retype of an
/// endpoint asks the kernel for an endpoint (code 5), of a notification for
/// a notification (code 9), and so on for every kind.
pub proof fn lemma_kinds_carry_their_codes()
    ensures
        <Untyped as KernelObject>::spec_cap_type() == CapabilityType::Untyped,
        <Untyped as KernelObject>::spec_cap_type().spec_code() == 1,
        <ThreadControlBlock as KernelObject>::spec_cap_type() == CapabilityType::Tcb,
        <ThreadControlBlock as KernelObject>::spec_cap_type().spec_code() == 3,
        <Endpoint as KernelObject>::spec_cap_type() == CapabilityType::EndPoint,
        <Endpoint as KernelObject>::spec_cap_type().spec_code() == 5,
        <CNode as KernelObject>::spec_cap_type() == CapabilityType::CNode,
        <CNode as KernelObject>::spec_cap_type().spec_code() == 7,
        <Notificaiton as KernelObject>::spec_cap_type() == CapabilityType::Notification,
        <Notificaiton as KernelObject>::spec_cap_type().spec_code() == 9,
        <IRQControl as KernelObject>::spec_cap_type() == CapabilityType::IrqControl,
        <IRQControl as KernelObject>::spec_cap_type().spec_code() == 11,
        <IRQHandler as KernelObject>::spec_cap_type() == CapabilityType::IrqHandler,
        <IRQHandler as KernelObject>::spec_cap_type().spec_code() == 13,
        <PageTable as KernelObject>::spec_cap_type() == CapabilityType::PageTable,
        <PageTable as KernelObject>::spec_cap_type().spec_code() == 2,
        <Page as KernelObject>::spec_cap_type() == CapabilityType::Page,
        <Page as KernelObject>::spec_cap_type().spec_code() == 4,
{
}

/// The user permission bits of a set of rights: 2 write, 4 read, 1 execute.
pub open spec fn spec_flags_bits(f: PageFlags) -> usize {
    (if f.is_writable { 2usize } else { 0usize }) | (if f.is_readable { 4usize } else { 0usize }) | (if f.is_executable { 1usize } else { 0usize })
}

/// The permission bits a set of rights asks the kernel for name exactly
/// those rights: 4 when readable, 2 when writable, 1 when executable, and
/// no other bit.
pub proof fn lemma_flags_bits_name_the_rights(f: PageFlags)
    ensures
        (spec_flags_bits(f) & 4 == 4) == f.is_readable,
        (spec_flags_bits(f) & 2 == 2) == f.is_writable,
        (spec_flags_bits(f) & 1 == 1) == f.is_executable,
        spec_flags_bits(f) < 8,
{
    let w: usize = if f.is_writable { 2usize } else { 0usize };
    let rd: usize = if f.is_readable { 4usize } else { 0usize };
    let x: usize = if f.is_executable { 1usize } else { 0usize };
    assert(((w | rd | x) & 4 == 4) == (rd == 4) && ((w | rd | x) & 2 == 2) == (w == 2)
        && ((w | rd | x) & 1 == 1) == (x == 1) && (w | rd | x) < 8) by (bit_vector)
        requires (w == 2 || w == 0), (rd == 4 || rd == 0), (x == 1 || x == 0);
}

impl PageFlags {
    /// Read only.
    pub fn readonly() -> (f: Self)
        ensures
            f == (PageFlags { is_writable: false, is_readable: true, is_executable: false }),
    {
        PageFlags { is_writable: false, is_readable: true, is_executable: false }
    }

    /// Write only.
    pub fn writeonly() -> (f: Self)
        ensures
            f == (PageFlags { is_writable: true, is_readable: false, is_executable: false }),
    {
        PageFlags { is_writable: true, is_readable: false, is_executable: false }
    }

    /// Read and execute.
    pub fn executable() -> (f: Self)
        ensures
            f == (PageFlags { is_writable: false, is_readable: true, is_executable: true }),
    {
        PageFlags { is_writable: false, is_readable: true, is_executable: true }
    }

    /// Read, write and execute.
    pub fn all() -> (f: Self)
        ensures
            f == (PageFlags { is_writable: true, is_readable: true, is_executable: true }),
    {
        PageFlags { is_writable: true, is_readable: true, is_executable: true }
    }

    /// Read and write.
    pub fn readandwrite() -> (f: Self)
        ensures
            f == (PageFlags { is_writable: true, is_readable: true, is_executable: false }),
    {
        PageFlags { is_writable: true, is_readable: true, is_executable: false }
    }

    /// No access.
    pub fn never() -> (f: Self)
        ensures
            f == (PageFlags { is_writable: false, is_readable: false, is_executable: false }),
    {
        PageFlags { is_writable: false, is_readable: false, is_executable: false }
    }

    /// The user permission bits of these rights (see [`spec_flags_bits`]).
    pub fn bits(self) -> (r: usize)
        ensures
            r == spec_flags_bits(self),
    {
        let write: usize = if self.is_writable { 0x02 } else { 0x00 };
        let read: usize = if self.is_readable { 0x04 } else { 0x00 };
        let exec: usize = if self.is_executable { 0x01 } else { 0x00 };
        write | read | exec
    }
}

impl From<PageFlags> for usize {
    fn from(value: PageFlags) -> (r: usize) {
        value.bits()
    }
}

impl vstd::std_specs::convert::FromSpecImpl<PageFlags> for usize {
    open spec fn obeys_from_spec() -> bool {
        true
    }

    open spec fn from_spec(v: PageFlags) -> usize {
        spec_flags_bits(v)
    }
}

/// A slot of a node the program holds: the node's pointer and depth, its
/// radix, and the slot's index.
#[derive(Debug, Clone, Copy, PartialEq, Eq, Structural)]
pub struct CSlot {
    pub pptr: usize,
    pub depth: u32,
    pub radix: u32,
    pub index: u32,
}

/// The pointer and depth of the slot: the node's pointer followed by the
/// index in `radix` more bits.
pub open spec fn spec_slot_cap_ptr(s: CSlot) -> (usize, u32) {
    (((s.pptr as nat) * pow2(s.radix as nat) + s.index) as usize, (s.depth + s.radix) as u32)
}

/// The slot pointer can be formed without overflow.
pub open spec fn slot_cap_ptr_ok(s: CSlot) -> bool {
    &&& s.radix < usize::BITS
    &&& s.depth + s.radix <= u32::MAX
    &&& (s.pptr as nat) * pow2(s.radix as nat) + s.index <= usize::MAX
}

impl CSlot {
    /// Whether the slot pointer can be formed (see [`slot_cap_ptr_ok`]).
    pub fn cap_ptr_ok(&self) -> (r: bool)
        ensures
            r == slot_cap_ptr_ok(*self),
    {
        if self.radix >= usize::BITS || self.depth > u32::MAX - self.radix {
            return false;
        }
        let p = crate::arith::pow2_usize(self.radix);
        let index = self.index as usize;
        proof {
            vstd::arithmetic::power2::lemma_pow2_pos(self.radix as nat);
        }
        let room = (usize::MAX - index) / p;
        proof {
            assert((self.pptr <= room) == ((self.pptr as nat) * (p as nat) + index <= usize::MAX)) by (nonlinear_arith)
                requires p > 0, room == (usize::MAX - index) / (p as int), index <= usize::MAX;
        }
        self.pptr <= room
    }

    /// The pointer and depth naming this slot (see [`spec_slot_cap_ptr`]).
    pub fn get_cap_ptr(&self) -> (r: (usize, u32))
        requires
            slot_cap_ptr_ok(*self),
        ensures
            r == spec_slot_cap_ptr(*self),
    {
        let new_depth = self.depth + self.radix;
        proof {
            vstd::bits::lemma_usize_pow2_no_overflow(self.radix as nat);
            assert(0 <= (self.pptr as nat) * pow2(self.radix as nat)) by (nonlinear_arith);
            vstd::bits::lemma_usize_shl_is_mul(self.pptr, self.radix as usize);
        }
        let new_pptr = (self.pptr << (self.radix as usize)) + self.index as usize;
        (new_pptr, new_depth)
    }
}

pub type UntypedCapability = Capability<Untyped>;

impl Capability<Untyped> {
    /// The untyped capability described by a boot record, in the root node
    /// of radix `root_radix`.
    pub fn from_untyped_info(root_radix: u32, info: &UntypedInfo) -> (r: Self)
        ensures
            r.cap_ptr == info.idx,
            r.cap_depth == root_radix,
            r.cap_data == (Untyped { is_device: info.is_device, size_bits: info.bits, phys_addr: info.phys_addr }),
    {
        Capability {
            cap_ptr: info.idx,
            cap_depth: root_radix,
            cap_data: Untyped { is_device: info.is_device, size_bits: info.bits, phys_addr: info.phys_addr },
        }
    }

    /// Retypes one object of kind `T` made with `user_size` into `slot`:
    /// the request, and the capability the program holds once it succeeds
    /// (at the slot's pointer, with what the kind makes from the size and
    /// this region's device flag and address); [`settle`] gives the
    /// outcome once the kernel has replied.
    pub fn retype_single<T: FromUntype>(&mut self, slot: &mut CSlot, user_size: usize) -> (r: (SysCall, Capability<T>))
        requires
            slot_cap_ptr_ok(*old(slot)),
        ensures
            *final(self) == *old(self),
            *final(slot) == *old(slot),
            r.0 == spec_call(old(self).cap_ptr, old(self).cap_depth, InvLabel::UntypedRetype, old(slot).pptr,
                pack32(old(slot).index, old(slot).depth), pack32(user_size as u32, 1), T::spec_cap_type().spec_code() as usize, SysCallNo::Call),
            (r.1.cap_ptr, r.1.cap_depth) == spec_slot_cap_ptr(*old(slot)),
            r.1.cap_data == T::spec_from_untype(user_size, old(self).cap_data.is_device, old(self).cap_data.phys_addr),
    {
        let num: u32 = 1;
        let call = untyped_retype(self.cap_ptr, self.cap_depth, slot.pptr, slot.depth, slot.index, user_size as u32, num, T::cap_type());
        let new_c = T::from_untype(user_size, self.cap_data.is_device, self.cap_data.phys_addr);
        let (cap_ptr, cap_depth) = slot.get_cap_ptr();
        (call, Capability { cap_ptr, cap_depth, cap_data: new_c })
    }

    /// Retypes one object of a fixed-size kind into `slot` (the size passed
    /// is the kind's size).
    pub fn retype_single_with_fixed_size<T: FixedSizeObject>(&mut self, slot: &mut CSlot) -> (r: (SysCall, Capability<T>))
        requires
            slot_cap_ptr_ok(*old(slot)),
        ensures
            *final(self) == *old(self),
            *final(slot) == *old(slot),
            r.0 == spec_call(old(self).cap_ptr, old(self).cap_depth, InvLabel::UntypedRetype, old(slot).pptr,
                pack32(old(slot).index, old(slot).depth), pack32(T::spec_object_size() as u32, 1), T::spec_cap_type().spec_code() as usize, SysCallNo::Call),
            (r.1.cap_ptr, r.1.cap_depth) == spec_slot_cap_ptr(*old(slot)),
            r.1.cap_data == T::spec_from_untype(T::spec_object_size(), old(self).cap_data.is_device, old(self).cap_data.phys_addr),
    {
        let user_size = T::object_size();
        self.retype_single::<T>(slot, user_size)
    }
}

pub type CNodeCapability = Capability<CNode>;

impl Capability<CNode> {
    /// The number of slots of the node.
    pub fn get_size(&self) -> (r: usize)
        requires
            self.cap_data.radix < usize::BITS,
        ensures
            r == pow2(self.cap_data.radix as nat),
    {
        pow2_usize(self.cap_data.radix)
    }

    /// Hands out the next slot of the node: `NoEnoughSlot` when all slots
    /// have been handed out.
    pub fn get_slot(&mut self) -> (r: Result<CSlot, SysCallFailed>)
        requires
            old(self).cap_data.radix < usize::BITS,
        ensures
            final(self).cap_ptr == old(self).cap_ptr,
            final(self).cap_depth == old(self).cap_depth,
            final(self).cap_data.radix == old(self).cap_data.radix,
            old(self).cap_data.cursor >= pow2(old(self).cap_data.radix as nat) ==>
                r == Err::<CSlot, SysCallFailed>((ErrKind::NoEnoughSlot, 0)) && final(self).cap_data == old(self).cap_data,
            old(self).cap_data.cursor < pow2(old(self).cap_data.radix as nat) ==>
                r == Ok::<CSlot, SysCallFailed>(CSlot { pptr: old(self).cap_ptr, depth: old(self).cap_depth, radix: old(self).cap_data.radix,
                    index: old(self).cap_data.cursor as u32 })
                && final(self).cap_data.cursor == old(self).cap_data.cursor + 1,
    {
        let size = self.get_size();
        if self.cap_data.cursor >= size {
            Err((ErrKind::NoEnoughSlot, 0))
        } else {
            let ret = CSlot { pptr: self.cap_ptr, depth: self.cap_depth, radix: self.cap_data.radix, index: self.cap_data.cursor as u32 };
            self.cap_data.cursor = self.cap_data.cursor + 1;
            Ok(ret)
        }
    }

    /// Copies `cap` into the next slot of this node: the request (naming
    /// the slot by its index, resolved with the node's radix) and the
    /// capability the program holds once it succeeds; [`settle`] gives the
    /// outcome once the kernel has replied.
    pub fn copy<K: Copyable>(&mut self, cap: &Capability<K>) -> (r: Result<(SysCall, Capability<K>), SysCallFailed>)
        requires
            old(self).cap_data.radix < usize::BITS,
            slot_cap_ptr_ok(CSlot { pptr: old(self).cap_ptr, depth: old(self).cap_depth, radix: old(self).cap_data.radix, index: old(self).cap_data.cursor as u32 }),
        ensures
            final(self).cap_ptr == old(self).cap_ptr,
            final(self).cap_depth == old(self).cap_depth,
            final(self).cap_data.radix == old(self).cap_data.radix,
            old(self).cap_data.cursor >= pow2(old(self).cap_data.radix as nat) ==>
                r == Err::<(SysCall, Capability<K>), SysCallFailed>((ErrKind::NoEnoughSlot, 0)) && final(self).cap_data == old(self).cap_data,
            old(self).cap_data.cursor < pow2(old(self).cap_data.radix as nat) ==> {
                let slot = CSlot { pptr: old(self).cap_ptr, depth: old(self).cap_depth, radix: old(self).cap_data.radix, index: old(self).cap_data.cursor as u32 };
                &&& final(self).cap_data.cursor == old(self).cap_data.cursor + 1
                &&& r is Ok
                &&& r->Ok_0.0 == spec_call(old(self).cap_ptr, old(self).cap_depth, InvLabel::CNodeCopy, cap.cap_ptr,
                    pack32(cap.cap_depth, old(self).cap_data.radix), slot.index as usize, 0, SysCallNo::Call)
                &&& (r->Ok_0.1.cap_ptr, r->Ok_0.1.cap_depth) == spec_slot_cap_ptr(slot)
                &&& r->Ok_0.1.cap_data == cap.cap_data.spec_copy_data()
            },
    {
        let slot = self.get_slot()?;
        let depth = slot.radix;
        let index = slot.index as usize;
        let (dest_ptr, dest_depth) = slot.get_cap_ptr();
        let call = cnode_copy(self.cap_ptr, self.cap_depth, index, depth, cap.cap_ptr, cap.cap_depth);
        let cap_data = cap.cap_data.copy_data();
        Ok((call, Capability { cap_ptr: dest_ptr, cap_depth: dest_depth, cap_data }))
    }

    /// Gives up a capability; the kernel does not take part yet, and
    /// nothing changes.
    pub fn delete<K: KernelObject>(&mut self, cap: Capability<K>) -> (r: Result<(), SysCallFailed>)
        ensures
            r is Ok,
            *final(self) == *old(self),
    {
        Ok(())
    }

    /// Mints `cap` with kind-dependent value `cap_val` into the next slot of
    /// this node: the request and the capability the program holds once it
    /// succeeds; [`settle`] gives the outcome once the kernel has replied.
    /// The request names the destination by the slot's full pointer and
    /// depth, where a copy names it by its index and this node's radix; the
    /// kernel resolves either from the invoked node, so the two name the same
    /// slot when this node is the root node and its pointer resolves to
    /// itself.
    pub fn mint<K: Mintable>(&mut self, cap: &Capability<K>, cap_val: usize) -> (r: Result<(SysCall, Capability<K>), SysCallFailed>)
        requires
            old(self).cap_data.radix < usize::BITS,
            slot_cap_ptr_ok(CSlot { pptr: old(self).cap_ptr, depth: old(self).cap_depth, radix: old(self).cap_data.radix, index: old(self).cap_data.cursor as u32 }),
        ensures
            final(self).cap_ptr == old(self).cap_ptr,
            final(self).cap_depth == old(self).cap_depth,
            final(self).cap_data.radix == old(self).cap_data.radix,
            old(self).cap_data.cursor >= pow2(old(self).cap_data.radix as nat) ==>
                r == Err::<(SysCall, Capability<K>), SysCallFailed>((ErrKind::NoEnoughSlot, 0)) && final(self).cap_data == old(self).cap_data,
            old(self).cap_data.cursor < pow2(old(self).cap_data.radix as nat) ==> {
                let slot = CSlot { pptr: old(self).cap_ptr, depth: old(self).cap_depth, radix: old(self).cap_data.radix, index: old(self).cap_data.cursor as u32 };
                let (dest_ptr, dest_depth) = spec_slot_cap_ptr(slot);
                &&& final(self).cap_data.cursor == old(self).cap_data.cursor + 1
                &&& r is Ok
                &&& r->Ok_0.0 == spec_call(old(self).cap_ptr, old(self).cap_depth, InvLabel::CNodeMint, cap.cap_ptr,
                    pack32(cap.cap_depth, dest_depth), dest_ptr, cap_val, SysCallNo::Call)
                &&& r->Ok_0.1.cap_ptr == dest_ptr
                &&& r->Ok_0.1.cap_depth == dest_depth
                &&& r->Ok_0.1.cap_data == cap.cap_data.spec_mint_data(cap_val)
            },
    {
        let (dest_ptr, dest_depth) = self.get_slot()?.get_cap_ptr();
        let call = cnode_mint(self.cap_ptr, self.cap_depth, dest_ptr, dest_depth, cap.cap_ptr, cap.cap_depth, cap_val);
        let cap_data = K::mint_data(&cap.cap_data, cap_val);
        Ok((call, Capability { cap_ptr: dest_ptr, cap_depth: dest_depth, cap_data }))
    }
}

pub type PageTableCapability = Capability<PageTable>;

impl Capability<PageTable> {
    /// Links this page table for `vaddr` into the address space rooted at
    /// `root_table`; the reply's value is the level below it.
    pub fn map(&mut self, root_table: &mut Self, vaddr: usize) -> (r: SysCall)
        ensures
            *final(self) == *old(self),
            *final(root_table) == *old(root_table),
            r == spec_call(old(self).cap_ptr, old(self).cap_depth, InvLabel::PageTableMap, old(root_table).cap_ptr,
                old(root_table).cap_depth as usize, vaddr, 0, SysCallNo::Call),
    {
        map_page_table(self.cap_ptr, self.cap_depth, root_table.cap_ptr, root_table.cap_depth, vaddr)
    }

    /// The request that makes this page table the root of an address space.
    pub fn make_as_root_request(&self) -> (r: SysCall)
        ensures
            r == spec_call(self.cap_ptr, self.cap_depth, InvLabel::PageTableMakeRoot, 0, 0, 0, 0, SysCallNo::Call),
    {
        make_page_table_root(self.cap_ptr, self.cap_depth)
    }

    /// Records the kernel's reply to [`Self::make_as_root_request`]: the
    /// table counts as mapped once it succeeded. A root table is mapped by
    /// being made the root, so this sets the mapped flag on purpose.
    pub fn make_as_root(&mut self, reply: SysCallRes) -> (r: Result<(), SysCallFailed>)
        ensures
            reply matches Err(e) ==> r == Err::<(), SysCallFailed>(e) && *final(self) == *old(self),
            reply is Ok ==> r is Ok && *final(self) == (Capability { cap_data: PageTable { is_mapped: true, ..old(self).cap_data }, ..*old(self) }),
    {
        reply?;
        self.cap_data.is_mapped = true;
        Ok(())
    }
}

pub type PageCapability = Capability<Page>;

impl Capability<Page> {
    /// The request that maps this page at `vaddr` in the address space
    /// rooted at `root_table` with `flags`.
    pub fn map_request(&self, root_table: &PageTableCapability, vaddr: usize, flags: PageFlags) -> (r: SysCall)
        ensures
            r == spec_call(self.cap_ptr, self.cap_depth, InvLabel::PageMap, root_table.cap_ptr,
                root_table.cap_depth as usize, vaddr, spec_flags_bits(flags), SysCallNo::Call),
    {
        map_page(self.cap_ptr, self.cap_depth, root_table.cap_ptr, root_table.cap_depth, vaddr, flags.into())
    }

    /// Records the kernel's reply to [`Self::map_request`]: once it
    /// succeeded the page is mapped at `vaddr` with `flags`.
    pub fn map(&mut self, vaddr: usize, flags: PageFlags, reply: SysCallRes) -> (r: Result<(), SysCallFailed>)
        ensures
            reply matches Err(e) ==> r == Err::<(), SysCallFailed>(e) && *final(self) == *old(self),
            reply is Ok ==> r is Ok && *final(self) == (Capability {
                cap_data: Page { is_mapped: true, mapped_address: vaddr, rights: flags }, ..*old(self) }),
    {
        reply?;
        self.cap_data.is_mapped = true;
        self.cap_data.mapped_address = vaddr;
        self.cap_data.rights = flags;
        Ok(())
    }

    /// The request that unmaps this page from the address space rooted at
    /// `root_table`.
    pub fn unmap_request(&self, root_table: &PageTableCapability) -> (r: SysCall)
        ensures
            r == spec_call(self.cap_ptr, self.cap_depth, InvLabel::PageUnMap, root_table.cap_ptr,
                root_table.cap_depth as usize, 0, 0, SysCallNo::Call),
    {
        unmap_page(self.cap_ptr, self.cap_depth, root_table.cap_ptr, root_table.cap_depth)
    }

    /// Records the kernel's reply to [`Self::unmap_request`]: once it
    /// succeeded the page is unmapped, at address zero, with no rights.
    pub fn unmap(&mut self, reply: SysCallRes) -> (r: Result<(), SysCallFailed>)
        ensures
            reply matches Err(e) ==> r == Err::<(), SysCallFailed>(e) && *final(self) == *old(self),
            reply is Ok ==> r is Ok && *final(self) == (Capability {
                cap_data: Page { is_mapped: false, mapped_address: 0,
                    rights: PageFlags { is_writable: false, is_readable: false, is_executable: false } }, ..*old(self) }),
    {
        reply?;
        self.cap_data.is_mapped = false;
        self.cap_data.mapped_address = 0;
        self.cap_data.rights = PageFlags::never();
        Ok(())
    }
}

pub type TCBCapability = Capability<ThreadControlBlock>;

impl Capability<ThreadControlBlock> {
    /// Sets this thread's IPC buffer to `page_cap`.
    pub fn set_ipc_buffer(&mut self, page_cap: &PageCapability) -> (r: SysCall)
        ensures
            *final(self) == *old(self),
            r == spec_call(old(self).cap_ptr, old(self).cap_depth, InvLabel::TcbSetIpcBuffer, page_cap.cap_ptr,
                page_cap.cap_depth as usize, 0, 0, SysCallNo::Call),
    {
        set_ipc_buffer(self.cap_ptr, self.cap_depth, page_cap.cap_ptr, page_cap.cap_depth)
    }

    /// Sets this thread's registers to `registers`: they go into the
    /// caller's IPC buffer first (see [`write_reg`]), and the request is
    /// made. The outcome is the reply's (see [`settle`]).
    pub fn write_regs(&mut self, registers: Registers, ipc_buffer: &mut IPCBuffer) -> (r: SysCall)
        ensures
            *final(self) == *old(self),
            r == spec_call(old(self).cap_ptr, old(self).cap_depth, InvLabel::TcbWriteReg, 0, 0, 0, 0, SysCallNo::Call),
            final(ipc_buffer).tag == old(ipc_buffer).tag,
            final(ipc_buffer).user_data == old(ipc_buffer).user_data,
            final(ipc_buffer).message@ == spec_register_words(registers) + old(ipc_buffer).message@.skip(REGISTER_WORDS as int),
    {
        write_reg(self.cap_ptr, self.cap_depth, registers, ipc_buffer)
    }

    /// Gives this thread `root_cnode` as capability space and `root_vspace`
    /// as address space.
    pub fn configure(&mut self, root_cnode: &mut CNodeCapability, root_vspace: &mut PageTableCapability) -> (r: SysCall)
        ensures
            *final(self) == *old(self),
            *final(root_cnode) == *old(root_cnode),
            *final(root_vspace) == *old(root_vspace),
            r == spec_call(old(self).cap_ptr, old(self).cap_depth, InvLabel::TcbConfigure, old(root_cnode).cap_ptr,
                old(root_cnode).cap_depth as usize, old(root_vspace).cap_ptr, old(root_vspace).cap_depth as usize, SysCallNo::Call),
    {
        configure_tcb(self.cap_ptr, self.cap_depth, root_cnode.cap_ptr, root_cnode.cap_depth, root_vspace.cap_ptr, root_vspace.cap_depth)
    }

    /// Makes this thread runnable.
    pub fn resume(&mut self) -> (r: SysCall)
        ensures
            *final(self) == *old(self),
            r == spec_call(old(self).cap_ptr, old(self).cap_depth, InvLabel::TcbResume, 0, 0, 0, 0, SysCallNo::Call),
    {
        resume_tcb(self.cap_ptr, self.cap_depth)
    }
}

pub type EndpointCapability = Capability<Endpoint>;

impl Capability<Endpoint> {
    /// Sends on this endpoint.
    pub fn send(&self) -> (r: SysCall)
        ensures
            r == spec_call(self.cap_ptr, self.cap_depth, InvLabel::EpSend, 0, 0, 0, 0, SysCallNo::Send),
    {
        send_ipc(self.cap_ptr, self.cap_depth)
    }

    /// Receives on this endpoint; the reply's value is what was received.
    pub fn recive(&self) -> (r: SysCall)
        ensures
            r == spec_call(self.cap_ptr, self.cap_depth, InvLabel::EpRecv, 0, 0, 0, 0, SysCallNo::Recv),
    {
        recv_ipc(self.cap_ptr, self.cap_depth)
    }
}

pub type NotificaitonCapability = Capability<Notificaiton>;

impl Capability<Notificaiton> {
    /// Signals this notification.
    pub fn send(&self) -> (r: SysCall)
        ensures
            r == spec_call(self.cap_ptr, self.cap_depth, InvLabel::NotifySend, 0, 0, 0, 0, SysCallNo::Send),
    {
        send_signal(self.cap_ptr, self.cap_depth)
    }

    /// Waits on this notification; the reply's value is the signalled word.
    pub fn wait(&self) -> (r: SysCall)
        ensures
            r == spec_call(self.cap_ptr, self.cap_depth, InvLabel::NotifyWait, 0, 0, 0, 0, SysCallNo::Recv),
    {
        recv_signal(self.cap_ptr, self.cap_depth)
    }
}

pub type IRQControlCapability = Capability<IRQControl>;
pub type IRQHandlerCapabilitry = Capability<IRQHandler>;

/// The checks before claiming an interrupt: the number must be below 64,
/// and the claimed-word bits it shares with the number must be clear. The
/// number itself serves as the mask into the claimed word, on purpose: the
/// word records the numbers claimed, or-ed together.
pub open spec fn spec_control_check(status: usize, irq_number: usize) -> Result<(), SysCallFailed> {
    if irq_number >= 64 {
        Err((ErrKind::InvalidOperation, 0))
    } else if status & irq_number != 0 {
        Err((ErrKind::InvalidOperation, 0))
    } else {
        Ok(())
    }
}

impl Capability<IRQControl> {
    fn control_check(&self, irq_number: usize) -> (r: Result<(), SysCallFailed>)
        ensures
            r == spec_control_check(self.cap_data.irqs_status, irq_number),
    {
        if irq_number >= 64 {
            return Err((ErrKind::InvalidOperation, 0));
        }
        if (self.cap_data.irqs_status & irq_number) != 0 {
            return Err((ErrKind::InvalidOperation, 0));
        }
        Ok(())
    }

    /// The request that claims interrupt `irq_number` into `slot` (after the
    /// checks of [`spec_control_check`]).
    pub fn control_request(&self, irq_number: usize, slot: &CSlot) -> (r: Result<SysCall, SysCallFailed>)
        requires
            slot_cap_ptr_ok(*slot),
        ensures
            spec_control_check(self.cap_data.irqs_status, irq_number) matches Err(e) ==> r == Err::<SysCall, SysCallFailed>(e),
            spec_control_check(self.cap_data.irqs_status, irq_number) is Ok ==> r == Ok::<SysCall, SysCallFailed>(spec_call(
                self.cap_ptr, self.cap_depth, InvLabel::IRQControl, irq_number, spec_slot_cap_ptr(*slot).0,
                spec_slot_cap_ptr(*slot).1 as usize, 0, SysCallNo::Call)),
    {
        self.control_check(irq_number)?;
        let (dest_ptr, dest_depth) = slot.get_cap_ptr();
        Ok(SysCall { cap_ptr: self.cap_ptr, cap_depth: self.cap_depth, inv_label: InvLabel::IRQControl,
            arg3: irq_number, arg4: dest_ptr, arg5: dest_depth as usize, arg6: 0, sysno: SysCallNo::Call })
    }

    /// Records the kernel's reply to [`Self::control_request`]: once it
    /// succeeded the number's bits are set in the claimed word, and the
    /// result is the handler capability at the slot's pointer.
    pub fn control(&mut self, irq_number: usize, slot: &mut CSlot, reply: SysCallRes) -> (r: Result<IRQHandlerCapabilitry, SysCallFailed>)
        requires
            slot_cap_ptr_ok(*old(slot)),
        ensures
            *final(slot) == *old(slot),
            spec_control_check(old(self).cap_data.irqs_status, irq_number) matches Err(e) ==> r == Err::<IRQHandlerCapabilitry, SysCallFailed>(e) && *final(self) == *old(self),
            spec_control_check(old(self).cap_data.irqs_status, irq_number) is Ok ==> match reply {
                Err(e) => r == Err::<IRQHandlerCapabilitry, SysCallFailed>(e) && *final(self) == *old(self),
                Ok(_) => {
                    &&& *final(self) == (Capability { cap_data: IRQControl { irqs_status: old(self).cap_data.irqs_status | irq_number }, ..*old(self) })
                    &&& r is Ok
                    &&& (r->Ok_0.cap_ptr, r->Ok_0.cap_depth) == spec_slot_cap_ptr(*old(slot))
                    &&& r->Ok_0.cap_data == (IRQHandler { irq_number })
                },
            },
    {
        self.control_check(irq_number)?;
        let (dest_ptr, dest_depth) = slot.get_cap_ptr();
        reply?;
        self.cap_data.irqs_status = self.cap_data.irqs_status | irq_number;
        Ok(Capability { cap_ptr: dest_ptr, cap_depth: dest_depth, cap_data: IRQHandler { irq_number } })
    }
}

impl Capability<IRQHandler> {
    /// Acknowledges this interrupt.
    pub fn ack(&mut self) -> (r: SysCall)
        ensures
            *final(self) == *old(self),
            r == spec_call(old(self).cap_ptr, old(self).cap_depth, InvLabel::IRQHandlerAck, 0, 0, 0, 0, SysCallNo::Call),
    {
        SysCall { cap_ptr: self.cap_ptr, cap_depth: self.cap_depth, inv_label: InvLabel::IRQHandlerAck,
            arg3: 0, arg4: 0, arg5: 0, arg6: 0, sysno: SysCallNo::Call }
    }

    /// Makes this interrupt signal `not`.
    pub fn set(&mut self, not: &mut NotificaitonCapability) -> (r: SysCall)
        ensures
            *final(self) == *old(self),
            *final(not) == *old(not),
            r == spec_call(old(self).cap_ptr, old(self).cap_depth, InvLabel::IRQHandlerSet, old(not).cap_ptr,
                old(not).cap_depth as usize, 0, 0, SysCallNo::Call),
    {
        SysCall { cap_ptr: self.cap_ptr, cap_depth: self.cap_depth, inv_label: InvLabel::IRQHandlerSet,
            arg3: not.cap_ptr, arg4: not.cap_depth as usize, arg5: 0, arg6: 0, sysno: SysCallNo::Call }
    }
}

} // verus!
