//! Capabilities to threads, endpoints, notifications, page tables and pages.
use vstd::prelude::*;
use crate::capability::{Capability, CapabilityData, Something};
use crate::cap_type::CapabilityType;
use crate::err_kind::{ErrKind, KernelResult, kerr};
use crate::object::cnode::CNodeEntry;
use crate::object::{Endpoint, Notification};
use crate::object::tcb::ThreadControlBlock;
use crate::object::page_table::{Page, PageTable};

verus! {

pub type TCBCap = CapabilityData<ThreadControlBlock>;
pub type EndpointCap = CapabilityData<Endpoint>;
pub type NotificationCap = CapabilityData<Notification>;
pub type PageTableCap = CapabilityData<PageTable>;
pub type PageCap = CapabilityData<Page>;

/// A thread object is a thread control block; thread capabilities are not copied.
impl Capability for CapabilityData<ThreadControlBlock> {
    open spec fn spec_cap_type() -> CapabilityType {
        CapabilityType::Tcb
    }

    open spec fn spec_create_cap_dep_val(addr: usize, user_size: usize) -> usize {
        0
    }

    open spec fn create_cap_dep_val_ok(addr: usize, user_size: usize) -> bool {
        true
    }

    open spec fn spec_object_size(user_size: usize) -> nat {
        vstd::layout::size_of::<ThreadControlBlock>()
    }

    open spec fn object_size_ok(user_size: usize) -> bool {
        true
    }

    open spec fn spec_object_align() -> usize {
        vstd::layout::align_of::<ThreadControlBlock>() as usize
    }

    open spec fn spec_device_ok() -> bool {
        false
    }

    open spec fn spec_derivable() -> bool {
        false
    }

    fn cap_type() -> (r: CapabilityType) {
        CapabilityType::Tcb
    }

    fn create_cap_dep_val(addr: usize, user_size: usize) -> (r: usize) {
        0
    }

    fn get_object_size(user_size: usize) -> (r: usize) {
        vstd::layout::layout_for_type_is_valid::<ThreadControlBlock>();
        core::mem::size_of::<ThreadControlBlock>()
    }

    fn object_align() -> (r: usize) {
        vstd::layout::layout_for_type_is_valid::<ThreadControlBlock>();
        core::mem::align_of::<ThreadControlBlock>()
    }

    fn check_object_size(user_size: usize) -> (r: bool) {
        true
    }

    fn can_be_retyped_from_device_memory() -> (r: bool) {
        false
    }

    fn derive(&self, src_slot: &CNodeEntry<Something>) -> (r: KernelResult<Self>) {
        Err(kerr(ErrKind::CanNotDerivable))
    }

    fn init_object(&mut self) {
    }
}

/// Endpoint capabilities may be copied and minted.
impl Capability for CapabilityData<Endpoint> {
    open spec fn spec_cap_type() -> CapabilityType {
        CapabilityType::EndPoint
    }

    open spec fn spec_create_cap_dep_val(addr: usize, user_size: usize) -> usize {
        0
    }

    open spec fn create_cap_dep_val_ok(addr: usize, user_size: usize) -> bool {
        true
    }

    open spec fn spec_object_size(user_size: usize) -> nat {
        vstd::layout::size_of::<Endpoint>()
    }

    open spec fn object_size_ok(user_size: usize) -> bool {
        true
    }

    open spec fn spec_object_align() -> usize {
        vstd::layout::align_of::<Endpoint>() as usize
    }

    open spec fn spec_device_ok() -> bool {
        false
    }

    open spec fn spec_derivable() -> bool {
        true
    }

    fn cap_type() -> (r: CapabilityType) {
        CapabilityType::EndPoint
    }

    fn create_cap_dep_val(addr: usize, user_size: usize) -> (r: usize) {
        0
    }

    fn get_object_size(user_size: usize) -> (r: usize) {
        vstd::layout::layout_for_type_is_valid::<Endpoint>();
        core::mem::size_of::<Endpoint>()
    }

    fn object_align() -> (r: usize) {
        vstd::layout::layout_for_type_is_valid::<Endpoint>();
        core::mem::align_of::<Endpoint>()
    }

    fn check_object_size(user_size: usize) -> (r: bool) {
        true
    }

    fn can_be_retyped_from_device_memory() -> (r: bool) {
        false
    }

    fn derive(&self, src_slot: &CNodeEntry<Something>) -> (r: KernelResult<Self>) {
        Ok(*self)
    }

    fn init_object(&mut self) {
    }
}

/// Notification capabilities may be copied and minted.
impl Capability for CapabilityData<Notification> {
    open spec fn spec_cap_type() -> CapabilityType {
        CapabilityType::Notification
    }

    open spec fn spec_create_cap_dep_val(addr: usize, user_size: usize) -> usize {
        0
    }

    open spec fn create_cap_dep_val_ok(addr: usize, user_size: usize) -> bool {
        true
    }

    open spec fn spec_object_size(user_size: usize) -> nat {
        vstd::layout::size_of::<Notification>()
    }

    open spec fn object_size_ok(user_size: usize) -> bool {
        true
    }

    open spec fn spec_object_align() -> usize {
        vstd::layout::align_of::<Notification>() as usize
    }

    open spec fn spec_device_ok() -> bool {
        false
    }

    open spec fn spec_derivable() -> bool {
        true
    }

    fn cap_type() -> (r: CapabilityType) {
        CapabilityType::Notification
    }

    fn create_cap_dep_val(addr: usize, user_size: usize) -> (r: usize) {
        0
    }

    fn get_object_size(user_size: usize) -> (r: usize) {
        vstd::layout::layout_for_type_is_valid::<Notification>();
        core::mem::size_of::<Notification>()
    }

    fn object_align() -> (r: usize) {
        vstd::layout::layout_for_type_is_valid::<Notification>();
        core::mem::align_of::<Notification>()
    }

    fn check_object_size(user_size: usize) -> (r: bool) {
        true
    }

    fn can_be_retyped_from_device_memory() -> (r: bool) {
        false
    }

    fn derive(&self, src_slot: &CNodeEntry<Something>) -> (r: KernelResult<Self>) {
        Ok(*self)
    }

    fn init_object(&mut self) {
    }
}

/// A page table is 512 eight-byte entries aligned to its size; page-table
/// capabilities are not copied.
impl Capability for CapabilityData<PageTable> {
    open spec fn spec_cap_type() -> CapabilityType {
        CapabilityType::PageTable
    }

    open spec fn spec_create_cap_dep_val(addr: usize, user_size: usize) -> usize {
        0
    }

    open spec fn create_cap_dep_val_ok(addr: usize, user_size: usize) -> bool {
        true
    }

    open spec fn spec_object_size(user_size: usize) -> nat {
        4096
    }

    open spec fn object_size_ok(user_size: usize) -> bool {
        true
    }

    open spec fn spec_object_align() -> usize {
        4096
    }

    open spec fn spec_device_ok() -> bool {
        false
    }

    open spec fn spec_derivable() -> bool {
        false
    }

    fn cap_type() -> (r: CapabilityType) {
        CapabilityType::PageTable
    }

    fn create_cap_dep_val(addr: usize, user_size: usize) -> (r: usize) {
        0
    }

    fn get_object_size(user_size: usize) -> (r: usize) {
        4096
    }

    fn object_align() -> (r: usize) {
        4096
    }

    fn check_object_size(user_size: usize) -> (r: bool) {
        true
    }

    fn can_be_retyped_from_device_memory() -> (r: bool) {
        false
    }

    fn derive(&self, src_slot: &CNodeEntry<Something>) -> (r: KernelResult<Self>) {
        Err(kerr(ErrKind::CanNotDerivable))
    }

    fn init_object(&mut self) {
    }
}

/// A page is 4 KiB aligned to its size; page capabilities may be copied.
impl Capability for CapabilityData<Page> {
    open spec fn spec_cap_type() -> CapabilityType {
        CapabilityType::Page
    }

    open spec fn spec_create_cap_dep_val(addr: usize, user_size: usize) -> usize {
        0
    }

    open spec fn create_cap_dep_val_ok(addr: usize, user_size: usize) -> bool {
        true
    }

    open spec fn spec_object_size(user_size: usize) -> nat {
        4096
    }

    open spec fn object_size_ok(user_size: usize) -> bool {
        true
    }

    open spec fn spec_object_align() -> usize {
        4096
    }

    open spec fn spec_device_ok() -> bool {
        false
    }

    open spec fn spec_derivable() -> bool {
        true
    }

    fn cap_type() -> (r: CapabilityType) {
        CapabilityType::Page
    }

    fn create_cap_dep_val(addr: usize, user_size: usize) -> (r: usize) {
        0
    }

    fn get_object_size(user_size: usize) -> (r: usize) {
        4096
    }

    fn object_align() -> (r: usize) {
        4096
    }

    fn check_object_size(user_size: usize) -> (r: bool) {
        true
    }

    fn can_be_retyped_from_device_memory() -> (r: bool) {
        false
    }

    fn derive(&self, src_slot: &CNodeEntry<Something>) -> (r: KernelResult<Self>) {
        Ok(*self)
    }

    fn init_object(&mut self) {
    }
}

} // verus!
