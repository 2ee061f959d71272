//! Capabilities to interrupt control and to single interrupt handlers.
use vstd::prelude::*;
use crate::capability::{Capability, CapabilityData, Something};
use crate::cap_type::CapabilityType;
use crate::err_kind::{ErrKind, KernelResult, kerr};
use crate::object::cnode::CNodeEntry;

verus! {

/// The authority to claim interrupts. It is backed by no memory.
#[derive(Debug, Clone, Copy)]
pub struct IrqControl;

/// The authority over one interrupt. It is backed by no memory.
#[derive(Debug, Clone, Copy)]
pub struct IrqHandler;

pub type IrqControlCap = CapabilityData<IrqControl>;
pub type IrqHandlerCap = CapabilityData<IrqHandler>;

/// The interrupt-control object occupies no memory.
impl Capability for CapabilityData<IrqControl> {
    open spec fn spec_cap_type() -> CapabilityType {
        CapabilityType::IrqControl
    }

    open spec fn spec_create_cap_dep_val(addr: usize, user_size: usize) -> usize {
        0
    }

    open spec fn create_cap_dep_val_ok(addr: usize, user_size: usize) -> bool {
        true
    }

    open spec fn spec_object_size(user_size: usize) -> nat {
        0
    }

    open spec fn object_size_ok(user_size: usize) -> bool {
        true
    }

    open spec fn spec_object_align() -> usize {
        1
    }

    open spec fn spec_device_ok() -> bool {
        false
    }

    open spec fn spec_derivable() -> bool {
        false
    }

    fn cap_type() -> (r: CapabilityType) {
        CapabilityType::IrqControl
    }

    fn create_cap_dep_val(addr: usize, user_size: usize) -> (r: usize) {
        0
    }

    fn get_object_size(user_size: usize) -> (r: usize) {
        0
    }

    fn object_align() -> (r: usize) {
        1
    }

    fn check_object_size(user_size: usize) -> (r: bool) {
        true
    }

    fn can_be_retyped_from_device_memory() -> (r: bool) {
        false
    }

    fn derive(&self, src_slot: &CNodeEntry<Something>) -> (r: KernelResult<Self>) {
        Err(kerr(ErrKind::CanNotDerivable))
    }

    fn init_object(&mut self) {
    }
}

/// An interrupt-handler object occupies no memory.
impl Capability for CapabilityData<IrqHandler> {
    open spec fn spec_cap_type() -> CapabilityType {
        CapabilityType::IrqHandler
    }

    open spec fn spec_create_cap_dep_val(addr: usize, user_size: usize) -> usize {
        0
    }

    open spec fn create_cap_dep_val_ok(addr: usize, user_size: usize) -> bool {
        true
    }

    open spec fn spec_object_size(user_size: usize) -> nat {
        0
    }

    open spec fn object_size_ok(user_size: usize) -> bool {
        true
    }

    open spec fn spec_object_align() -> usize {
        1
    }

    open spec fn spec_device_ok() -> bool {
        false
    }

    open spec fn spec_derivable() -> bool {
        false
    }

    fn cap_type() -> (r: CapabilityType) {
        CapabilityType::IrqHandler
    }

    fn create_cap_dep_val(addr: usize, user_size: usize) -> (r: usize) {
        0
    }

    fn get_object_size(user_size: usize) -> (r: usize) {
        0
    }

    fn object_align() -> (r: usize) {
        1
    }

    fn check_object_size(user_size: usize) -> (r: bool) {
        true
    }

    fn can_be_retyped_from_device_memory() -> (r: bool) {
        false
    }

    fn derive(&self, src_slot: &CNodeEntry<Something>) -> (r: KernelResult<Self>) {
        Err(kerr(ErrKind::CanNotDerivable))
    }

    fn init_object(&mut self) {
    }
}

impl CapabilityData<IrqControl> {
    /// The interrupt-control capability; its address means nothing.
    pub fn create() -> (r: Self)
        ensures
            r.cap_type == CapabilityType::IrqControl.spec_code(),
            r.cap_right == 0,
            r.spec_address() == 0,
            r.cap_dep_val == 0,
    {
        Self::init(0, 0)
    }
}

/// The interrupt number an interrupt-handler capability holds: the low 12
/// bits of its kind-dependent value.
pub open spec fn spec_irq_number(cap: CapabilityData<IrqHandler>) -> u64 {
    cap.cap_dep_val & 0xfff
}

impl CapabilityData<IrqHandler> {
    /// The interrupt number this capability is for.
    pub fn get_irq_number(&self) -> (r: u64)
        ensures
            r == spec_irq_number(*self),
            r < 4096,
    {
        let v = self.cap_dep_val;
        assert(v & 0xfff < 4096) by (bit_vector);
        self.cap_dep_val & 0xfff
    }

    /// A capability for interrupt number `irq_number`: its kind-dependent
    /// value is the number's low 12 bits, and nothing else.
    pub fn create(irq_number: u64) -> (r: Self)
        ensures
            r.cap_type == CapabilityType::IrqHandler.spec_code(),
            r.cap_right == 0,
            r.spec_address() == 0,
            r.cap_dep_val == irq_number & 0xfff,
            spec_irq_number(r) == irq_number & 0xfff,
    {
        let mut ret = Self::init(0, 0);
        ret.cap_dep_val = irq_number & 0xfff;
        let v = irq_number;
        assert((v & 0xfff) & 0xfff == v & 0xfff) by (bit_vector);
        ret
    }
}

/// The interrupt number read back from a handler capability is the one it
/// was created for, reduced to 12 bits.
pub proof fn lemma_irq_number_roundtrip(irq_number: u64, cap: CapabilityData<IrqHandler>)
    requires
        cap.cap_dep_val == irq_number & 0xfff,
    ensures
        spec_irq_number(cap) == irq_number & 0xfff,
        irq_number < 4096 ==> spec_irq_number(cap) == irq_number,
{
    assert((irq_number & 0xfff) & 0xfff == irq_number & 0xfff) by (bit_vector);
    assert(irq_number < 4096 ==> irq_number & 0xfff == irq_number) by (bit_vector);
}

} // verus!
