//! The in-memory encoding of a capability and the behaviour that each kind of
//! capability attaches to it.
//!
//! A capability is sixteen bytes: a type code, a rights byte, a 48-bit object
//! address split into a 16-bit top half and a 32-bit bottom half, and a 64-bit
//! kind-dependent value (a radix, an untyped region's free index, an irq
//! number, ...). The type parameter records, at compile time only, which kind
//! of object a capability has been checked to refer to.
pub mod cnode;
pub mod irq;
pub mod objects;
pub mod untyped;
pub mod traverse;

use vstd::prelude::*;
use core::marker::PhantomData;
use crate::cap_type::CapabilityType;
use crate::err_kind::{ErrKind, KernelError, KernelResult, kerr, spec_kerr};

verus! {

/// Marker for a capability whose kind has not been checked yet: what a slot holds.
#[derive(Debug, Clone, Copy)]
pub struct Something;

/// A capability to an object of kind `K`.
#[derive(Debug)]
pub struct CapabilityData<K> {
    pub cap_type: u8,
    pub cap_right: u8,
    pub address_top: u16,
    pub address_bottom: u32,
    pub cap_dep_val: u64,
    pub _obj_type: PhantomData<K>,
}

impl<K> Clone for CapabilityData<K> {
    fn clone(&self) -> (r: Self)
        ensures
            r == *self,
    {
        *self
    }
}

impl<K> Copy for CapabilityData<K> {}

/// A capability as it sits in a slot, of any kind.
pub type CapInSlot = CapabilityData<Something>;

/// The largest object address a capability can hold, plus one.
pub open spec fn address_limit() -> nat {
    0x1_0000_0000_0000
}

/// The object address a capability holds: the top half above the bottom half.
pub open spec fn spec_cap_address<K>(cap: CapabilityData<K>) -> usize {
    (((cap.address_top as u64) << 32u64) | (cap.address_bottom as u64)) as usize
}

/// The kind a capability's type code names, or the error for an unknown code.
pub open spec fn spec_cap_try_from_u8(val: u8) -> KernelResult<CapabilityType> {
    match CapabilityType::spec_from_code(val) {
        Ok(t) => Ok(t),
        Err(_) => Err(spec_kerr(ErrKind::UnknownCapType)),
    }
}

/// Decodes a capability type code.
pub fn cap_try_from_u8(val: u8) -> (r: KernelResult<CapabilityType>)
    ensures
        r == spec_cap_try_from_u8(val),
{
    match CapabilityType::from_code(val) {
        Ok(t) => Ok(t),
        Err(_) => Err(kerr(ErrKind::UnknownCapType)),
    }
}

/// The top 16 bits of a 48-bit object address.
pub open spec fn spec_addr_top(address: usize) -> u16 {
    (((address as u64) >> 32u64) & 0xffff) as u16
}

/// The bottom 32 bits of an object address.
pub open spec fn spec_addr_bottom(address: usize) -> u32 {
    ((address as u64) & 0xffff_ffff) as u32
}

/// The capability of the given kind, with no rights, the low 48 bits of
/// `address` as its object address, and the given kind-dependent value.
pub open spec fn spec_new_cap<K>(cap_type: CapabilityType, address: usize, cap_dep_val: u64) -> CapabilityData<K> {
    CapabilityData {
        cap_type: cap_type.spec_code(),
        cap_right: 0,
        address_top: spec_addr_top(address),
        address_bottom: spec_addr_bottom(address),
        cap_dep_val,
        _obj_type: PhantomData,
    }
}

/// Two capabilities hold the same sixteen bytes (their kind markers may differ).
pub open spec fn same_bits<K1, K2>(a: CapabilityData<K1>, b: CapabilityData<K2>) -> bool {
    &&& a.cap_type == b.cap_type
    &&& a.cap_right == b.cap_right
    &&& a.address_top == b.address_top
    &&& a.address_bottom == b.address_bottom
    &&& a.cap_dep_val == b.cap_dep_val
}

impl<K> CapabilityData<K> {
    /// The object address this capability holds.
    pub open spec fn spec_address(self) -> usize {
        spec_cap_address(self)
    }

    /// The kind named by this capability's type code.
    pub fn get_cap_type(&self) -> (r: KernelResult<CapabilityType>)
        ensures
            r == spec_cap_try_from_u8(self.cap_type),
    {
        cap_try_from_u8(self.cap_type)
    }

    /// A bit-for-bit copy of this capability.
    pub fn replicate(&self) -> (r: Self)
        ensures
            r == *self,
            same_bits(r, *self),
    {
        CapabilityData {
            cap_type: self.cap_type,
            cap_right: self.cap_right,
            address_top: self.address_top,
            address_bottom: self.address_bottom,
            cap_dep_val: self.cap_dep_val,
            _obj_type: PhantomData,
        }
    }

    /// Replaces the kind-dependent value.
    pub fn set_cap_dep_val(&mut self, val: usize)
        ensures
            *final(self) == spec_edit(*old(self), CapEdit::SetDepVal(val)),
            final(self).cap_dep_val == val as u64,
            final(self).cap_type == old(self).cap_type,
            final(self).cap_right == old(self).cap_right,
            final(self).address_top == old(self).address_top,
            final(self).address_bottom == old(self).address_bottom,
    {
        self.cap_dep_val = val as u64;
    }

    /// The object address this capability holds.
    pub fn get_address(&self) -> (r: usize)
        ensures
            r == self.spec_address(),
            r < address_limit(),
    {
        let top = self.address_top;
        let bottom = self.address_bottom;
        assert((((top as u64) << 32u64) | (bottom as u64)) < 0x1_0000_0000_0000u64)
            by (bit_vector);
        (((self.address_top as u64) << 32) | self.address_bottom as u64) as usize
    }

    /// Stores the low 48 bits of `address` as this capability's object address.
    pub fn set_address(&mut self, address: usize)
        ensures
            *final(self) == spec_edit(*old(self), CapEdit::SetAddress(address)),
            final(self).spec_address() == address as int % 0x1_0000_0000_0000int,
            final(self).address_top == spec_addr_top(address),
            final(self).address_bottom == spec_addr_bottom(address),
            final(self).cap_type == old(self).cap_type,
            final(self).cap_right == old(self).cap_right,
            final(self).cap_dep_val == old(self).cap_dep_val,
    {
        let a = address as u64;
        let address_top = ((a >> 32u64) & 0xffff) as u16;
        let address_bottom = (a & 0xffff_ffff) as u32;
        assert(((((((a >> 32u64) & 0xffffu64) as u16) as u64) << 32u64)
            | (((a & 0xffff_ffffu64) as u32) as u64))
            == a % 0x1_0000_0000_0000u64) by (bit_vector);
        self.address_top = address_top;
        self.address_bottom = address_bottom;
    }

    /// A capability of the given kind, with no rights, the given object address
    /// (its low 48 bits) and kind-dependent value.
    pub fn new(cap_type: CapabilityType, address: usize, cap_dep_val: u64) -> (r: Self)
        ensures
            r == spec_new_cap::<K>(cap_type, address, cap_dep_val),
            r.cap_type == cap_type.spec_code(),
            r.cap_type != 0,
            r.cap_right == 0,
            r.spec_address() == address as int % 0x1_0000_0000_0000int,
            r.cap_dep_val == cap_dep_val,
    {
        let mut ret = CapabilityData {
            cap_type: cap_type.code(),
            cap_right: 0,
            address_top: 0,
            address_bottom: 0,
            cap_dep_val,
            _obj_type: PhantomData,
        };
        ret.set_address(address);
        ret
    }

    /// The same sixteen bytes, seen as a capability of another kind.
    pub open spec fn spec_recast<NK>(self) -> CapabilityData<NK> {
        CapabilityData {
            cap_type: self.cap_type,
            cap_right: self.cap_right,
            address_top: self.address_top,
            address_bottom: self.address_bottom,
            cap_dep_val: self.cap_dep_val,
            _obj_type: PhantomData,
        }
    }

    /// The same sixteen bytes, seen as a capability of another kind.
    pub fn recast<NK>(&self) -> (r: CapabilityData<NK>)
        ensures
            r == self.spec_recast::<NK>(),
            same_bits(r, *self),
    {
        CapabilityData {
            cap_type: self.cap_type,
            cap_right: self.cap_right,
            address_top: self.address_top,
            address_bottom: self.address_bottom,
            cap_dep_val: self.cap_dep_val,
            _obj_type: PhantomData,
        }
    }
}

/// Reading back the address just stored gives its low 48 bits.
pub proof fn lemma_address_roundtrip<K>(cap: CapabilityData<K>, address: usize)
    requires
        address < address_limit(),
        spec_cap_address(cap) == address as int % 0x1_0000_0000_0000int,
    ensures
        spec_cap_address(cap) == address,
{
}

/// A fresh capability holds the low 48 bits of the address it was made with.
pub proof fn lemma_new_cap_address<K>(cap_type: CapabilityType, address: usize, cap_dep_val: u64)
    ensures
        spec_cap_address(spec_new_cap::<K>(cap_type, address, cap_dep_val)) == address as int % 0x1_0000_0000_0000int,
{
    let a = address as u64;
    assert(((((((a >> 32u64) & 0xffffu64) as u16) as u64) << 32u64)
        | (((a & 0xffff_ffffu64) as u32) as u64))
        == a % 0x1_0000_0000_0000u64) by (bit_vector);
    assert(((a % 0x1_0000_0000_0000u64) as usize) as int == address as int % 0x1_0000_0000_0000int) by {
        assert(usize::MAX == 0xffff_ffff || usize::MAX == 0xffff_ffff_ffff_ffff);
    }
}

/// A change made to a capability after it is made: a new object address
/// (see `set_address`), a new kind-dependent value (see `set_cap_dep_val`),
/// or a bit-for-bit copy (see `replicate`).
pub enum CapEdit {
    SetAddress(usize),
    SetDepVal(usize),
    Replicate,
}

/// The capability after one change.
pub open spec fn spec_edit<K>(cap: CapabilityData<K>, e: CapEdit) -> CapabilityData<K> {
    match e {
        CapEdit::SetAddress(a) => CapabilityData { address_top: spec_addr_top(a), address_bottom: spec_addr_bottom(a), ..cap },
        CapEdit::SetDepVal(v) => CapabilityData { cap_dep_val: v as u64, ..cap },
        CapEdit::Replicate => cap,
    }
}

/// The capability after a sequence of changes, in order.
pub open spec fn spec_edits<K>(cap: CapabilityData<K>, es: Seq<CapEdit>) -> CapabilityData<K>
    decreases es.len(),
{
    if es.len() == 0 {
        cap
    } else {
        spec_edit(spec_edits(cap, es.drop_last()), es.last())
    }
}

/// The kind a capability is made with survives every later change of its
/// address, its kind-dependent value, and copies: its type code still
/// decodes to that kind.
pub proof fn lemma_cap_type_survives<K>(t: CapabilityType, address: usize, cap_dep_val: u64, es: Seq<CapEdit>)
    ensures
        spec_edits(spec_new_cap::<K>(t, address, cap_dep_val), es).cap_type == t.spec_code(),
        spec_cap_try_from_u8(spec_edits(spec_new_cap::<K>(t, address, cap_dep_val), es).cap_type) == Ok::<CapabilityType, KernelError>(t),
    decreases es.len(),
{
    if es.len() > 0 {
        lemma_cap_type_survives::<K>(t, address, cap_dep_val, es.drop_last());
    }
    crate::cap_type::lemma_cap_type_code_roundtrip(t);
}

/// What each kind of capability decides for itself: its type code, how its
/// kind-dependent value is made, how large its object is, whether it may be
/// carved from device memory, and whether it may be copied into another slot.
pub trait Capability: Sized {
    /// The kind of this capability.
    spec fn spec_cap_type() -> CapabilityType;

    /// The kind-dependent value of a fresh capability to an object at `addr`
    /// made with `user_size`.
    spec fn spec_create_cap_dep_val(addr: usize, user_size: usize) -> usize;

    /// When `create_cap_dep_val` can be computed.
    spec fn create_cap_dep_val_ok(addr: usize, user_size: usize) -> bool;

    /// The size in bytes of the object made with `user_size`.
    spec fn spec_object_size(user_size: usize) -> nat;

    /// When the object size can be computed: it fits in a machine word.
    spec fn object_size_ok(user_size: usize) -> bool;

    /// The alignment in bytes that the object needs.
    spec fn spec_object_align() -> usize;

    /// Whether the object may be made from device memory.
    spec fn spec_device_ok() -> bool;

    /// Whether a capability of this kind may be copied into another slot.
    spec fn spec_derivable() -> bool;

    /// Returns the kind of this capability.
    fn cap_type() -> (r: CapabilityType)
        ensures
            r == Self::spec_cap_type(),
    ;

    /// Computes the kind-dependent value of a fresh capability.
    fn create_cap_dep_val(addr: usize, user_size: usize) -> (r: usize)
        requires
            Self::create_cap_dep_val_ok(addr, user_size),
        ensures
            r == Self::spec_create_cap_dep_val(addr, user_size),
    ;

    /// Computes the size in bytes of the object made with `user_size`.
    fn get_object_size(user_size: usize) -> (r: usize)
        requires
            Self::object_size_ok(user_size),
        ensures
            r == Self::spec_object_size(user_size),
    ;

    /// Returns the alignment that the object needs.
    fn object_align() -> (r: usize)
        ensures
            r == Self::spec_object_align(),
            r >= 1,
    ;

    /// Whether the object size can be computed.
    fn check_object_size(user_size: usize) -> (r: bool)
        ensures
            r == Self::object_size_ok(user_size),
    ;

    /// Whether the object may be made from device memory.
    fn can_be_retyped_from_device_memory() -> (r: bool)
        ensures
            r == Self::spec_device_ok(),
    ;

    /// The capability to store in another slot when this one is copied: the
    /// same capability where the kind allows copies, `CanNotDerivable` where
    /// it does not.
    fn derive(&self, src_slot: &crate::object::cnode::CNodeEntry<Something>) -> (r: KernelResult<Self>)
        ensures
            Self::spec_derivable() ==> (r is Ok && r->Ok_0 == *self),
            !Self::spec_derivable() ==> r == Err::<Self, KernelError>(spec_kerr(ErrKind::CanNotDerivable)),
    ;

    /// Prepares the object of a freshly made capability; no kind changes the
    /// capability itself.
    fn init_object(&mut self)
        ensures
            *final(self) == *old(self),
    ;
}

impl<K> CapabilityData<K> where CapabilityData<K>: Capability {
    /// A fresh capability of this kind to the object at `address`, with the
    /// kind-dependent value the kind makes from `user_size`.
    pub fn init(address: usize, user_size: usize) -> (r: Self)
        requires
            Self::create_cap_dep_val_ok(address, user_size),
        ensures
            r == spec_new_cap::<K>(Self::spec_cap_type(), address, Self::spec_create_cap_dep_val(address, user_size) as u64),
            r.cap_type == Self::spec_cap_type().spec_code(),
            r.cap_right == 0,
            r.spec_address() == address as int % 0x1_0000_0000_0000int,
            r.cap_dep_val == Self::spec_create_cap_dep_val(address, user_size) as u64,
    {
        let cap_type = Self::cap_type();
        let cap_dep_val = Self::create_cap_dep_val(address, user_size);
        Self::new(cap_type, address, cap_dep_val as u64)
    }
}

impl CapabilityData<Something> {
    /// This slot's capability seen as one of kind `NK`, when its type code
    /// names that kind; `UnexpectedCapType` when it names another kind, and
    /// `UnknownCapType` when it names none.
    pub fn try_ref_as<NK>(&self) -> (r: KernelResult<CapabilityData<NK>>)
        where CapabilityData<NK>: Capability
        ensures
            match spec_cap_try_from_u8(self.cap_type) {
                Err(e) => r == Err::<CapabilityData<NK>, KernelError>(e),
                Ok(t) => if t == CapabilityData::<NK>::spec_cap_type() {
                    r is Ok && r->Ok_0 == self.spec_recast::<NK>() && same_bits(r->Ok_0, *self)
                } else {
                    r == Err::<CapabilityData<NK>, KernelError>(spec_kerr(ErrKind::UnexpectedCapType))
                },
            },
    {
        let cap_type = self.get_cap_type()?;
        let want = CapabilityData::<NK>::cap_type();
        if want == cap_type {
            Ok(self.recast())
        } else {
            Err(kerr(ErrKind::UnexpectedCapType))
        }
    }
}

impl<K> From<CapabilityData<K>> for CapabilityData<Something> where CapabilityData<K>: Capability {
    fn from(value: CapabilityData<K>) -> (r: Self) {
        value.recast()
    }
}

impl<K> vstd::std_specs::convert::FromSpecImpl<CapabilityData<K>> for CapabilityData<Something> where CapabilityData<K>: Capability {
    open spec fn obeys_from_spec() -> bool {
        false
    }

    open spec fn from_spec(v: CapabilityData<K>) -> Self {
        CapabilityData {
            cap_type: v.cap_type,
            cap_right: v.cap_right,
            address_top: v.address_top,
            address_bottom: v.address_bottom,
            cap_dep_val: v.cap_dep_val,
            _obj_type: PhantomData,
        }
    }
}

} // verus!
