//! Error kinds shared by the kernel and its user library, with their wire codes.
use vstd::prelude::*;

verus! {

/// Every way a kernel operation can fail. The wire code of a variant is its
/// position in this list, starting at 1.
#[derive(Debug, Clone, Copy, PartialEq, Eq, Structural)]
pub enum ErrKind {
    NoMemory,
    PteNotFound,
    OutOfMemory,
    InvalidUserAddress,
    UnknownCapType,
    UnexpectedCapType,
    CanNotNewFromDeviceMemory,
    NoEnoughSlot,
    NotEmptySlot,
    SlotIsEmpty,
    VaddressAlreadyMapped,
    PageTableAlreadyMapped,
    PageTableNotMappedYet,
    PageAlreadyMapped,
    PageNotMappedYet,
    UnknownInvocation,
    CanNotDerivable,
    InvalidOperation,
    CapNotFound,
    NotAligned,
    UnknownSysCall,
    NotRootPageTable,
    IRQInvalid,
    IRQAlreadyActive,
    UnknownIRQ,
}

impl ErrKind {
    /// The wire code of an error kind.
    pub open spec fn spec_code(self) -> usize {
        match self {
            ErrKind::NoMemory => 1,
            ErrKind::PteNotFound => 2,
            ErrKind::OutOfMemory => 3,
            ErrKind::InvalidUserAddress => 4,
            ErrKind::UnknownCapType => 5,
            ErrKind::UnexpectedCapType => 6,
            ErrKind::CanNotNewFromDeviceMemory => 7,
            ErrKind::NoEnoughSlot => 8,
            ErrKind::NotEmptySlot => 9,
            ErrKind::SlotIsEmpty => 10,
            ErrKind::VaddressAlreadyMapped => 11,
            ErrKind::PageTableAlreadyMapped => 12,
            ErrKind::PageTableNotMappedYet => 13,
            ErrKind::PageAlreadyMapped => 14,
            ErrKind::PageNotMappedYet => 15,
            ErrKind::UnknownInvocation => 16,
            ErrKind::CanNotDerivable => 17,
            ErrKind::InvalidOperation => 18,
            ErrKind::CapNotFound => 19,
            ErrKind::NotAligned => 20,
            ErrKind::UnknownSysCall => 21,
            ErrKind::NotRootPageTable => 22,
            ErrKind::IRQInvalid => 23,
            ErrKind::IRQAlreadyActive => 24,
            ErrKind::UnknownIRQ => 25,
        }
    }

    /// Decoding of a wire code: only the codes of the kinds up to `NotAligned`
    /// are recognised; every other value is refused.
    pub open spec fn spec_from_code(v: usize) -> Result<ErrKind, ()> {
        if v == 1 { Ok(ErrKind::NoMemory) }
        else if v == 2 { Ok(ErrKind::PteNotFound) }
        else if v == 3 { Ok(ErrKind::OutOfMemory) }
        else if v == 4 { Ok(ErrKind::InvalidUserAddress) }
        else if v == 5 { Ok(ErrKind::UnknownCapType) }
        else if v == 6 { Ok(ErrKind::UnexpectedCapType) }
        else if v == 7 { Ok(ErrKind::CanNotNewFromDeviceMemory) }
        else if v == 8 { Ok(ErrKind::NoEnoughSlot) }
        else if v == 9 { Ok(ErrKind::NotEmptySlot) }
        else if v == 10 { Ok(ErrKind::SlotIsEmpty) }
        else if v == 11 { Ok(ErrKind::VaddressAlreadyMapped) }
        else if v == 12 { Ok(ErrKind::PageTableAlreadyMapped) }
        else if v == 13 { Ok(ErrKind::PageTableNotMappedYet) }
        else if v == 14 { Ok(ErrKind::PageAlreadyMapped) }
        else if v == 15 { Ok(ErrKind::PageNotMappedYet) }
        else if v == 16 { Ok(ErrKind::UnknownInvocation) }
        else if v == 17 { Ok(ErrKind::CanNotDerivable) }
        else if v == 18 { Ok(ErrKind::InvalidOperation) }
        else if v == 19 { Ok(ErrKind::CapNotFound) }
        else if v == 20 { Ok(ErrKind::NotAligned) }
        else { Err(()) }
    }

    /// Returns the wire code of this error kind.
    pub fn code(self) -> (r: usize)
        ensures
            r == self.spec_code(),
            1 <= r <= 25,
    {
        match self {
            ErrKind::NoMemory => 1,
            ErrKind::PteNotFound => 2,
            ErrKind::OutOfMemory => 3,
            ErrKind::InvalidUserAddress => 4,
            ErrKind::UnknownCapType => 5,
            ErrKind::UnexpectedCapType => 6,
            ErrKind::CanNotNewFromDeviceMemory => 7,
            ErrKind::NoEnoughSlot => 8,
            ErrKind::NotEmptySlot => 9,
            ErrKind::SlotIsEmpty => 10,
            ErrKind::VaddressAlreadyMapped => 11,
            ErrKind::PageTableAlreadyMapped => 12,
            ErrKind::PageTableNotMappedYet => 13,
            ErrKind::PageAlreadyMapped => 14,
            ErrKind::PageNotMappedYet => 15,
            ErrKind::UnknownInvocation => 16,
            ErrKind::CanNotDerivable => 17,
            ErrKind::InvalidOperation => 18,
            ErrKind::CapNotFound => 19,
            ErrKind::NotAligned => 20,
            ErrKind::UnknownSysCall => 21,
            ErrKind::NotRootPageTable => 22,
            ErrKind::IRQInvalid => 23,
            ErrKind::IRQAlreadyActive => 24,
            ErrKind::UnknownIRQ => 25,
        }
    }

    /// Decodes a wire code; `Err(())` for a value that names no decodable kind.
    pub fn from_code(v: usize) -> (r: Result<ErrKind, ()>)
        ensures
            r == Self::spec_from_code(v),
    {
        if v == 1 { Ok(ErrKind::NoMemory) }
        else if v == 2 { Ok(ErrKind::PteNotFound) }
        else if v == 3 { Ok(ErrKind::OutOfMemory) }
        else if v == 4 { Ok(ErrKind::InvalidUserAddress) }
        else if v == 5 { Ok(ErrKind::UnknownCapType) }
        else if v == 6 { Ok(ErrKind::UnexpectedCapType) }
        else if v == 7 { Ok(ErrKind::CanNotNewFromDeviceMemory) }
        else if v == 8 { Ok(ErrKind::NoEnoughSlot) }
        else if v == 9 { Ok(ErrKind::NotEmptySlot) }
        else if v == 10 { Ok(ErrKind::SlotIsEmpty) }
        else if v == 11 { Ok(ErrKind::VaddressAlreadyMapped) }
        else if v == 12 { Ok(ErrKind::PageTableAlreadyMapped) }
        else if v == 13 { Ok(ErrKind::PageTableNotMappedYet) }
        else if v == 14 { Ok(ErrKind::PageAlreadyMapped) }
        else if v == 15 { Ok(ErrKind::PageNotMappedYet) }
        else if v == 16 { Ok(ErrKind::UnknownInvocation) }
        else if v == 17 { Ok(ErrKind::CanNotDerivable) }
        else if v == 18 { Ok(ErrKind::InvalidOperation) }
        else if v == 19 { Ok(ErrKind::CapNotFound) }
        else if v == 20 { Ok(ErrKind::NotAligned) }
        else { Err(()) }
    }
}

impl TryFrom<usize> for ErrKind {
    type Error = ();

    fn try_from(value: usize) -> (r: Result<Self, Self::Error>) {
        ErrKind::from_code(value)
    }
}

impl vstd::std_specs::convert::TryFromSpecImpl<usize> for ErrKind {
    open spec fn obeys_try_from_spec() -> bool {
        true
    }

    open spec fn try_from_spec(v: usize) -> Result<Self, Self::Error> {
        ErrKind::spec_from_code(v)
    }
}

/// Decoding a code gives back the kind that was encoded, for every kind
/// that has a decodable code (`NoMemory` up to `NotAligned`).
pub proof fn lemma_err_code_roundtrip(k: ErrKind)
    requires
        k.spec_code() <= 20,
    ensures
        ErrKind::spec_from_code(k.spec_code()) == Ok::<ErrKind, ()>(k),
{
}

/// Distinct error kinds have distinct codes.
pub proof fn lemma_err_code_injective(a: ErrKind, b: ErrKind)
    requires
        a.spec_code() == b.spec_code(),
    ensures
        a == b,
{
}

/// A kernel error: its kind and a small value that qualifies it (a page-table
/// level, a required alignment, or zero).
#[derive(Debug, Clone, Copy, PartialEq, Eq, Structural)]
pub struct KernelError {
    pub e_kind: ErrKind,
    pub e_val: u16,
}

pub type KernelResult<T> = Result<T, KernelError>;

/// The error of the given kind with value zero.
pub open spec fn spec_kerr(kind: ErrKind) -> KernelError {
    KernelError { e_kind: kind, e_val: 0 }
}

/// Builds the error of the given kind with value zero.
pub fn kerr(kind: ErrKind) -> (e: KernelError)
    ensures
        e == spec_kerr(kind),
{
    KernelError { e_kind: kind, e_val: 0 }
}

/// Builds the error of the given kind with the given value.
pub fn kerr_val(kind: ErrKind, val: u16) -> (e: KernelError)
    ensures
        e.e_kind == kind,
        e.e_val == val,
{
    KernelError { e_kind: kind, e_val: val }
}

} // verus!
