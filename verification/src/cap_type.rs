//! Kinds of capabilities and their codes.
use vstd::prelude::*;
use crate::err_kind::ErrKind;

verus! {

/// The kind of object a capability grants access to. Architecture-specific
/// kinds (page tables and pages) have even codes, the others odd codes.
#[derive(Debug, Clone, Copy, PartialEq, Eq, Structural)]
pub enum CapabilityType {
    Untyped,
    Tcb,
    EndPoint,
    CNode,
    Notification,
    IrqControl,
    IrqHandler,
    PageTable,
    Page,
}

impl CapabilityType {
    /// The wire code of a capability type.
    pub open spec fn spec_code(self) -> u8 {
        match self {
            CapabilityType::Untyped => 1,
            CapabilityType::Tcb => 3,
            CapabilityType::EndPoint => 5,
            CapabilityType::CNode => 7,
            CapabilityType::Notification => 9,
            CapabilityType::IrqControl => 11,
            CapabilityType::IrqHandler => 13,
            CapabilityType::PageTable => 2,
            CapabilityType::Page => 4,
        }
    }

    /// Decoding of a wire code; a value that is no capability type's code is refused.
    pub open spec fn spec_from_code(v: u8) -> Result<CapabilityType, ErrKind> {
        if v == 1 { Ok(CapabilityType::Untyped) }
        else if v == 3 { Ok(CapabilityType::Tcb) }
        else if v == 5 { Ok(CapabilityType::EndPoint) }
        else if v == 7 { Ok(CapabilityType::CNode) }
        else if v == 9 { Ok(CapabilityType::Notification) }
        else if v == 11 { Ok(CapabilityType::IrqControl) }
        else if v == 13 { Ok(CapabilityType::IrqHandler) }
        else if v == 2 { Ok(CapabilityType::PageTable) }
        else if v == 4 { Ok(CapabilityType::Page) }
        else { Err(ErrKind::UnknownCapType) }
    }

    /// Returns the wire code of this capability type.
    pub fn code(self) -> (r: u8)
        ensures
            r == self.spec_code(),
    {
        match self {
            CapabilityType::Untyped => 1,
            CapabilityType::Tcb => 3,
            CapabilityType::EndPoint => 5,
            CapabilityType::CNode => 7,
            CapabilityType::Notification => 9,
            CapabilityType::IrqControl => 11,
            CapabilityType::IrqHandler => 13,
            CapabilityType::PageTable => 2,
            CapabilityType::Page => 4,
        }
    }

    /// Decodes a wire code.
    pub fn from_code(v: u8) -> (r: Result<CapabilityType, ErrKind>)
        ensures
            r == Self::spec_from_code(v),
    {
        if v == 1 { Ok(CapabilityType::Untyped) }
        else if v == 3 { Ok(CapabilityType::Tcb) }
        else if v == 5 { Ok(CapabilityType::EndPoint) }
        else if v == 7 { Ok(CapabilityType::CNode) }
        else if v == 9 { Ok(CapabilityType::Notification) }
        else if v == 11 { Ok(CapabilityType::IrqControl) }
        else if v == 13 { Ok(CapabilityType::IrqHandler) }
        else if v == 2 { Ok(CapabilityType::PageTable) }
        else if v == 4 { Ok(CapabilityType::Page) }
        else { Err(ErrKind::UnknownCapType) }
    }
}

impl TryFrom<u8> for CapabilityType {
    type Error = ErrKind;

    fn try_from(value: u8) -> (r: Result<Self, Self::Error>) {
        CapabilityType::from_code(value)
    }
}

impl vstd::std_specs::convert::TryFromSpecImpl<u8> for CapabilityType {
    open spec fn obeys_try_from_spec() -> bool {
        true
    }

    open spec fn try_from_spec(v: u8) -> Result<Self, Self::Error> {
        CapabilityType::spec_from_code(v)
    }
}

/// Decoding the code of a capability type gives back that capability type.
pub proof fn lemma_cap_type_code_roundtrip(k: CapabilityType)
    ensures
        CapabilityType::spec_from_code(k.spec_code()) == Ok::<CapabilityType, ErrKind>(k),
{
}

/// A value that decodes to some capability type is that capability type's code.
pub proof fn lemma_cap_type_decode_encode(v: u8)
    requires
        CapabilityType::spec_from_code(v) is Ok,
    ensures
        CapabilityType::spec_from_code(v)->Ok_0.spec_code() == v,
{
}


} // verus!
