//! Invocation labels carried by system calls.
use vstd::prelude::*;
use crate::err_kind::ErrKind;

verus! {

/// The operation a system call asks of a capability; the code of a label is
/// its position in this list, starting at 0.
#[derive(Debug, Clone, Copy, PartialEq, Eq, Structural)]
pub enum InvLabel {
    PutChar,
    CNodeTraverse,
    UntypedRetype,
    TcbConfigure,
    TcbWriteReg,
    TcbResume,
    TcbSetIpcBuffer,
    NotifyWait,
    NotifySend,
    CNodeCopy,
    CNodeMint,
    CNodeMove,
    PageMap,
    PageUnMap,
    PageTableMap,
    PageTableUnMap,
    PageTableMakeRoot,
    EpSend,
    EpRecv,
    IRQControl,
    IRQHandlerAck,
    IRQHandlerSet,
}

impl InvLabel {
    /// The wire code of a invocation label.
    pub open spec fn spec_code(self) -> usize {
        match self {
            InvLabel::PutChar => 0,
            InvLabel::CNodeTraverse => 1,
            InvLabel::UntypedRetype => 2,
            InvLabel::TcbConfigure => 3,
            InvLabel::TcbWriteReg => 4,
            InvLabel::TcbResume => 5,
            InvLabel::TcbSetIpcBuffer => 6,
            InvLabel::NotifyWait => 7,
            InvLabel::NotifySend => 8,
            InvLabel::CNodeCopy => 9,
            InvLabel::CNodeMint => 10,
            InvLabel::CNodeMove => 11,
            InvLabel::PageMap => 12,
            InvLabel::PageUnMap => 13,
            InvLabel::PageTableMap => 14,
            InvLabel::PageTableUnMap => 15,
            InvLabel::PageTableMakeRoot => 16,
            InvLabel::EpSend => 17,
            InvLabel::EpRecv => 18,
            InvLabel::IRQControl => 19,
            InvLabel::IRQHandlerAck => 20,
            InvLabel::IRQHandlerSet => 21,
        }
    }

    /// Decoding of a wire code; a value that is no invocation label's code is refused.
    pub open spec fn spec_from_code(v: usize) -> Result<InvLabel, ErrKind> {
        if v == 0 { Ok(InvLabel::PutChar) }
        else if v == 1 { Ok(InvLabel::CNodeTraverse) }
        else if v == 2 { Ok(InvLabel::UntypedRetype) }
        else if v == 3 { Ok(InvLabel::TcbConfigure) }
        else if v == 4 { Ok(InvLabel::TcbWriteReg) }
        else if v == 5 { Ok(InvLabel::TcbResume) }
        else if v == 6 { Ok(InvLabel::TcbSetIpcBuffer) }
        else if v == 7 { Ok(InvLabel::NotifyWait) }
        else if v == 8 { Ok(InvLabel::NotifySend) }
        else if v == 9 { Ok(InvLabel::CNodeCopy) }
        else if v == 10 { Ok(InvLabel::CNodeMint) }
        else if v == 11 { Ok(InvLabel::CNodeMove) }
        else if v == 12 { Ok(InvLabel::PageMap) }
        else if v == 13 { Ok(InvLabel::PageUnMap) }
        else if v == 14 { Ok(InvLabel::PageTableMap) }
        else if v == 15 { Ok(InvLabel::PageTableUnMap) }
        else if v == 16 { Ok(InvLabel::PageTableMakeRoot) }
        else if v == 17 { Ok(InvLabel::EpSend) }
        else if v == 18 { Ok(InvLabel::EpRecv) }
        else if v == 19 { Ok(InvLabel::IRQControl) }
        else if v == 20 { Ok(InvLabel::IRQHandlerAck) }
        else if v == 21 { Ok(InvLabel::IRQHandlerSet) }
        else { Err(ErrKind::UnknownInvocation) }
    }

    /// Returns the wire code of this invocation label.
    pub fn code(self) -> (r: usize)
        ensures
            r == self.spec_code(),
    {
        match self {
            InvLabel::PutChar => 0,
            InvLabel::CNodeTraverse => 1,
            InvLabel::UntypedRetype => 2,
            InvLabel::TcbConfigure => 3,
            InvLabel::TcbWriteReg => 4,
            InvLabel::TcbResume => 5,
            InvLabel::TcbSetIpcBuffer => 6,
            InvLabel::NotifyWait => 7,
            InvLabel::NotifySend => 8,
            InvLabel::CNodeCopy => 9,
            InvLabel::CNodeMint => 10,
            InvLabel::CNodeMove => 11,
            InvLabel::PageMap => 12,
            InvLabel::PageUnMap => 13,
            InvLabel::PageTableMap => 14,
            InvLabel::PageTableUnMap => 15,
            InvLabel::PageTableMakeRoot => 16,
            InvLabel::EpSend => 17,
            InvLabel::EpRecv => 18,
            InvLabel::IRQControl => 19,
            InvLabel::IRQHandlerAck => 20,
            InvLabel::IRQHandlerSet => 21,
        }
    }

    /// Decodes a wire code.
    pub fn from_code(v: usize) -> (r: Result<InvLabel, ErrKind>)
        ensures
            r == Self::spec_from_code(v),
    {
        if v == 0 { Ok(InvLabel::PutChar) }
        else if v == 1 { Ok(InvLabel::CNodeTraverse) }
        else if v == 2 { Ok(InvLabel::UntypedRetype) }
        else if v == 3 { Ok(InvLabel::TcbConfigure) }
        else if v == 4 { Ok(InvLabel::TcbWriteReg) }
        else if v == 5 { Ok(InvLabel::TcbResume) }
        else if v == 6 { Ok(InvLabel::TcbSetIpcBuffer) }
        else if v == 7 { Ok(InvLabel::NotifyWait) }
        else if v == 8 { Ok(InvLabel::NotifySend) }
        else if v == 9 { Ok(InvLabel::CNodeCopy) }
        else if v == 10 { Ok(InvLabel::CNodeMint) }
        else if v == 11 { Ok(InvLabel::CNodeMove) }
        else if v == 12 { Ok(InvLabel::PageMap) }
        else if v == 13 { Ok(InvLabel::PageUnMap) }
        else if v == 14 { Ok(InvLabel::PageTableMap) }
        else if v == 15 { Ok(InvLabel::PageTableUnMap) }
        else if v == 16 { Ok(InvLabel::PageTableMakeRoot) }
        else if v == 17 { Ok(InvLabel::EpSend) }
        else if v == 18 { Ok(InvLabel::EpRecv) }
        else if v == 19 { Ok(InvLabel::IRQControl) }
        else if v == 20 { Ok(InvLabel::IRQHandlerAck) }
        else if v == 21 { Ok(InvLabel::IRQHandlerSet) }
        else { Err(ErrKind::UnknownInvocation) }
    }
}

impl TryFrom<usize> for InvLabel {
    type Error = ErrKind;

    fn try_from(value: usize) -> (r: Result<Self, Self::Error>) {
        InvLabel::from_code(value)
    }
}

impl vstd::std_specs::convert::TryFromSpecImpl<usize> for InvLabel {
    open spec fn obeys_try_from_spec() -> bool {
        true
    }

    open spec fn try_from_spec(v: usize) -> Result<Self, Self::Error> {
        InvLabel::spec_from_code(v)
    }
}

/// Decoding the code of a invocation label gives back that invocation label.
pub proof fn lemma_inv_label_code_roundtrip(k: InvLabel)
    ensures
        InvLabel::spec_from_code(k.spec_code()) == Ok::<InvLabel, ErrKind>(k),
{
}

/// A value that decodes to some invocation label is that invocation label's code.
pub proof fn lemma_inv_label_decode_encode(v: usize)
    requires
        InvLabel::spec_from_code(v) is Ok,
    ensures
        InvLabel::spec_from_code(v)->Ok_0.spec_code() == v,
{
}


} // verus!
