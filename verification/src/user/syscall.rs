//! System-call requests as a user program makes them, and the decoding of
//! the kernel's reply.
//!
//! A request names the invoked capability (a capability pointer and the
//! number of its bits to resolve), the invocation label, four arguments and
//! the system-call number; it is passed in registers `a0` to `a7`. Trapping
//! into the kernel is left to the caller.
use vstd::prelude::*;
use crate::cap_type::CapabilityType;
use crate::err_kind::ErrKind;
use crate::inv_labels::InvLabel;
use crate::syscall::{SysCallNo, hi32, spec_write_result};
use crate::err_kind::{KernelResult, lemma_err_code_roundtrip};
use crate::object::tcb::Registers;
use crate::types::{IPCBuffer, MESSAGE_LEN};
use vstd::string::StringSliceAdditionalSpecFns;

verus! {

/// A system call's error: its kind and value.
pub type SysCallFailed = (ErrKind, u16);
/// A system call's reply: the returned value, or the error.
pub type SysCallRes = Result<usize, SysCallFailed>;

/// A system-call request.
#[derive(Debug, Clone, Copy, PartialEq, Eq, Structural)]
pub struct SysCall {
    pub cap_ptr: usize,
    pub cap_depth: u32,
    pub inv_label: InvLabel,
    pub arg3: usize,
    pub arg4: usize,
    pub arg5: usize,
    pub arg6: usize,
    pub sysno: SysCallNo,
}

/// `hi` in the upper and `lo` in the lower 32 bits of a register.
pub open spec fn pack32(hi: u32, lo: u32) -> usize {
    (((hi as u64) << 32u64) | (lo as u64)) as usize
}

/// Puts `hi` in the upper and `lo` in the lower 32 bits of a register.
pub fn make_pack32(hi: u32, lo: u32) -> (r: usize)
    ensures
        r == pack32(hi, lo),
{
    (((hi as u64) << 32) | (lo as u64)) as usize
}

/// On a 64-bit machine, the kernel's decoding of a packed register gives
/// back both halves.
pub proof fn lemma_pack32_roundtrip(hi: u32, lo: u32)
    requires
        usize::BITS == 64,
    ensures
        hi32(pack32(hi, lo)) == hi as usize,
        pack32(hi, lo) as u32 == lo,
{
    assert(((((hi as u64) << 32u64) | (lo as u64)) >> 32u64) == hi as u64) by (bit_vector);
    assert(((((hi as u64) << 32u64) | (lo as u64)) as u32) == lo) by (bit_vector);
    assert((((((hi as u64) << 32u64) | (lo as u64)) as usize) as u64) == (((hi as u64) << 32u64) | (lo as u64)))
        by (bit_vector) requires usize::BITS == 64;
    assert(((((((hi as u64) << 32u64) | (lo as u64)) as usize) as u64) as u32) == ((((((hi as u64) << 32u64) | (lo as u64)) as usize)) as u32))
        by (bit_vector);
}

/// The reply in registers `a0` (zero for success, otherwise an error code)
/// and `a1` (the returned value, or the error's value): an error code that
/// names no decodable kind reads as `UnknownSysCall`.
pub open spec fn spec_decode_reply(a0: usize, a1: usize) -> SysCallRes {
    if a0 == 0 {
        Ok(a1)
    } else {
        match ErrKind::spec_from_code(a0) {
            Ok(k) => Err((k, a1 as u16)),
            Err(_) => Err((ErrKind::UnknownSysCall, a1 as u16)),
        }
    }
}

/// Decoding the reply the kernel writes gives back what the kernel
/// reported: the returned value (or, for a call that returns none, what
/// `a1` held), or the error's kind and value, for every kind with a
/// decodable code.
pub proof fn lemma_reply_roundtrip(reg: Registers, ret: KernelResult<Option<usize>>)
    requires
        ret matches Err(e) ==> e.e_kind.spec_code() <= 20,
    ensures
        ({
            let reg2 = spec_write_result(reg, ret);
            spec_decode_reply(reg2.a0, reg2.a1) == match ret {
                Ok(Some(v)) => Ok::<usize, SysCallFailed>(v),
                Ok(None) => Ok::<usize, SysCallFailed>(reg.a1),
                Err(e) => Err::<usize, SysCallFailed>((e.e_kind, e.e_val)),
            }
        }),
{
    match ret {
        Err(e) => {
            lemma_err_code_roundtrip(e.e_kind);
            assert((e.e_val as usize) as u16 == e.e_val);
        },
        _ => {},
    }
}

/// Decodes the kernel's reply (see [`spec_decode_reply`]).
pub fn decode_reply(a0: usize, a1: usize) -> (r: SysCallRes)
    ensures
        r == spec_decode_reply(a0, a1),
{
    if a0 == 0 {
        Ok(a1)
    } else {
        let e_kind = match ErrKind::from_code(a0) {
            Ok(k) => k,
            Err(_) => ErrKind::UnknownSysCall,
        };
        Err((e_kind, a1 as u16))
    }
}

/// A request of `label` on the capability at `cap_ptr` with the given
/// arguments.
pub open spec fn spec_call(cap_ptr: usize, cap_depth: u32, label: InvLabel, a3: usize, a4: usize, a5: usize, a6: usize, sysno: SysCallNo) -> SysCall {
    SysCall { cap_ptr, cap_depth, inv_label: label, arg3: a3, arg4: a4, arg5: a5, arg6: a6, sysno }
}

/// Prints one character.
pub fn put_char(char: u8) -> (r: SysCall)
    ensures
        r == spec_call(char as usize, 0, InvLabel::PutChar, 0, 0, 0, 0, SysCallNo::Print),
{
    SysCall { cap_ptr: char as usize, cap_depth: 0, inv_label: InvLabel::PutChar, arg3: 0, arg4: 0, arg5: 0, arg6: 0, sysno: SysCallNo::Print }
}

/// Prints the caller's capability tree.
pub fn traverse() -> (r: SysCall)
    ensures
        r == spec_call(0, 0, InvLabel::CNodeTraverse, 0, 0, 0, 0, SysCallNo::Print),
{
    SysCall { cap_ptr: 0, cap_depth: 0, inv_label: InvLabel::CNodeTraverse, arg3: 0, arg4: 0, arg5: 0, arg6: 0, sysno: SysCallNo::Print }
}

/// Retypes `num` objects of kind `cap_type`, made with `user_size`, from
/// the untyped capability at `cap_ptr` into the node at `dest_ptr`, from
/// slot `index` on.
pub fn untyped_retype(cap_ptr: usize, cap_depth: u32, dest_ptr: usize, dest_depth: u32, index: u32, user_size: u32, num: u32, cap_type: CapabilityType) -> (r: SysCall)
    ensures
        r == spec_call(cap_ptr, cap_depth, InvLabel::UntypedRetype, dest_ptr, pack32(index, dest_depth),
            pack32(user_size, num), cap_type.spec_code() as usize, SysCallNo::Call),
{
    let index_and_depth = make_pack32(index, dest_depth);
    let user_size_and_num = make_pack32(user_size, num);
    SysCall { cap_ptr, cap_depth, inv_label: InvLabel::UntypedRetype, arg3: dest_ptr, arg4: index_and_depth,
        arg5: user_size_and_num, arg6: cap_type.code() as usize, sysno: SysCallNo::Call }
}

/// The number of message words a thread's registers take.
pub const REGISTER_WORDS: usize = 34;

/// The registers as message words, in the order they are saved.
pub open spec fn spec_register_words(r: Registers) -> Seq<usize> {
    seq![r.ra, r.sp, r.gp, r.tp, r.t0, r.t1, r.t2, r.s0, r.s1, r.a0, r.a1, r.a2, r.a3, r.a4, r.a5, r.a6, r.a7, r.s2, r.s3, r.s4, r.s5, r.s6, r.s7, r.s8, r.s9, r.s10, r.s11, r.t3, r.t4, r.t5, r.t6, r.sepc, r.sstatus, r.scause]
}

/// Sets the registers of the thread at `cap_ptr` to `register`: they are
/// written as the first words of the caller's IPC buffer's message (see
/// [`spec_register_words`]), the rest of the buffer as it was, and the
/// request is made.
pub fn write_reg(cap_ptr: usize, cap_depth: u32, register: Registers, buffer: &mut IPCBuffer) -> (r: SysCall)
    ensures
        r == spec_call(cap_ptr, cap_depth, InvLabel::TcbWriteReg, 0, 0, 0, 0, SysCallNo::Call),
        final(buffer).tag == old(buffer).tag,
        final(buffer).user_data == old(buffer).user_data,
        final(buffer).message@ == spec_register_words(register) + old(buffer).message@.skip(REGISTER_WORDS as int),
{
    let words: [usize; 34] = [register.ra, register.sp, register.gp, register.tp, register.t0, register.t1, register.t2, register.s0, register.s1, register.a0, register.a1, register.a2, register.a3, register.a4, register.a5, register.a6, register.a7, register.s2, register.s3, register.s4, register.s5, register.s6, register.s7, register.s8, register.s9, register.s10, register.s11, register.t3, register.t4, register.t5, register.t6, register.sepc, register.sstatus, register.scause];
    let mut i: usize = 0;
    while i < REGISTER_WORDS
        invariant
            i <= REGISTER_WORDS,
            words@ == spec_register_words(register),
            buffer.tag == old(buffer).tag,
            buffer.user_data == old(buffer).user_data,
            buffer.message@.len() == MESSAGE_LEN,
            forall|j: int| 0 <= j < i ==> #[trigger] buffer.message@[j] == words@[j],
            forall|j: int| i <= j < MESSAGE_LEN ==> #[trigger] buffer.message@[j] == old(buffer).message@[j],
        decreases REGISTER_WORDS - i,
    {
        buffer.message[i] = words[i];
        i = i + 1;
    }
    assert(buffer.message@ =~= spec_register_words(register) + old(buffer).message@.skip(REGISTER_WORDS as int));
    SysCall { cap_ptr, cap_depth, inv_label: InvLabel::TcbWriteReg, arg3: 0, arg4: 0, arg5: 0, arg6: 0, sysno: SysCallNo::Call }
}

/// Sets the IPC buffer of the thread at `cap_ptr` to the page at `page_cap_ptr`.
pub fn set_ipc_buffer(cap_ptr: usize, cap_depth: u32, page_cap_ptr: usize, page_depth: u32) -> (r: SysCall)
    ensures
        r == spec_call(cap_ptr, cap_depth, InvLabel::TcbSetIpcBuffer, page_cap_ptr, page_depth as usize, 0, 0, SysCallNo::Call),
{
    SysCall { cap_ptr, cap_depth, inv_label: InvLabel::TcbSetIpcBuffer, arg3: page_cap_ptr, arg4: page_depth as usize, arg5: 0, arg6: 0, sysno: SysCallNo::Call }
}

/// Gives the thread at `cap_ptr` a capability space and an address space.
pub fn configure_tcb(cap_ptr: usize, cap_depth: u32, cnode_ptr: usize, cnode_depth: u32, vspace_ptr: usize, vspace_depth: u32) -> (r: SysCall)
    ensures
        r == spec_call(cap_ptr, cap_depth, InvLabel::TcbConfigure, cnode_ptr, cnode_depth as usize, vspace_ptr, vspace_depth as usize, SysCallNo::Call),
{
    SysCall { cap_ptr, cap_depth, inv_label: InvLabel::TcbConfigure, arg3: cnode_ptr, arg4: cnode_depth as usize,
        arg5: vspace_ptr, arg6: vspace_depth as usize, sysno: SysCallNo::Call }
}

/// Makes the thread at `cap_ptr` runnable.
pub fn resume_tcb(cap_ptr: usize, cap_depth: u32) -> (r: SysCall)
    ensures
        r == spec_call(cap_ptr, cap_depth, InvLabel::TcbResume, 0, 0, 0, 0, SysCallNo::Call),
{
    SysCall { cap_ptr, cap_depth, inv_label: InvLabel::TcbResume, arg3: 0, arg4: 0, arg5: 0, arg6: 0, sysno: SysCallNo::Call }
}

/// Signals the notification at `cap_ptr`.
pub fn send_signal(cap_ptr: usize, cap_depth: u32) -> (r: SysCall)
    ensures
        r == spec_call(cap_ptr, cap_depth, InvLabel::NotifySend, 0, 0, 0, 0, SysCallNo::Send),
{
    SysCall { cap_ptr, cap_depth, inv_label: InvLabel::NotifySend, arg3: 0, arg4: 0, arg5: 0, arg6: 0, sysno: SysCallNo::Send }
}

/// Waits on the notification at `cap_ptr`.
pub fn recv_signal(cap_ptr: usize, cap_depth: u32) -> (r: SysCall)
    ensures
        r == spec_call(cap_ptr, cap_depth, InvLabel::NotifyWait, 0, 0, 0, 0, SysCallNo::Recv),
{
    SysCall { cap_ptr, cap_depth, inv_label: InvLabel::NotifyWait, arg3: 0, arg4: 0, arg5: 0, arg6: 0, sysno: SysCallNo::Recv }
}

/// Copies the capability at `src_index` into slot `dest_index` of the node
/// at `cap_ptr`.
pub fn cnode_copy(cap_ptr: usize, cap_depth: u32, dest_index: usize, dest_depth: u32, src_index: usize, src_depth: u32) -> (r: SysCall)
    ensures
        r == spec_call(cap_ptr, cap_depth, InvLabel::CNodeCopy, src_index, pack32(src_depth, dest_depth), dest_index, 0, SysCallNo::Call),
{
    let depth = make_pack32(src_depth, dest_depth);
    SysCall { cap_ptr, cap_depth, inv_label: InvLabel::CNodeCopy, arg3: src_index, arg4: depth, arg5: dest_index, arg6: 0, sysno: SysCallNo::Call }
}

/// Copies the capability at `src_index` into slot `dest_index` of the node
/// at `cap_ptr`, with kind-dependent value `cap_val`.
pub fn cnode_mint(cap_ptr: usize, cap_depth: u32, dest_index: usize, dest_depth: u32, src_index: usize, src_depth: u32, cap_val: usize) -> (r: SysCall)
    ensures
        r == spec_call(cap_ptr, cap_depth, InvLabel::CNodeMint, src_index, pack32(src_depth, dest_depth), dest_index, cap_val, SysCallNo::Call),
{
    let depth = make_pack32(src_depth, dest_depth);
    SysCall { cap_ptr, cap_depth, inv_label: InvLabel::CNodeMint, arg3: src_index, arg4: depth, arg5: dest_index, arg6: cap_val, sysno: SysCallNo::Call }
}

/// Moves the capability at `src_index` into slot `dest_index` of the node
/// at `cap_ptr`.
pub fn cnode_move(cap_ptr: usize, cap_depth: u32, dest_depth: u32, dest_index: usize, src_index: usize, src_depth: u32) -> (r: SysCall)
    ensures
        r == spec_call(cap_ptr, cap_depth, InvLabel::CNodeMove, src_index, pack32(src_depth, dest_depth), dest_index, 0, SysCallNo::Call),
{
    let depth = make_pack32(src_depth, dest_depth);
    SysCall { cap_ptr, cap_depth, inv_label: InvLabel::CNodeMove, arg3: src_index, arg4: depth, arg5: dest_index, arg6: 0, sysno: SysCallNo::Call }
}

/// Maps the page at `cap_ptr` at `vaddr` in the address space rooted at
/// `dest_ptr`, with the user permissions `flags`.
pub fn map_page(cap_ptr: usize, cap_depth: u32, dest_ptr: usize, dest_depth: u32, vaddr: usize, flags: usize) -> (r: SysCall)
    ensures
        r == spec_call(cap_ptr, cap_depth, InvLabel::PageMap, dest_ptr, dest_depth as usize, vaddr, flags, SysCallNo::Call),
{
    SysCall { cap_ptr, cap_depth, inv_label: InvLabel::PageMap, arg3: dest_ptr, arg4: dest_depth as usize, arg5: vaddr, arg6: flags, sysno: SysCallNo::Call }
}

/// Unmaps the page at `cap_ptr` from the address space rooted at `dest_ptr`.
pub fn unmap_page(cap_ptr: usize, cap_depth: u32, dest_ptr: usize, dest_depth: u32) -> (r: SysCall)
    ensures
        r == spec_call(cap_ptr, cap_depth, InvLabel::PageUnMap, dest_ptr, dest_depth as usize, 0, 0, SysCallNo::Call),
{
    SysCall { cap_ptr, cap_depth, inv_label: InvLabel::PageUnMap, arg3: dest_ptr, arg4: dest_depth as usize, arg5: 0, arg6: 0, sysno: SysCallNo::Call }
}

/// Links the page table at `cap_ptr` for `vaddr` into the address space
/// rooted at `dest_ptr`.
pub fn map_page_table(cap_ptr: usize, cap_depth: u32, dest_ptr: usize, dest_depth: u32, vaddr: usize) -> (r: SysCall)
    ensures
        r == spec_call(cap_ptr, cap_depth, InvLabel::PageTableMap, dest_ptr, dest_depth as usize, vaddr, 0, SysCallNo::Call),
{
    SysCall { cap_ptr, cap_depth, inv_label: InvLabel::PageTableMap, arg3: dest_ptr, arg4: dest_depth as usize, arg5: vaddr, arg6: 0, sysno: SysCallNo::Call }
}

/// Makes the page table at `cap_ptr` the root of an address space.
pub fn make_page_table_root(cap_ptr: usize, cap_depth: u32) -> (r: SysCall)
    ensures
        r == spec_call(cap_ptr, cap_depth, InvLabel::PageTableMakeRoot, 0, 0, 0, 0, SysCallNo::Call),
{
    SysCall { cap_ptr, cap_depth, inv_label: InvLabel::PageTableMakeRoot, arg3: 0, arg4: 0, arg5: 0, arg6: 0, sysno: SysCallNo::Call }
}

/// Sends on the endpoint at `cap_ptr`.
pub fn send_ipc(cap_ptr: usize, cap_depth: u32) -> (r: SysCall)
    ensures
        r == spec_call(cap_ptr, cap_depth, InvLabel::EpSend, 0, 0, 0, 0, SysCallNo::Send),
{
    SysCall { cap_ptr, cap_depth, inv_label: InvLabel::EpSend, arg3: 0, arg4: 0, arg5: 0, arg6: 0, sysno: SysCallNo::Send }
}

/// Receives on the endpoint at `cap_ptr`.
pub fn recv_ipc(cap_ptr: usize, cap_depth: u32) -> (r: SysCall)
    ensures
        r == spec_call(cap_ptr, cap_depth, InvLabel::EpRecv, 0, 0, 0, 0, SysCallNo::Recv),
{
    SysCall { cap_ptr, cap_depth, inv_label: InvLabel::EpRecv, arg3: 0, arg4: 0, arg5: 0, arg6: 0, sysno: SysCallNo::Recv }
}


/// Writes text to the console a byte at a time, each byte by a print call.
pub struct SyscallWriter;

impl SyscallWriter {
    /// The print calls that write `s`: one per byte of its encoding, in
    /// order. Writing stops at the first call that fails.
    pub fn write_str(&mut self, s: &str) -> (r: Vec<SysCall>)
        ensures
            r@.len() == s.spec_bytes().len(),
            forall|i: int| 0 <= i < r@.len() ==> #[trigger] r@[i]
                == spec_call(s.spec_bytes()[i] as usize, 0, InvLabel::PutChar, 0, 0, 0, 0, SysCallNo::Print),
    {
        let bytes = s.as_bytes();
        let mut calls: Vec<SysCall> = Vec::new();
        let mut i: usize = 0;
        while i < bytes.len()
            invariant
                i <= bytes@.len(),
                bytes@ == s.spec_bytes(),
                calls@.len() == i,
                forall|j: int| 0 <= j < i ==> #[trigger] calls@[j]
                    == spec_call(bytes@[j] as usize, 0, InvLabel::PutChar, 0, 0, 0, 0, SysCallNo::Print),
            decreases bytes@.len() - i,
        {
            calls.push(put_char(bytes[i]));
            i = i + 1;
        }
        calls
    }
}

} // verus!
