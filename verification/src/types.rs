//! Records the kernel hands to the root server at boot, and the IPC buffer
//! a thread exchanges messages through.
use vstd::prelude::*;

verus! {

/// The number of words of an IPC buffer's message.
pub const MESSAGE_LEN: usize = 128;

/// A thread's IPC buffer: a tag, the message words, and a word for the
/// program's own use.
pub struct IPCBuffer {
    pub tag: usize,
    pub message: [usize; MESSAGE_LEN],
    pub user_data: usize,
}

/// One untyped region handed to the root server: its size, the slot
/// holding its capability, whether it is device memory, and its physical
/// address.
#[derive(Debug, Clone, Copy)]
pub struct UntypedInfo {
    pub bits: usize,
    pub idx: usize,
    pub is_device: bool,
    pub phys_addr: usize,
}

impl Default for UntypedInfo {
    /// All fields zero.
    fn default() -> (r: Self)
        ensures
            r == (UntypedInfo { bits: 0, idx: 0, is_device: false, phys_addr: 0 }),
    {
        UntypedInfo { bits: 0, idx: 0, is_device: false, phys_addr: 0 }
    }
}

/// What the root server is told at boot.
#[derive(Debug)]
pub struct BootInfo {
    pub ipc_buffer_addr: usize,
    pub root_cnode_idx: usize,
    pub root_vspace_idx: usize,
    pub untyped_num: usize,
    pub firtst_empty_idx: usize,
    pub msg: [u8; 32],
    pub untyped_infos: [UntypedInfo; 32],
}

impl Default for BootInfo {
    /// All fields zero: no message and no untyped region.
    fn default() -> (r: Self)
        ensures
            r.ipc_buffer_addr == 0,
            r.root_cnode_idx == 0,
            r.root_vspace_idx == 0,
            r.untyped_num == 0,
            r.firtst_empty_idx == 0,
            forall|i: int| 0 <= i < 32 ==> #[trigger] r.msg@[i] == 0,
            forall|i: int| 0 <= i < 32 ==> #[trigger] r.untyped_infos@[i] == (UntypedInfo { bits: 0, idx: 0, is_device: false, phys_addr: 0 }),
    {
        let empty = UntypedInfo { bits: 0, idx: 0, is_device: false, phys_addr: 0 };
        BootInfo {
            ipc_buffer_addr: 0,
            root_cnode_idx: 0,
            root_vspace_idx: 0,
            untyped_num: 0,
            firtst_empty_idx: 0,
            msg: [0u8; 32],
            untyped_infos: [empty; 32],
        }
    }
}

} // verus!
