//! A capability-based microkernel model: capability encodings, capability
//! spaces, page tables, thread control and scheduling decisions, the system
//! call decoder, and the user-side capability library.
pub mod err_kind;
pub mod cap_type;
pub mod inv_labels;
pub mod align;

pub mod capability;
pub mod arith;
pub mod object;
pub mod syscall;
pub mod scheduler;
pub mod irq;
pub mod user;
pub mod types;
pub mod root_server;
pub mod trap;
pub mod vm;
pub mod ready;
