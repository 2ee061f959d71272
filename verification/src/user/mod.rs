//! The user-side library: system-call requests and the bookkeeping of the
//! capabilities a program holds.
pub mod syscall;
pub mod caps;
