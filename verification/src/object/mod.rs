//! The kernel objects that capabilities refer to.
pub mod cnode;
pub mod page_table;
pub mod tcb;

use vstd::prelude::*;

verus! {

/// An untyped memory region, from which other objects are carved.
#[derive(Debug, Clone, Copy)]
pub struct Untyped;

/// A synchronous message endpoint.
#[derive(Debug, Clone, Copy)]
pub struct Endpoint;

/// An asynchronous notification word.
#[derive(Debug, Clone, Copy)]
pub struct Notification;

} // verus!
