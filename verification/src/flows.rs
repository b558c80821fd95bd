//! The decisions of the service's request handlers, as state machines: each
//! takes the outcome of the previous outside operation and answers with the
//! next operation to perform. The caller performs the operations.

pub mod common;
pub mod connect;
pub mod gate;
pub mod subscribe;
pub mod notify;
pub mod batch;
pub mod mark_read;
pub mod history;
pub mod send;
pub mod recap;
pub mod disconnect;
