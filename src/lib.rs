//! Kernel HTTP request-queue listener: the decisions behind sessions, requests and
//! overlapped receive operations, stated as verified state machines. The caller
//! performs each kernel call that a machine asks for and hands back what came of it.
pub mod callbacks;
pub mod codes;
pub mod event;
pub mod handle;
pub mod operation;
pub mod record;
pub mod request;
pub mod session;
