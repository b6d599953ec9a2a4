//! The untrusted-side core of an enclave runner: the state that the host keeps
//! for a running enclave and the decisions it takes when the enclave asks for
//! a service.

pub mod abi;
pub mod adapter;
pub mod channel;
pub mod enclave;
pub mod error;
pub mod events;
pub mod fd;
pub mod queues;
pub mod reasons;
pub mod stdin;
pub mod tcs;
pub mod usercalls;
pub mod work;
