//! Core building blocks for injecting a payload module into a foreign process
//! and intercepting virtual-method calls from inside it.
//!
//! The crate models the decision logic of each mechanism over plain values so
//! it can be verified: byte-pattern scanning over module memory, the
//! install/uninstall state machine of a vtable hook, the single-slot callback
//! registry that intercepted calls consult, the step-by-step remote injection
//! sequence, and the attach/detach lifecycle synchronization of the injected
//! payload. The operating-system calls that carry these decisions out live in
//! the surrounding unverified runner code.

pub mod callback;
pub mod d3d9_hook;
pub mod direct_d3d9;
pub mod entrypoint;
pub mod helpers;
pub mod hooks;
pub mod injection;
pub mod memory;
