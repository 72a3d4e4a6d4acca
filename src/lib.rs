//! A freestanding stack-unwinding engine: the x86-64 execution context and
//! its register adapter, the frame step driven by call-frame rules, the
//! two-phase search/cleanup protocol and the raise/catch runtime with its
//! double-fault policy.

pub mod arch;
pub mod frame;
pub mod unwind;
pub mod panic;
