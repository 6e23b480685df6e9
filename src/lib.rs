//! Emulation of the Intel 8259A programmable interrupt controller and of the
//! master/slave pair found on legacy PC platforms.
//!
//! The chips never talk to the virtual CPU themselves: every operation that
//! would ask the host to inject or cancel interrupt vectors returns those
//! requests as a list of [`chip::HostRequest`] values, in the order in which
//! they must be carried out.

pub mod bits;
pub mod chip;
pub mod cascade;
pub mod laws;
