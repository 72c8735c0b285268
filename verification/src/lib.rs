//! Indirect register addressing for a PI7C9XG404-class PCIe switch reached
//! over I2C.
//!
//! The switch exposes four logical 512-byte register banks ("ports") behind
//! an indirect addressing scheme: a read is performed by writing a 4-byte
//! command frame that names the port and the word-aligned byte offset, then
//! reading the 4-byte register value back in the same bus transaction.
//!
//! This crate holds the protocol logic: the pure encoder from a logical
//! (port, offset) pair to the exact command frame the chip expects
//! ([`frame`]), and the plan for sweeping a full bank and all four banks in
//! order, together with the policy for a write-phase fault inside a read
//! transaction ([`sweep`]). The raw bus transport, argument handling and
//! report formatting live outside this crate and consume plain values.

pub mod frame;
pub mod sweep;
