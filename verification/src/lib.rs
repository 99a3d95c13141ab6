//! A virtual RISC-V Platform-Level Interrupt Controller.
//!
//! The controller is presented to a guest as a memory-mapped device. Guest
//! accesses are decoded into register operations over interrupt priorities,
//! pending bits, per-context enable masks, thresholds and the claim/complete
//! handshake.
//!
//! - [`model`] is the mathematical model: the state as sequences of
//!   register words, what each operation reads and produces, the arbitration
//!   rule, and the laws that follow.
//! - [`regmap`] decodes a byte offset into the register it addresses.
//! - [`vplic`] holds the state, [`vplic::VPlicInner`], with one verified
//!   method per operation, and the handle that a host shares,
//!   [`vplic::VPlic`], which keeps the state behind a spin lock.
//! - [`devops_impl`] is the memory-mapped front end of both.
//! - [`lock`] declares what is used of the spin lock.
//!
//! # Concurrency
//!
//! Every method of [`vplic::VPlic`] is one critical section. A claim scans
//! the sources and commits its choice without releasing the lock in
//! between, so claims are atomic: two contexts that claim at the same time
//! never take the same interrupt, and no priority changes in the middle of
//! a scan.

pub mod bits;
pub mod consts;
pub mod devops_impl;
pub mod lock;
pub mod model;
pub mod regmap;
pub mod vplic;
