//! Capacity parameters and the byte layout of the register file.

use vstd::prelude::*;

verus! {

/// Largest number of harts a controller can be built for.
pub const MAX_HARTS: usize = 8;

/// Highest interrupt source id. Source 0 is reserved.
pub const PLIC_MAX_IRQ: usize = 511;

/// Each hart has one machine-mode and one supervisor-mode context.
pub const CONTEXT_PER_HART: usize = 2;

/// Interrupt sources covered by one bitmap word.
pub const BITS_PER_WORD: usize = 32;

/// Words in a pending or enable bitmap: one bit for each of the sources
/// `0 ..= PLIC_MAX_IRQ`.
pub const BITMAP_WORDS: usize = (PLIC_MAX_IRQ + BITS_PER_WORD) / BITS_PER_WORD;

/// Bytes of enable bitmap reserved per context.
pub const CONTEXT_ENABLE_STRIDE: usize = 0x80;

/// Bytes of threshold/claim block reserved per context.
pub const CONTEXT_STRIDE: usize = 0x1000;

pub const PLIC_PRIO_BEGIN: usize = 0x0000;

pub const PLIC_PRIO_END: usize = 0x0FFF;

pub const PLIC_PENDING_BEGIN: usize = 0x1000;

pub const PLIC_PENDING_END: usize = 0x1FFF;

pub const PLIC_ENABLE_BEGIN: usize = 0x2000;

pub const PLIC_ENABLE_END: usize = 0x1f_ffff;

pub const PLIC_THRESHOLD_CLAIM_BEGIN: usize = 0x20_0000;

pub const PLIC_THRESHOLD_CLAIM_END: usize = 0x3f_ffff;

} // verus!
