//! The register map: which register a byte offset from the base of the
//! controller addresses.
//!
//! | Region          | Offsets                 | Register                          |
//! |-----------------|-------------------------|-----------------------------------|
//! | priority        | `0x0000 ..= 0x0FFF`     | one word per source               |
//! | pending         | `0x1000 ..= 0x1FFF`     | one word per 32 sources           |
//! | enable          | `0x2000 ..= 0x1FFFFF`   | `0x80` bytes of words per context |
//! | threshold/claim | `0x200000 ..= 0x3FFFFF` | `0x1000` bytes per context        |

use vstd::prelude::*;
use crate::consts::{
    CONTEXT_ENABLE_STRIDE, CONTEXT_STRIDE, PLIC_ENABLE_BEGIN, PLIC_ENABLE_END,
    PLIC_PENDING_BEGIN, PLIC_PENDING_END, PLIC_PRIO_BEGIN, PLIC_PRIO_END,
    PLIC_THRESHOLD_CLAIM_BEGIN, PLIC_THRESHOLD_CLAIM_END,
};

verus! {

/// A register of the controller, as an offset addresses it. The indices are
/// those that the offset encodes; the controller may hold fewer sources,
/// words or contexts.
#[derive(Clone, Copy, Debug, PartialEq, Eq, Structural)]
pub enum Register {
    /// Priority of source `irq`.
    Priority { irq: usize },
    /// Word `word` of the pending bitmap.
    Pending { word: usize },
    /// Word `word` of the enable bitmap of `context`.
    Enable { context: usize, word: usize },
    /// Threshold of `context`.
    Threshold { context: usize },
    /// Claim/complete register of `context`.
    Claim { context: usize },
}

impl Register {
    /// The offset of the first byte of the register.
    pub open spec fn offset(self) -> int {
        match self {
            Register::Priority { irq } => PLIC_PRIO_BEGIN + 4 * irq,
            Register::Pending { word } => PLIC_PENDING_BEGIN + 4 * word,
            Register::Enable { context, word } => PLIC_ENABLE_BEGIN + CONTEXT_ENABLE_STRIDE
                * context + 4 * word,
            Register::Threshold { context } => PLIC_THRESHOLD_CLAIM_BEGIN + CONTEXT_STRIDE
                * context,
            Register::Claim { context } => PLIC_THRESHOLD_CLAIM_BEGIN + CONTEXT_STRIDE * context
                + 4,
        }
    }

    /// Whether the register map has room for the register.
    pub open spec fn in_map(self) -> bool {
        match self {
            Register::Priority { irq } => irq < 0x400,
            Register::Pending { word } => word < 0x400,
            Register::Enable { context, word } => context < 0x3fc0 && word < 0x20,
            Register::Threshold { context } => context < 0x200,
            Register::Claim { context } => context < 0x200,
        }
    }
}

/// The register that `offset` addresses, if any.
///
/// In the priority, pending and enable regions every offset addresses the
/// word that contains it. In the threshold/claim region only the first byte
/// of the threshold (local offset 0) and of the claim register (local offset
/// 4) address a register. Whether an access is served at all, by its width
/// and alignment, is for the front end to say.
pub open spec fn decode_spec(offset: int) -> Option<Register> {
    if PLIC_PRIO_BEGIN <= offset <= PLIC_PRIO_END {
        Some(Register::Priority { irq: (offset / 4) as usize })
    } else if PLIC_PENDING_BEGIN <= offset <= PLIC_PENDING_END {
        Some(Register::Pending { word: ((offset - PLIC_PENDING_BEGIN) / 4) as usize })
    } else if PLIC_ENABLE_BEGIN <= offset <= PLIC_ENABLE_END {
        let local = offset - PLIC_ENABLE_BEGIN;
        Some(
            Register::Enable {
                context: (local / (CONTEXT_ENABLE_STRIDE as int)) as usize,
                word: ((local % (CONTEXT_ENABLE_STRIDE as int)) / 4) as usize,
            },
        )
    } else if PLIC_THRESHOLD_CLAIM_BEGIN <= offset <= PLIC_THRESHOLD_CLAIM_END {
        let local = offset - PLIC_THRESHOLD_CLAIM_BEGIN;
        let context = (local / (CONTEXT_STRIDE as int)) as usize;
        if local % (CONTEXT_STRIDE as int) == 0 {
            Some(Register::Threshold { context })
        } else if local % (CONTEXT_STRIDE as int) == 4 {
            Some(Register::Claim { context })
        } else {
            None
        }
    } else {
        None
    }
}

/// Decodes a byte offset from the base of the controller.
#[allow(unused_comparisons)]
pub fn decode(offset: usize) -> (register: Option<Register>)
    ensures
        register == decode_spec(offset as int),
{
    if PLIC_PRIO_BEGIN <= offset && offset <= PLIC_PRIO_END {
        Some(Register::Priority { irq: offset / 4 })
    } else if PLIC_PENDING_BEGIN <= offset && offset <= PLIC_PENDING_END {
        Some(Register::Pending { word: (offset - PLIC_PENDING_BEGIN) / 4 })
    } else if PLIC_ENABLE_BEGIN <= offset && offset <= PLIC_ENABLE_END {
        let local = offset - PLIC_ENABLE_BEGIN;
        Some(
            Register::Enable {
                context: local / CONTEXT_ENABLE_STRIDE,
                word: (local % CONTEXT_ENABLE_STRIDE) / 4,
            },
        )
    } else if PLIC_THRESHOLD_CLAIM_BEGIN <= offset && offset <= PLIC_THRESHOLD_CLAIM_END {
        let local = offset - PLIC_THRESHOLD_CLAIM_BEGIN;
        let context = local / CONTEXT_STRIDE;
        match local % CONTEXT_STRIDE {
            0 => Some(Register::Threshold { context }),
            4 => Some(Register::Claim { context }),
            _ => None,
        }
    } else {
        None
    }
}

/// Every register that the map has room for is addressed by its own
/// offset.
pub proof fn law_decode_offset(register: Register)
    requires
        register.in_map(),
    ensures
        decode_spec(register.offset()) == Some(register),
{
}

/// Whatever register an offset addresses, the map has room for it, the
/// offset lies in the four bytes that start at the offset of the register,
/// and those four bytes lie in the address range of the controller.
pub proof fn law_decode_in_map(offset: int)
    ensures
        decode_spec(offset) matches Some(register) ==> {
            &&& register.in_map()
            &&& register.offset() <= offset < register.offset() + 4
            &&& register.offset() + 4 <= PLIC_THRESHOLD_CLAIM_END - PLIC_PRIO_BEGIN
        },
{
}

} // verus!
