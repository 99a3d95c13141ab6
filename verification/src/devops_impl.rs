//! The memory-mapped front end: guest reads and writes turned into register
//! operations.
//!
//! Only accesses of width [`AccessWidth::Dword`] (four bytes) at an offset
//! that is a multiple of four are served. Any other access, and any offset
//! that addresses no register, reads 0 and writes nothing.

use vstd::prelude::*;
use crate::consts::{BITMAP_WORDS, PLIC_MAX_IRQ, PLIC_PRIO_BEGIN, PLIC_THRESHOLD_CLAIM_END};
use crate::lock::{guard_state, lock_acquire};
use crate::model::{irq_in_range, law_claim_some, word_in_range, PlicView};
use crate::regmap::{decode, decode_spec, Register};
use crate::vplic::{VPlic, VPlicInner};

verus! {

/// Width of a guest access.
#[derive(Clone, Copy, Debug, PartialEq, Eq, Structural)]
pub enum AccessWidth {
    /// One byte.
    Byte,
    /// Two bytes.
    Word,
    /// Four bytes: the width of every register of the controller.
    Dword,
    /// Eight bytes.
    Qword,
}

/// Whether an access of `width` at `offset` is served: it is four bytes
/// wide and word-aligned.
pub open spec fn is_served(offset: int, width: AccessWidth) -> bool {
    width == AccessWidth::Dword && offset % 4 == 0
}

/// The value that a read of `width` at `offset` returns in state `s`.
///
/// A read of the claim register returns the source that the claim takes, or
/// 0 if there is none.
pub open spec fn read_value(s: PlicView, offset: int, width: AccessWidth) -> int {
    if is_served(offset, width) {
        match decode_spec(offset) {
            Some(Register::Priority { irq }) => s.priority(irq as int) as int,
            Some(Register::Pending { word }) => s.pending_word(word as int) as int,
            Some(Register::Enable { context, word }) => s.enable_word(
                context as int,
                word as int,
            ) as int,
            Some(Register::Threshold { context }) => s.threshold(context as int) as int,
            Some(Register::Claim { context }) => match s.winner(context as int) {
                Some(irq) => irq,
                None => 0,
            },
            None => 0,
        }
    } else {
        0
    }
}

/// The state after a read of `width` at `offset` in state `s`: changed only
/// by a read of the claim register, which performs the claim.
pub open spec fn after_read(s: PlicView, offset: int, width: AccessWidth) -> PlicView {
    if is_served(offset, width) {
        match decode_spec(offset) {
            Some(Register::Claim { context }) => s.after_claim(context as int),
            _ => s,
        }
    } else {
        s
    }
}

/// The state after a write of `val` with `width` at `offset` in state `s`.
///
/// A register takes the low 32 bits of `val`. A write to the claim
/// register completes, whatever `val` is.
pub open spec fn after_write(s: PlicView, offset: int, width: AccessWidth, val: usize) -> PlicView {
    if is_served(offset, width) {
        match decode_spec(offset) {
            Some(Register::Priority { irq }) => s.with_priority(irq as int, val as u32),
            Some(Register::Pending { word }) => s.with_pending_word(word as int, val as u32),
            Some(Register::Enable { context, word }) => s.with_enable_word(
                context as int,
                word as int,
                val as u32,
            ),
            Some(Register::Threshold { context }) => s.with_threshold(context as int, val as u32),
            Some(Register::Claim { context }) => s.with_claim(context as int, 0),
            None => s,
        }
    } else {
        s
    }
}

/// Whether `offset` is the offset of a register of state `s` that keeps
/// what is written to it: the priority of a source with storage, a word of
/// the pending bitmap, or a word of the enable bitmap or the threshold of a
/// context that exists.
pub open spec fn stores_value(s: PlicView, offset: int) -> bool {
    offset % 4 == 0 && match decode_spec(offset) {
        Some(Register::Priority { irq }) => irq_in_range(irq as int),
        Some(Register::Pending { word }) => word_in_range(word as int),
        Some(Register::Enable { context, word }) => s.has_context(context as int) && word_in_range(
            word as int,
        ),
        Some(Register::Threshold { context }) => s.has_context(context as int),
        _ => false,
    }
}

/// Writing a priority, pending, enable or threshold register and reading it
/// back gives the low 32 bits of the value written, that is the value
/// itself when it fits a register; the read changes nothing.
pub proof fn law_register_round_trip(s: PlicView, offset: int, val: usize)
    requires
        s.wf(),
        stores_value(s, offset),
    ensures
        read_value(after_write(s, offset, AccessWidth::Dword, val), offset, AccessWidth::Dword)
            == val as u32,
        val <= u32::MAX ==> read_value(
            after_write(s, offset, AccessWidth::Dword, val),
            offset,
            AccessWidth::Dword,
        ) == val,
        after_read(after_write(s, offset, AccessWidth::Dword, val), offset, AccessWidth::Dword)
            == after_write(s, offset, AccessWidth::Dword, val),
{
}

/// A four-byte access at the offset of a register is served, and it is
/// the operation of that register: a read returns what its getter returns
/// (from the claim register, what the claim takes), and a write does what
/// its setter does with the low 32 bits of the value (to the claim
/// register, what completing does).
pub proof fn law_access_at_register_offset(s: PlicView, register: Register, val: usize)
    requires
        register.in_map(),
    ensures
        is_served(register.offset(), AccessWidth::Dword),
        decode_spec(register.offset()) == Some(register),
        read_value(s, register.offset(), AccessWidth::Dword) == match register {
            Register::Priority { irq } => s.priority(irq as int) as int,
            Register::Pending { word } => s.pending_word(word as int) as int,
            Register::Enable { context, word } => s.enable_word(context as int, word as int) as int,
            Register::Threshold { context } => s.threshold(context as int) as int,
            Register::Claim { context } => match s.winner(context as int) {
                Some(irq) => irq,
                None => 0,
            },
        },
        after_read(s, register.offset(), AccessWidth::Dword) == match register {
            Register::Claim { context } => s.after_claim(context as int),
            _ => s,
        },
        after_write(s, register.offset(), AccessWidth::Dword, val) == match register {
            Register::Priority { irq } => s.with_priority(irq as int, val as u32),
            Register::Pending { word } => s.with_pending_word(word as int, val as u32),
            Register::Enable { context, word } => s.with_enable_word(
                context as int,
                word as int,
                val as u32,
            ),
            Register::Threshold { context } => s.with_threshold(context as int, val as u32),
            Register::Claim { context } => s.with_claim(context as int, 0),
        },
{
}

/// A four-byte write to the priority register of a source with storage
/// sets that priority to the low 32 bits of the value and changes nothing
/// else.
pub proof fn law_write_priority(s: PlicView, irq: usize, val: usize, other: int)
    requires
        s.wf(),
        irq <= PLIC_MAX_IRQ,
    ensures
        ({
            let offset = (Register::Priority { irq }).offset();
            let after = after_write(s, offset, AccessWidth::Dword, val);
            &&& after.priority(irq as int) == val as u32
            &&& read_value(after, offset, AccessWidth::Dword) == val as u32
            &&& other != irq ==> after.priority(other) == s.priority(other)
            &&& after.pending == s.pending
            &&& after.contexts == s.contexts
        }),
{
}

/// A four-byte write to a word of the pending bitmap replaces that word by
/// the low 32 bits of the value and changes nothing else.
pub proof fn law_write_pending_word(s: PlicView, word: usize, val: usize, other: int)
    requires
        s.wf(),
        word < BITMAP_WORDS,
    ensures
        ({
            let offset = (Register::Pending { word }).offset();
            let after = after_write(s, offset, AccessWidth::Dword, val);
            &&& after.pending_word(word as int) == val as u32
            &&& read_value(after, offset, AccessWidth::Dword) == val as u32
            &&& other != word ==> after.pending_word(other) == s.pending_word(other)
            &&& after.prio == s.prio
            &&& after.contexts == s.contexts
        }),
{
}

/// A four-byte write to a word of the enable bitmap of a context that
/// exists replaces that word by the low 32 bits of the value and changes
/// nothing else: no other enable word of any context, no threshold, no
/// claim register, no priority and no pending bit.
pub proof fn law_write_enable_word(
    s: PlicView,
    context: usize,
    word: usize,
    val: usize,
    other_context: int,
    other_word: int,
)
    requires
        s.wf(),
        s.has_context(context as int),
        (Register::Enable { context, word }).in_map(),
        word < BITMAP_WORDS,
    ensures
        ({
            let offset = (Register::Enable { context, word }).offset();
            let after = after_write(s, offset, AccessWidth::Dword, val);
            &&& after.enable_word(context as int, word as int) == val as u32
            &&& read_value(after, offset, AccessWidth::Dword) == val as u32
            &&& other_context != context || other_word != word ==> after.enable_word(
                other_context,
                other_word,
            ) == s.enable_word(other_context, other_word)
            &&& after.threshold(other_context) == s.threshold(other_context)
            &&& after.claim(other_context) == s.claim(other_context)
            &&& after.prio == s.prio
            &&& after.pending == s.pending
            &&& after.contexts.len() == s.contexts.len()
        }),
{
}

/// A four-byte write to the threshold register of a context that exists
/// sets that threshold to the low 32 bits of the value and changes nothing
/// else: not the claim register of the context, no threshold of another
/// context, no enable word, no priority and no pending bit.
pub proof fn law_write_threshold(
    s: PlicView,
    context: usize,
    val: usize,
    other_context: int,
    other_word: int,
)
    requires
        s.wf(),
        s.has_context(context as int),
        (Register::Threshold { context }).in_map(),
    ensures
        ({
            let offset = (Register::Threshold { context }).offset();
            let after = after_write(s, offset, AccessWidth::Dword, val);
            &&& after.threshold(context as int) == val as u32
            &&& read_value(after, offset, AccessWidth::Dword) == val as u32
            &&& other_context != context ==> after.threshold(other_context) == s.threshold(
                other_context,
            )
            &&& after.claim(other_context) == s.claim(other_context)
            &&& after.enable_word(other_context, other_word) == s.enable_word(
                other_context,
                other_word,
            )
            &&& after.prio == s.prio
            &&& after.pending == s.pending
            &&& after.contexts.len() == s.contexts.len()
        }),
{
}

/// An access of any width but four bytes, or at an offset that is not a
/// multiple of four, reads 0 and changes nothing.
pub proof fn law_other_widths(s: PlicView, offset: int, width: AccessWidth, val: usize)
    requires
        width != AccessWidth::Dword || offset % 4 != 0,
    ensures
        read_value(s, offset, width) == 0,
        after_read(s, offset, width) == s,
        after_write(s, offset, width, val) == s,
{
}

/// An access to an offset that addresses no register reads 0 and changes
/// nothing.
pub proof fn law_no_register(s: PlicView, offset: int, width: AccessWidth, val: usize)
    requires
        decode_spec(offset) is None,
    ensures
        read_value(s, offset, width) == 0,
        after_read(s, offset, width) == s,
        after_write(s, offset, width, val) == s,
{
}

/// What a read returns fits a register, and what a read of the claim
/// register returns is 0 or the id of a source.
pub proof fn lemma_read_value_bound(s: PlicView, offset: int, width: AccessWidth)
    ensures
        0 <= read_value(s, offset, width) <= u32::MAX,
        decode_spec(offset) matches Some(Register::Claim { .. }) ==> read_value(s, offset, width)
            <= PLIC_MAX_IRQ,
{
    match decode_spec(offset) {
        Some(Register::Claim { context }) => {
            law_claim_some(s, context as int);
        },
        _ => {},
    }
}

impl VPlicInner {
    /// Serves a guest read of `width` at `offset` from the base of the
    /// controller. Only a four-byte read at a multiple of four is served;
    /// any other reads 0.
    ///
    /// Reading the claim register claims: see [`VPlicInner::claim_irq`].
    pub fn read(&mut self, offset: usize, width: AccessWidth) -> (val: usize)
        ensures
            val == read_value(old(self)@, offset as int, width),
            final(self)@ == after_read(old(self)@, offset as int, width),
            width != AccessWidth::Dword || offset % 4 != 0 ==> val == 0 && final(self)@ == old(
                self,
            )@,
            final(self)@.wf(),
    {
        proof {
            use_type_invariant(&*self);
            self.lemma_inv_wf();
        }
        if offset % 4 != 0 {
            return 0;
        }
        match width {
            AccessWidth::Dword => match decode(offset) {
                Some(Register::Priority { irq }) => self.get_prio(irq) as usize,
                Some(Register::Pending { word }) => self.get_pending_word(word) as usize,
                Some(Register::Enable { context, word }) => self.get_enable_word(
                    context,
                    word,
                ) as usize,
                Some(Register::Threshold { context }) => self.get_threshold(context) as usize,
                Some(Register::Claim { context }) => match self.claim_irq(context) {
                    Some(irq) => irq,
                    None => 0,
                },
                None => 0,
            },
            _ => 0,
        }
    }

    /// Serves a guest write of `val` with `width` at `offset` from the base
    /// of the controller. Only a four-byte write at a multiple of four is
    /// served; any other is dropped.
    ///
    /// Writing the claim register completes: see
    /// [`VPlicInner::complete_irq`].
    pub fn write(&mut self, offset: usize, width: AccessWidth, val: usize)
        ensures
            final(self)@ == after_write(old(self)@, offset as int, width, val),
            width != AccessWidth::Dword || offset % 4 != 0 ==> final(self)@ == old(self)@,
            final(self)@.wf(),
    {
        proof {
            use_type_invariant(&*self);
            self.lemma_inv_wf();
        }
        if offset % 4 != 0 {
            return ;
        }
        let low: u32 = #[verifier::truncate] (val as u32);
        match width {
            AccessWidth::Dword => match decode(offset) {
                Some(Register::Priority { irq }) => self.set_prio(irq, low),
                Some(Register::Pending { word }) => self.set_pending_word(word, low),
                Some(Register::Enable { context, word }) => self.set_enable_word(
                    context,
                    word,
                    low,
                ),
                Some(Register::Threshold { context }) => self.set_threshold(context, low),
                Some(Register::Claim { context }) => self.complete_irq(context, val),
                None => {},
            },
            _ => {},
        }
    }
}

impl VPlic {
    /// The offset from the base of the controller that the guest address
    /// `addr` has, if it is not below the base.
    pub open spec fn offset_of(self, addr: usize) -> Option<int> {
        if addr >= self.emulated_base_addr {
            Some(addr - self.emulated_base_addr)
        } else {
            None
        }
    }

    /// The range of guest addresses that the controller occupies: its base
    /// and its length in bytes.
    pub fn address_range(&self) -> (range: (usize, usize))
        ensures
            range.0 == self.emulated_base_addr,
            range.1 == PLIC_THRESHOLD_CLAIM_END - PLIC_PRIO_BEGIN,
    {
        (self.emulated_base_addr, PLIC_THRESHOLD_CLAIM_END - PLIC_PRIO_BEGIN)
    }

    /// Whether the controller holds `register`: a priority of a source with
    /// storage, a word of a bitmap, or a register of a context that the
    /// controller was built for.
    pub open spec fn holds(self, register: Register) -> bool {
        match register {
            Register::Priority { irq } => irq <= PLIC_MAX_IRQ,
            Register::Pending { word } => word < BITMAP_WORDS,
            Register::Enable { context, word } => self.has_context(context) && word
                < BITMAP_WORDS,
            Register::Threshold { context } => self.has_context(context),
            Register::Claim { context } => self.has_context(context),
        }
    }

    /// Tells whether the controller holds `register`.
    fn holds_register(&self, register: Register) -> (held: bool)
        ensures
            held == self.holds(register),
    {
        match register {
            Register::Priority { irq } => irq <= PLIC_MAX_IRQ,
            Register::Pending { word } => word < BITMAP_WORDS,
            Register::Enable { context, word } => context < self.max_contexts && word
                < BITMAP_WORDS,
            Register::Threshold { context } => context < self.max_contexts,
            Register::Claim { context } => context < self.max_contexts,
        }
    }

    /// Serves a guest read of `width` at the guest address `addr`: takes
    /// the lock and applies [`VPlicInner::read`] to the state.
    ///
    /// The result is 0 for any width but four bytes, for an address below
    /// the base, for an offset that is not a multiple of four or addresses
    /// no register, and for a register that the controller does not hold;
    /// none of these takes the lock. The result always fits a register, and
    /// from the claim register it is 0 or the id of a source.
    pub fn handle_read(&self, addr: usize, width: AccessWidth) -> (val: usize)
        ensures
            width != AccessWidth::Dword ==> val == 0,
            match self.offset_of(addr) {
                Some(offset) => offset % 4 != 0 ==> val == 0,
                None => true,
            },
            match self.offset_of(addr) {
                Some(offset) => match decode_spec(offset) {
                    Some(register) => {
                        &&& !self.holds(register) ==> val == 0
                        &&& val <= u32::MAX
                        &&& register is Claim ==> val <= PLIC_MAX_IRQ
                    },
                    None => val == 0,
                },
                None => val == 0,
            },
    {
        if addr < self.emulated_base_addr {
            return 0;
        }
        let offset = addr - self.emulated_base_addr;
        if offset % 4 != 0 {
            return 0;
        }
        match width {
            AccessWidth::Dword => {},
            _ => {
                return 0;
            },
        }
        match decode(offset) {
            Some(register) => {
                if !self.holds_register(register) {
                    return 0;
                }
            },
            None => {
                return 0;
            },
        }
        let mut guard = lock_acquire(&self.inner);
        let state = guard_state(&mut guard);
        proof {
            lemma_read_value_bound(state@, offset as int, width);
        }
        state.read(offset, width)
    }

    /// Serves a guest write of `val` with `width` at the guest address
    /// `addr`: takes the lock and applies [`VPlicInner::write`] to the
    /// state, which drops a write of another width than four bytes or at
    /// an offset that is not a multiple of four. A write below the base is
    /// dropped.
    pub fn handle_write(&self, addr: usize, width: AccessWidth, val: usize) {
        if addr < self.emulated_base_addr {
            return ;
        }
        let offset = addr - self.emulated_base_addr;
        let mut guard = lock_acquire(&self.inner);
        let state = guard_state(&mut guard);
        state.write(offset, width, val);
    }
}

} // verus!
