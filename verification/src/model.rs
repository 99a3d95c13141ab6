//! The mathematical model of the controller: its state as sequences of
//! register words, the value each accessor reads, the state each mutator
//! produces, and the arbitration rule of the claim operation.

use vstd::prelude::*;
use crate::bits::{bit_is_set, lemma_clear_bit, lemma_set_bit, with_bit_cleared, with_bit_set};
use crate::consts::{BITMAP_WORDS, PLIC_MAX_IRQ};

verus! {

/// Whether `irq` names an interrupt source that has storage (0 included).
pub open spec fn irq_in_range(irq: int) -> bool {
    0 <= irq <= PLIC_MAX_IRQ
}

/// Whether `word` indexes a word of a pending or enable bitmap.
pub open spec fn word_in_range(word: int) -> bool {
    0 <= word < BITMAP_WORDS
}

/// The bit of source `irq` in a bitmap; false for a source without storage.
pub open spec fn bitmap_bit(words: Seq<u32>, irq: int) -> bool {
    irq_in_range(irq) && bit_is_set(words[irq / 32], (irq % 32) as u32)
}

/// The bitmap with the bit of source `irq` set to `on`; unchanged for a
/// source without storage.
pub open spec fn bitmap_with_bit(words: Seq<u32>, irq: int, on: bool) -> Seq<u32> {
    if irq_in_range(irq) {
        let word = words[irq / 32];
        let bit = (irq % 32) as u32;
        words.update(
            irq / 32,
            if on {
                with_bit_set(word, bit)
            } else {
                with_bit_cleared(word, bit)
            },
        )
    } else {
        words
    }
}

/// The registers of one context.
pub struct ContextView {
    /// Enable bitmap, 32 sources per word.
    pub enable: Seq<u32>,
    /// Priority a source must exceed to be claimed by this context.
    pub threshold: u32,
    /// Source currently claimed, 0 for none.
    pub claim: u32,
}

impl ContextView {
    pub open spec fn wf(self) -> bool {
        self.enable.len() == BITMAP_WORDS
    }

    /// A context with every source disabled, threshold 0 and nothing claimed.
    pub open spec fn reset() -> Self {
        ContextView { enable: Seq::new(BITMAP_WORDS as nat, |i: int| 0u32), threshold: 0, claim: 0 }
    }
}

/// The registers of the whole controller.
pub struct PlicView {
    /// Priority of each source, indexed by source id.
    pub prio: Seq<u32>,
    /// Pending bitmap, 32 sources per word.
    pub pending: Seq<u32>,
    /// The contexts, indexed by context id.
    pub contexts: Seq<ContextView>,
}

impl PlicView {
    pub open spec fn wf(self) -> bool {
        &&& self.prio.len() == PLIC_MAX_IRQ + 1
        &&& self.pending.len() == BITMAP_WORDS
        &&& forall|c: int| 0 <= c < self.contexts.len() ==> (#[trigger] self.contexts[c]).wf()
    }

    /// The state after construction with `contexts` contexts: all registers 0.
    pub open spec fn reset(contexts: nat) -> Self {
        PlicView {
            prio: Seq::new((PLIC_MAX_IRQ + 1) as nat, |i: int| 0u32),
            pending: Seq::new(BITMAP_WORDS as nat, |i: int| 0u32),
            contexts: Seq::new(contexts, |c: int| ContextView::reset()),
        }
    }

    pub open spec fn has_context(self, context: int) -> bool {
        0 <= context < self.contexts.len()
    }

    /// Priority of source `irq`; 0 for a source without storage.
    pub open spec fn priority(self, irq: int) -> u32 {
        if irq_in_range(irq) {
            self.prio[irq]
        } else {
            0
        }
    }

    /// Word `word` of the pending bitmap; 0 beyond the bitmap.
    pub open spec fn pending_word(self, word: int) -> u32 {
        if word_in_range(word) {
            self.pending[word]
        } else {
            0
        }
    }

    /// Whether source `irq` is pending.
    pub open spec fn is_pending(self, irq: int) -> bool {
        bitmap_bit(self.pending, irq)
    }

    /// Word `word` of the enable bitmap of `context`; 0 for an unknown
    /// context or beyond the bitmap.
    pub open spec fn enable_word(self, context: int, word: int) -> u32 {
        if self.has_context(context) && word_in_range(word) {
            self.contexts[context].enable[word]
        } else {
            0
        }
    }

    /// Whether source `irq` is enabled for `context`.
    pub open spec fn is_enabled(self, context: int, irq: int) -> bool {
        self.has_context(context) && bitmap_bit(self.contexts[context].enable, irq)
    }

    /// Threshold of `context`; 0 for an unknown context.
    pub open spec fn threshold(self, context: int) -> u32 {
        if self.has_context(context) {
            self.contexts[context].threshold
        } else {
            0
        }
    }

    /// Claim register of `context`; 0 for an unknown context.
    pub open spec fn claim(self, context: int) -> u32 {
        if self.has_context(context) {
            self.contexts[context].claim
        } else {
            0
        }
    }

    /// The state with the priority of `irq` set; unchanged for a source
    /// without storage.
    pub open spec fn with_priority(self, irq: int, prio: u32) -> Self {
        if irq_in_range(irq) {
            PlicView { prio: self.prio.update(irq, prio), ..self }
        } else {
            self
        }
    }

    /// The state with a whole pending word replaced; unchanged beyond the
    /// bitmap.
    pub open spec fn with_pending_word(self, word: int, val: u32) -> Self {
        if word_in_range(word) {
            PlicView { pending: self.pending.update(word, val), ..self }
        } else {
            self
        }
    }

    /// The state with the pending bit of `irq` set to `on`.
    pub open spec fn with_pending(self, irq: int, on: bool) -> Self {
        PlicView { pending: bitmap_with_bit(self.pending, irq, on), ..self }
    }

    /// The state with a whole enable word of `context` replaced; unchanged
    /// for an unknown context or beyond the bitmap.
    pub open spec fn with_enable_word(self, context: int, word: int, val: u32) -> Self {
        if self.has_context(context) && word_in_range(word) {
            let old_context = self.contexts[context];
            let new_context = ContextView {
                enable: old_context.enable.update(word, val),
                ..old_context
            };
            PlicView { contexts: self.contexts.update(context, new_context), ..self }
        } else {
            self
        }
    }

    /// The state with the threshold of `context` set; unchanged for an
    /// unknown context.
    pub open spec fn with_threshold(self, context: int, threshold: u32) -> Self {
        if self.has_context(context) {
            let new_context = ContextView { threshold, ..self.contexts[context] };
            PlicView { contexts: self.contexts.update(context, new_context), ..self }
        } else {
            self
        }
    }

    /// The state with the claim register of `context` set; unchanged for an
    /// unknown context.
    pub open spec fn with_claim(self, context: int, claim: u32) -> Self {
        if self.has_context(context) {
            let new_context = ContextView { claim, ..self.contexts[context] };
            PlicView { contexts: self.contexts.update(context, new_context), ..self }
        } else {
            self
        }
    }

    /// Whether `context` may claim source `irq`: the source is a real one,
    /// it is pending and enabled for the context, and its priority exceeds
    /// the threshold of the context. A source of priority 0 is never
    /// eligible.
    pub open spec fn eligible(self, context: int, irq: int) -> bool {
        &&& 1 <= irq <= PLIC_MAX_IRQ
        &&& self.is_pending(irq)
        &&& self.is_enabled(context, irq)
        &&& self.priority(irq) > self.threshold(context)
    }

    /// Whether `irq` is the source that a claim by `context` takes: it is
    /// eligible, no eligible source has a higher priority, and among the
    /// eligible sources of its priority it has the lowest id.
    pub open spec fn is_winner(self, context: int, irq: int) -> bool {
        &&& self.eligible(context, irq)
        &&& forall|other: int| #[trigger]
            self.eligible(context, other) ==> self.priority(other) < self.priority(irq) || (
            self.priority(other) == self.priority(irq) && irq <= other)
    }

    /// The source that a claim by `context` takes, if there is one.
    pub open spec fn winner(self, context: int) -> Option<int> {
        if exists|irq: int| self.is_winner(context, irq) {
            Some(choose|irq: int| self.is_winner(context, irq))
        } else {
            None
        }
    }

    /// The state after `context` has claimed source `irq`: the source is no
    /// longer pending and the claim register of the context holds its id.
    pub open spec fn claimed(self, context: int, irq: int) -> Self {
        self.with_pending(irq, false).with_claim(context, irq as u32)
    }

    /// The state after a claim by `context`: unchanged if no source is
    /// eligible.
    pub open spec fn after_claim(self, context: int) -> Self {
        match self.winner(context) {
            Some(irq) => self.claimed(context, irq),
            None => self,
        }
    }
}

/// Changing the bit of one source in a bitmap sets that bit and leaves the
/// bit of every other source as it was.
pub proof fn lemma_bitmap_with_bit(words: Seq<u32>, irq: int, on: bool, other: int)
    requires
        words.len() == BITMAP_WORDS,
        irq_in_range(irq),
    ensures
        bitmap_bit(bitmap_with_bit(words, irq, on), other) == if other == irq {
            on
        } else {
            bitmap_bit(words, other)
        },
{
    if irq_in_range(other) && other / 32 == irq / 32 {
        let word = words[irq / 32];
        let bit = (irq % 32) as u32;
        let other_bit = (other % 32) as u32;
        if on {
            lemma_set_bit(word, bit, other_bit);
        } else {
            lemma_clear_bit(word, bit, other_bit);
        }
    }
}

/// The state after construction is well formed and has the number of
/// contexts it was built for.
pub proof fn law_reset_wf(contexts: nat)
    ensures
        PlicView::reset(contexts).wf(),
        PlicView::reset(contexts).contexts.len() == contexts,
{
}

/// Every register operation takes a well-formed state to a well-formed
/// state with the same number of contexts.
pub proof fn law_wf_preserved(s: PlicView, context: int, irq: int, word: int, val: u32, on: bool)
    requires
        s.wf(),
    ensures
        s.with_priority(irq, val).wf(),
        s.with_pending_word(word, val).wf(),
        s.with_pending(irq, on).wf(),
        s.with_enable_word(context, word, val).wf(),
        s.with_threshold(context, val).wf(),
        s.with_claim(context, val).wf(),
        s.claimed(context, irq).wf(),
        s.after_claim(context).wf(),
        s.with_priority(irq, val).contexts.len() == s.contexts.len(),
        s.with_pending_word(word, val).contexts.len() == s.contexts.len(),
        s.with_pending(irq, on).contexts.len() == s.contexts.len(),
        s.with_enable_word(context, word, val).contexts.len() == s.contexts.len(),
        s.with_threshold(context, val).contexts.len() == s.contexts.len(),
        s.with_claim(context, val).contexts.len() == s.contexts.len(),
        s.claimed(context, irq).contexts.len() == s.contexts.len(),
        s.after_claim(context).contexts.len() == s.contexts.len(),
{
    let cleared = s.with_pending(irq, false);
    assert(cleared.wf());
    assert(cleared.with_claim(context, irq as u32).wf());
    match s.winner(context) {
        Some(winner) => {
            let cleared = s.with_pending(winner, false);
            assert(cleared.wf());
            assert(cleared.with_claim(context, winner as u32).wf());
        },
        None => {},
    }
}

/// A priority that was set is the priority that is read, for every source
/// with storage, and no other priority changes.
pub proof fn law_priority_round_trip(s: PlicView, irq: int, prio: u32, other: int)
    requires
        s.wf(),
        irq_in_range(irq),
    ensures
        s.with_priority(irq, prio).priority(irq) == prio,
        other != irq ==> s.with_priority(irq, prio).priority(other) == s.priority(other),
{
}

/// A source that was marked pending reads as pending, and reads as not
/// pending once its bit was cleared again; the pending bit of no other
/// source changes.
pub proof fn law_pending_set_then_clear(s: PlicView, irq: int, other: int)
    requires
        s.wf(),
        irq_in_range(irq),
    ensures
        s.with_pending(irq, true).is_pending(irq),
        !s.with_pending(irq, true).with_pending(irq, false).is_pending(irq),
        !s.with_pending(irq, false).is_pending(irq),
        other != irq ==> s.with_pending(irq, true).is_pending(other) == s.is_pending(other),
        other != irq ==> s.with_pending(irq, false).is_pending(other) == s.is_pending(other),
{
    lemma_bitmap_with_bit(s.pending, irq, true, irq);
    lemma_bitmap_with_bit(s.pending, irq, true, other);
    lemma_bitmap_with_bit(s.pending, irq, false, irq);
    lemma_bitmap_with_bit(s.pending, irq, false, other);
    lemma_bitmap_with_bit(s.with_pending(irq, true).pending, irq, false, irq);
}

/// A pending word that was written is the one that is read, and its bits
/// are the pending bits of its 32 sources.
pub proof fn law_pending_word_round_trip(s: PlicView, word: int, val: u32, irq: int)
    requires
        s.wf(),
        word_in_range(word),
    ensures
        s.with_pending_word(word, val).pending_word(word) == val,
        irq_in_range(irq) && irq / 32 == word ==> s.with_pending_word(word, val).is_pending(irq)
            == bit_is_set(val, (irq % 32) as u32),
        irq / 32 != word ==> s.with_pending_word(word, val).is_pending(irq) == s.is_pending(irq),
{
}

/// An enable word, a threshold or a claim register that was written is the
/// one that is read, for every context that exists; the bits of an enable
/// word are the enable bits of its 32 sources for that context.
pub proof fn law_context_round_trip(s: PlicView, context: int, word: int, val: u32, irq: int)
    requires
        s.wf(),
        s.has_context(context),
    ensures
        word_in_range(word) ==> s.with_enable_word(context, word, val).enable_word(context, word)
            == val,
        irq_in_range(irq) && irq / 32 == word ==> s.with_enable_word(context, word, val).is_enabled(
            context,
            irq,
        ) == bit_is_set(val, (irq % 32) as u32),
        s.with_threshold(context, val).threshold(context) == val,
        s.with_claim(context, val).claim(context) == val,
{
}

/// Writing a register of one context changes no register of another.
pub proof fn law_contexts_independent(
    s: PlicView,
    context: int,
    word: int,
    val: u32,
    other_context: int,
    irq: int,
)
    requires
        s.wf(),
        other_context != context,
    ensures
        s.with_enable_word(context, word, val).is_enabled(other_context, irq) == s.is_enabled(
            other_context,
            irq,
        ),
        s.with_enable_word(context, word, val).threshold(other_context) == s.threshold(
            other_context,
        ),
        s.with_enable_word(context, word, val).claim(other_context) == s.claim(other_context),
        s.with_threshold(context, val).is_enabled(other_context, irq) == s.is_enabled(
            other_context,
            irq,
        ),
        s.with_threshold(context, val).threshold(other_context) == s.threshold(other_context),
        s.with_threshold(context, val).claim(other_context) == s.claim(other_context),
        s.with_claim(context, val).is_enabled(other_context, irq) == s.is_enabled(
            other_context,
            irq,
        ),
        s.with_claim(context, val).threshold(other_context) == s.threshold(other_context),
        s.with_claim(context, val).claim(other_context) == s.claim(other_context),
{
}

/// A bulk access to the pending bitmap beyond its last word reads 0 and
/// writes nothing.
pub proof fn law_pending_word_out_of_range(s: PlicView, word: int, val: u32)
    requires
        !word_in_range(word),
    ensures
        s.pending_word(word) == 0,
        s.with_pending_word(word, val) == s,
{
}

/// A bulk access to an enable bitmap beyond its last word, or to that of a
/// context that does not exist, reads 0 and writes nothing.
pub proof fn law_enable_word_out_of_range(s: PlicView, context: int, word: int, val: u32)
    requires
        !s.has_context(context) || !word_in_range(word),
    ensures
        s.enable_word(context, word) == 0,
        s.with_enable_word(context, word, val) == s,
{
}

/// Every register of a context that does not exist reads 0, and a write
/// to it changes nothing.
pub proof fn law_unknown_context(s: PlicView, context: int, irq: int, val: u32)
    requires
        !s.has_context(context),
    ensures
        !s.is_enabled(context, irq),
        s.threshold(context) == 0,
        s.claim(context) == 0,
        s.with_threshold(context, val) == s,
        s.with_claim(context, val) == s,
        !s.eligible(context, irq),
        s.winner(context) is None,
        s.after_claim(context) == s,
{
    assert forall|i: int| !s.is_winner(context, i) by {}
}

/// A source without storage has priority 0 and is neither pending nor
/// enabled, and a write to it changes nothing.
pub proof fn law_unknown_source(s: PlicView, context: int, irq: int, prio: u32, on: bool)
    requires
        !irq_in_range(irq),
    ensures
        s.priority(irq) == 0,
        !s.is_pending(irq),
        !s.is_enabled(context, irq),
        s.with_priority(irq, prio) == s,
        s.with_pending(irq, on) == s,
{
}

/// A source cannot be claimed if its priority is 0, if it is not pending,
/// if it is not enabled for the context, or if its priority does not exceed
/// the threshold of the context. Source 0 cannot be claimed at all.
pub proof fn law_not_eligible(s: PlicView, context: int, irq: int)
    requires
        irq == 0 || s.priority(irq) == 0 || !s.is_pending(irq) || !s.is_enabled(context, irq)
            || s.priority(irq) <= s.threshold(context),
    ensures
        !s.eligible(context, irq),
        !s.is_winner(context, irq),
{
}

/// A claim takes nothing and changes nothing when every source has
/// priority 0, is not pending, is not enabled for the context, or has a
/// priority that does not exceed the threshold of the context.
pub proof fn law_claim_none(s: PlicView, context: int)
    requires
        forall|irq: int|
            1 <= irq <= PLIC_MAX_IRQ ==> s.priority(irq) == 0 || !s.is_pending(irq)
                || !#[trigger] s.is_enabled(context, irq) || s.priority(irq) <= s.threshold(
                context,
            ),
    ensures
        s.winner(context) is None,
        s.after_claim(context) == s,
{
    assert forall|irq: int| !s.is_winner(context, irq) by {
        if 1 <= irq <= PLIC_MAX_IRQ {
            assert(s.priority(irq) == 0 || !s.is_pending(irq) || !s.is_enabled(context, irq)
                || s.priority(irq) <= s.threshold(context));
        }
    }
}

/// Among the sources below `bound` that can be claimed, one is the best:
/// none has a higher priority and none of its priority has a lower id.
proof fn lemma_best_below(s: PlicView, context: int, bound: int) -> (best: int)
    requires
        exists|irq: int| 1 <= irq < bound && s.eligible(context, irq),
    ensures
        1 <= best < bound,
        s.eligible(context, best),
        forall|irq: int|
            1 <= irq < bound && #[trigger] s.eligible(context, irq) ==> s.priority(irq)
                < s.priority(best) || (s.priority(irq) == s.priority(best) && best <= irq),
    decreases bound,
{
    let last = bound - 1;
    if exists|irq: int| 1 <= irq < last && s.eligible(context, irq) {
        let before = lemma_best_below(s, context, last);
        if s.eligible(context, last) && s.priority(last) > s.priority(before) {
            last
        } else {
            before
        }
    } else {
        let witness = choose|irq: int| 1 <= irq < bound && s.eligible(context, irq);
        assert(witness == last);
        last
    }
}

/// At most one source is the winner of a claim.
pub proof fn law_winner_unique(s: PlicView, context: int, a: int, b: int)
    requires
        s.is_winner(context, a),
        s.is_winner(context, b),
    ensures
        a == b,
{
}

/// The winner of a claim is the source that `winner` names.
pub proof fn law_winner_is(s: PlicView, context: int, irq: int)
    requires
        s.is_winner(context, irq),
    ensures
        s.winner(context) == Some(irq),
{
    let chosen = choose|i: int| s.is_winner(context, i);
    law_winner_unique(s, context, chosen, irq);
}

/// A claim takes a source exactly when some source can be claimed, and
/// the source it takes is a real one.
pub proof fn law_claim_some(s: PlicView, context: int)
    ensures
        s.winner(context) is Some <==> exists|irq: int| s.eligible(context, irq),
        s.winner(context) matches Some(irq) ==> s.is_winner(context, irq) && 1 <= irq
            <= PLIC_MAX_IRQ,
{
    if exists|irq: int| s.eligible(context, irq) {
        let witness = choose|irq: int| s.eligible(context, irq);
        assert(1 <= witness < PLIC_MAX_IRQ + 1 && s.eligible(context, witness));
        let best = lemma_best_below(s, context, PLIC_MAX_IRQ + 1);
        assert(s.is_winner(context, best));
    }
}

/// The source that a claim takes has the highest priority of all sources
/// that can be claimed, and the lowest id of those with that priority.
pub proof fn law_winner_is_best(s: PlicView, context: int, irq: int, other: int)
    requires
        s.is_winner(context, irq),
        s.eligible(context, other),
    ensures
        s.priority(other) <= s.priority(irq),
        s.priority(other) == s.priority(irq) ==> irq <= other,
{
}

/// After a claim of source `irq` by `context`, the source is not pending,
/// the claim register of the context holds its id, and no context can claim
/// it again until it is marked pending anew. Nothing else changes: not the
/// pending bit of another source, nor a priority, an enable bit or a
/// threshold, nor the claim register of another context; so what else
/// could be claimed still can.
pub proof fn law_claim_effect(s: PlicView, context: int, irq: int, other_context: int, other: int)
    requires
        s.wf(),
        s.is_winner(context, irq),
    ensures
        s.winner(context) == Some(irq),
        s.after_claim(context) == s.claimed(context, irq),
        !s.claimed(context, irq).is_pending(irq),
        s.claimed(context, irq).claim(context) == irq,
        !s.claimed(context, irq).eligible(other_context, irq),
        other != irq ==> s.claimed(context, irq).is_pending(other) == s.is_pending(other),
        s.claimed(context, irq).priority(other) == s.priority(other),
        s.claimed(context, irq).is_enabled(other_context, other) == s.is_enabled(
            other_context,
            other,
        ),
        s.claimed(context, irq).threshold(other_context) == s.threshold(other_context),
        other_context != context ==> s.claimed(context, irq).claim(other_context) == s.claim(
            other_context,
        ),
        other != irq ==> s.claimed(context, irq).eligible(other_context, other) == s.eligible(
            other_context,
            other,
        ),
{
    law_winner_is(s, context, irq);
    lemma_bitmap_with_bit(s.pending, irq, false, irq);
    lemma_bitmap_with_bit(s.pending, irq, false, other);
}

/// Completing resets the claim register of the context to 0 and changes
/// nothing else.
pub proof fn law_complete_effect(s: PlicView, context: int, other_context: int, other: int)
    requires
        s.wf(),
    ensures
        s.with_claim(context, 0).claim(context) == 0,
        s.with_claim(context, 0).prio == s.prio,
        s.with_claim(context, 0).pending == s.pending,
        s.with_claim(context, 0).is_enabled(other_context, other) == s.is_enabled(
            other_context,
            other,
        ),
        s.with_claim(context, 0).threshold(other_context) == s.threshold(other_context),
        other_context != context ==> s.with_claim(context, 0).claim(other_context) == s.claim(
            other_context,
        ),
{
}

} // verus!
