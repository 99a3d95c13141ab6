//! The interrupt state store and the arbitration engine.
//!
//! [`VPlicInner`] is the controller state with one method per register
//! operation; every method is specified against [`PlicView`].

use vstd::prelude::*;
use crate::consts::{BITMAP_WORDS, BITS_PER_WORD, CONTEXT_PER_HART, MAX_HARTS, PLIC_MAX_IRQ};
use crate::lock::{guard_state, lock_acquire, lock_new};
use crate::model::{law_claim_effect, ContextView, PlicView};

verus! {

/// A vector of `len` zero words.
fn zeroed_words(len: usize) -> (words: Vec<u32>)
    ensures
        words@ == Seq::new(len as nat, |i: int| 0u32),
{
    let mut words: Vec<u32> = Vec::new();
    let mut filled: usize = 0;
    while filled < len
        invariant
            filled <= len,
            words@ == Seq::new(filled as nat, |i: int| 0u32),
        decreases len - filled,
    {
        words.push(0);
        filled += 1;
    }
    words
}

/// The registers of one context: a (hart, privilege mode) pair that can
/// claim interrupts.
pub struct Context {
    enable: Vec<u32>,
    threshold: u32,
    claim: u32,
}

impl View for Context {
    type V = ContextView;

    closed spec fn view(&self) -> ContextView {
        ContextView { enable: self.enable@, threshold: self.threshold, claim: self.claim }
    }
}

impl Context {
    #[verifier::type_invariant]
    spec fn inv(self) -> bool {
        self.enable.len() == BITMAP_WORDS
    }

    /// A context with every source disabled, threshold 0 and nothing claimed.
    pub fn new() -> (context: Context)
        ensures
            context@ == ContextView::reset(),
    {
        Context { enable: zeroed_words(BITMAP_WORDS), threshold: 0, claim: 0 }
    }
}

/// The state of the controller: the priority and pending bit of every
/// interrupt source, and the registers of every context.
///
/// All storage is allocated at construction. An index beyond it is
/// tolerated by every operation: reads give 0 and writes are dropped.
pub struct VPlicInner {
    prio: Vec<u32>,
    pending: Vec<u32>,
    contexts: Vec<Context>,
}

impl View for VPlicInner {
    type V = PlicView;

    closed spec fn view(&self) -> PlicView {
        PlicView {
            prio: self.prio@,
            pending: self.pending@,
            contexts: Seq::new(self.contexts.len() as nat, |c: int| self.contexts[c]@),
        }
    }
}

impl VPlicInner {
    /// What holds of every controller state: its storage has the size it
    /// was built with.
    #[verifier::type_invariant]
    pub closed spec fn inv(self) -> bool {
        &&& self.prio.len() == PLIC_MAX_IRQ + 1
        &&& self.pending.len() == BITMAP_WORDS
        &&& forall|c: int| 0 <= c < self.contexts.len() ==> (#[trigger] self.contexts[c]).inv()
    }

    /// The view of every controller state is well formed.
    pub proof fn lemma_inv_wf(self)
        requires
            self.inv(),
        ensures
            self@.wf(),
    {
    }

    /// A controller state with `contexts` contexts and every register 0.
    pub fn new(contexts: usize) -> (state: VPlicInner)
        ensures
            state@ == PlicView::reset(contexts as nat),
            state@.wf(),
    {
        let mut slots: Vec<Context> = Vec::new();
        let mut built: usize = 0;
        while built < contexts
            invariant
                built <= contexts,
                slots.len() == built,
                forall|c: int| 0 <= c < built ==> (#[trigger] slots[c])@ == ContextView::reset(),
                forall|c: int| 0 <= c < built ==> (#[trigger] slots[c]).inv(),
            decreases contexts - built,
        {
            let slot = Context::new();
            proof {
                use_type_invariant(&slot);
            }
            slots.push(slot);
            built += 1;
        }
        let state = VPlicInner {
            prio: zeroed_words(PLIC_MAX_IRQ + 1),
            pending: zeroed_words(BITMAP_WORDS),
            contexts: slots,
        };
        assert(state@.contexts =~= PlicView::reset(contexts as nat).contexts);
        state
    }

    /// Splits a source id into the index of its bitmap word and its bit in
    /// that word.
    fn index_and_bit(irq: usize) -> (r: (usize, u32))
        ensures
            r.0 == irq / 32,
            r.1 == irq % 32,
    {
        (irq / BITS_PER_WORD, (irq % BITS_PER_WORD) as u32)
    }

    /// Priority of source `irq`; 0 for a source without storage.
    pub fn get_prio(&self, irq: usize) -> (prio: u32)
        ensures
            prio == self@.priority(irq as int),
    {
        proof {
            use_type_invariant(self);
        }
        if irq > PLIC_MAX_IRQ {
            return 0;
        }
        self.prio[irq]
    }

    /// Sets the priority of source `irq`; dropped for a source without
    /// storage.
    pub fn set_prio(&mut self, irq: usize, prio: u32)
        ensures
            final(self)@ == old(self)@.with_priority(irq as int, prio),
            final(self)@.wf(),
    {
        proof {
            use_type_invariant(&*self);
        }
        if irq > PLIC_MAX_IRQ {
            return ;
        }
        self.prio[irq] = prio;
        assert(self@.contexts =~= old(self)@.contexts);
    }

    /// Whether source `irq` is pending; false for a source without storage.
    pub fn get_pending(&self, irq: usize) -> (pending: bool)
        ensures
            pending == self@.is_pending(irq as int),
    {
        proof {
            use_type_invariant(self);
        }
        if irq > PLIC_MAX_IRQ {
            return false;
        }
        let (index, bit) = Self::index_and_bit(irq);
        (self.pending[index] & (1u32 << bit)) != 0
    }

    /// Marks source `irq` pending; dropped for a source without storage.
    pub fn set_pending(&mut self, irq: usize)
        ensures
            final(self)@ == old(self)@.with_pending(irq as int, true),
            final(self)@.wf(),
    {
        proof {
            use_type_invariant(&*self);
        }
        if irq > PLIC_MAX_IRQ {
            return ;
        }
        let (index, bit) = Self::index_and_bit(irq);
        let word = self.pending[index];
        self.pending[index] = word | (1u32 << bit);
        assert(self@.contexts =~= old(self)@.contexts);
    }

    /// Word `word` of the pending bitmap; 0 beyond the bitmap.
    pub fn get_pending_word(&self, word: usize) -> (val: u32)
        ensures
            val == self@.pending_word(word as int),
            word >= BITMAP_WORDS ==> val == 0,
    {
        proof {
            use_type_invariant(self);
        }
        if word >= self.pending.len() {
            return 0;
        }
        self.pending[word]
    }

    /// Replaces word `word` of the pending bitmap; dropped beyond the
    /// bitmap.
    pub fn set_pending_word(&mut self, word: usize, val: u32)
        ensures
            final(self)@ == old(self)@.with_pending_word(word as int, val),
            final(self)@.wf(),
            word >= BITMAP_WORDS ==> final(self)@ == old(self)@,
    {
        proof {
            use_type_invariant(&*self);
        }
        if word >= self.pending.len() {
            return ;
        }
        self.pending[word] = val;
        assert(self@.contexts =~= old(self)@.contexts);
    }

    /// Clears the pending bit of source `irq`; dropped for a source without
    /// storage.
    pub fn clear_pending(&mut self, irq: usize)
        ensures
            final(self)@ == old(self)@.with_pending(irq as int, false),
            final(self)@.wf(),
    {
        proof {
            use_type_invariant(&*self);
        }
        if irq > PLIC_MAX_IRQ {
            return ;
        }
        let (index, bit) = Self::index_and_bit(irq);
        let word = self.pending[index];
        self.pending[index] = word & !(1u32 << bit);
        assert(self@.contexts =~= old(self)@.contexts);
    }

    /// Whether source `irq` is enabled for `context`; false for an unknown
    /// context or a source without storage.
    pub fn get_enable(&self, context: usize, irq: usize) -> (enabled: bool)
        ensures
            enabled == self@.is_enabled(context as int, irq as int),
    {
        proof {
            use_type_invariant(self);
        }
        if context >= self.contexts.len() || irq > PLIC_MAX_IRQ {
            return false;
        }
        let (index, bit) = Self::index_and_bit(irq);
        (self.contexts[context].enable[index] & (1u32 << bit)) != 0
    }

    /// Replaces word `word` of the enable bitmap of `context`; dropped for
    /// an unknown context or beyond the bitmap.
    pub fn set_enable_word(&mut self, context: usize, word: usize, val: u32)
        ensures
            final(self)@ == old(self)@.with_enable_word(context as int, word as int, val),
            final(self)@.wf(),
            !old(self)@.has_context(context as int) || word >= BITMAP_WORDS ==> final(self)@
                == old(self)@,
    {
        proof {
            use_type_invariant(&*self);
        }
        if context >= self.contexts.len() || word >= self.contexts[context].enable.len() {
            return ;
        }
        // The contexts are moved out while one of them changes, so that the
        // state is whole at every step.
        let mut contexts: Vec<Context> = Vec::new();
        std::mem::swap(&mut contexts, &mut self.contexts);
        contexts[context].enable[word] = val;
        self.contexts = contexts;
        assert(self@.contexts =~= old(self)@.with_enable_word(
            context as int,
            word as int,
            val,
        ).contexts);
    }

    /// Word `word` of the enable bitmap of `context`; 0 for an unknown
    /// context or beyond the bitmap.
    pub fn get_enable_word(&self, context: usize, word: usize) -> (val: u32)
        ensures
            val == self@.enable_word(context as int, word as int),
            !self@.has_context(context as int) || word >= BITMAP_WORDS ==> val == 0,
    {
        proof {
            use_type_invariant(self);
        }
        if context >= self.contexts.len() || word >= self.contexts[context].enable.len() {
            return 0;
        }
        self.contexts[context].enable[word]
    }

    /// Threshold of `context`; 0 for an unknown context.
    pub fn get_threshold(&self, context: usize) -> (threshold: u32)
        ensures
            threshold == self@.threshold(context as int),
    {
        proof {
            use_type_invariant(self);
        }
        if context >= self.contexts.len() {
            return 0;
        }
        self.contexts[context].threshold
    }

    /// Sets the threshold of `context`; dropped for an unknown context.
    pub fn set_threshold(&mut self, context: usize, threshold: u32)
        ensures
            final(self)@ == old(self)@.with_threshold(context as int, threshold),
            final(self)@.wf(),
    {
        proof {
            use_type_invariant(&*self);
        }
        if context >= self.contexts.len() {
            return ;
        }
        // The contexts are moved out while one of them changes, so that the
        // state is whole at every step.
        let mut contexts: Vec<Context> = Vec::new();
        std::mem::swap(&mut contexts, &mut self.contexts);
        contexts[context].threshold = threshold;
        self.contexts = contexts;
        assert(self@.contexts =~= old(self)@.with_threshold(context as int, threshold).contexts);
    }

    /// Claim register of `context`, without claiming: the source it last
    /// claimed and has not completed, or 0. For an unknown context, 0.
    pub fn get_claim(&self, context: usize) -> (claim: u32)
        ensures
            claim == self@.claim(context as int),
    {
        proof {
            use_type_invariant(self);
        }
        if context >= self.contexts.len() {
            return 0;
        }
        self.contexts[context].claim
    }

    /// Sets the claim register of `context`; dropped for an unknown context.
    pub fn set_claim(&mut self, context: usize, claim: u32)
        ensures
            final(self)@ == old(self)@.with_claim(context as int, claim),
            final(self)@.wf(),
    {
        proof {
            use_type_invariant(&*self);
        }
        if context >= self.contexts.len() {
            return ;
        }
        // The contexts are moved out while one of them changes, so that the
        // state is whole at every step.
        let mut contexts: Vec<Context> = Vec::new();
        std::mem::swap(&mut contexts, &mut self.contexts);
        contexts[context].claim = claim;
        self.contexts = contexts;
        assert(self@.contexts =~= old(self)@.with_claim(context as int, claim).contexts);
    }

    /// Claims the best interrupt for `context`.
    ///
    /// Sources are scanned in ascending order of id. A source is taken if
    /// it is pending, enabled for the context and of a priority above the
    /// threshold of the context; among those the highest priority wins, and
    /// among equal priorities the lowest id. The winner stops being pending
    /// and is recorded in the claim register of the context. With no such
    /// source, nothing changes.
    pub fn claim_irq(&mut self, context: usize) -> (claimed: Option<usize>)
        ensures
            match claimed {
                Some(irq) => old(self)@.winner(context as int) == Some(irq as int),
                None => old(self)@.winner(context as int) is None,
            },
            final(self)@ == old(self)@.after_claim(context as int),
            final(self)@.wf(),
            claimed is None <==> forall|irq: int| !old(self)@.eligible(context as int, irq),
            claimed is None ==> final(self)@ == old(self)@,
            claimed matches Some(irq) ==> {
                &&& old(self)@.is_winner(context as int, irq as int)
                &&& 1 <= irq <= PLIC_MAX_IRQ
                &&& !final(self)@.is_pending(irq as int)
                &&& final(self)@.claim(context as int) == irq
            },
    {
        proof {
            use_type_invariant(&*self);
        }
        let threshold = self.get_threshold(context);
        let mut best_irq: Option<usize> = None;
        let mut best_prio: u32 = 0;
        let mut irq: usize = 1;
        while irq <= PLIC_MAX_IRQ
            invariant
                1 <= irq <= PLIC_MAX_IRQ + 1,
                self@ == old(self)@,
                self@.wf(),
                threshold == self@.threshold(context as int),
                best_irq is None ==> best_prio == 0 && forall|j: int|
                    1 <= j < irq ==> !#[trigger] self@.eligible(context as int, j),
                best_irq matches Some(best) ==> {
                    &&& 1 <= best < irq
                    &&& self@.eligible(context as int, best as int)
                    &&& best_prio == self@.priority(best as int)
                    &&& forall|j: int|
                        1 <= j < irq && #[trigger] self@.eligible(context as int, j)
                            ==> self@.priority(j) < best_prio || (self@.priority(j)
                            == best_prio && best <= j)
                },
            decreases PLIC_MAX_IRQ + 1 - irq,
        {
            let prio = self.get_prio(irq);
            if prio > threshold && prio > best_prio && self.get_pending(irq) && self.get_enable(
                context,
                irq,
            ) {
                best_irq = Some(irq);
                best_prio = prio;
            }
            irq += 1;
        }
        match best_irq {
            Some(best) => {
                proof {
                    law_claim_effect(self@, context as int, best as int, context as int, 0);
                }
                self.clear_pending(best);
                self.set_claim(context, best as u32);
            },
            None => {},
        }
        best_irq
    }

    /// Finishes the handling of an interrupt by `context`: its claim
    /// register goes back to 0.
    ///
    /// `_irq` is the source that the guest says it has handled. It is not
    /// compared with the source that the context claimed.
    pub fn complete_irq(&mut self, context: usize, _irq: usize)
        ensures
            final(self)@ == old(self)@.with_claim(context as int, 0),
            final(self)@.claim(context as int) == 0,
            final(self)@.wf(),
    {
        self.set_claim(context, 0);
    }
}

/// The controller as the host shares it: its configuration and, behind one
/// spin lock, its state.
///
/// Every method takes the lock once, applies the method of the same name
/// of [`VPlicInner`] to the state, and releases the lock. In particular a
/// claim scans and commits within one critical section, so that two
/// contexts that claim at the same time never take the same interrupt.
///
/// Between two calls another holder of the controller may change the
/// state. What a method promises here is therefore only what holds of its
/// result in every state; what it does to a given state is the contract of
/// the method of [`VPlicInner`].
///
/// A read for a context at or beyond `max_contexts` is answered from the
/// configuration alone, without the lock: such a context has no register.
pub struct VPlic {
    /// Guest-physical address of the first register.
    pub emulated_base_addr: usize,
    /// Number of harts that the controller serves.
    pub max_harts: usize,
    /// Number of contexts: two per hart.
    pub max_contexts: usize,
    /// The state, behind the lock.
    pub inner: spin::Mutex<VPlicInner>,
}

impl VPlic {
    /// Whether `context` is one of the contexts that the controller was
    /// built for.
    pub open spec fn has_context(self, context: usize) -> bool {
        context < self.max_contexts
    }

    /// A controller at `emulated_base_addr` for [`MAX_HARTS`] harts.
    pub fn new_with_base(emulated_base_addr: usize) -> (vplic: VPlic)
        ensures
            vplic.emulated_base_addr == emulated_base_addr,
            vplic.max_harts == MAX_HARTS,
            vplic.max_contexts == MAX_HARTS * CONTEXT_PER_HART,
    {
        Self::new(emulated_base_addr, MAX_HARTS)
    }

    /// A controller at `emulated_base_addr` for `max_harts` harts, with
    /// every register 0.
    pub fn new(emulated_base_addr: usize, max_harts: usize) -> (vplic: VPlic)
        requires
            max_harts <= MAX_HARTS,
        ensures
            vplic.emulated_base_addr == emulated_base_addr,
            vplic.max_harts == max_harts,
            vplic.max_contexts == max_harts * CONTEXT_PER_HART,
    {
        let max_contexts = max_harts * CONTEXT_PER_HART;
        VPlic {
            emulated_base_addr,
            max_harts,
            max_contexts,
            inner: lock_new(VPlicInner::new(max_contexts)),
        }
    }

    /// Priority of source `irq`.
    pub fn get_prio(&self, irq: usize) -> (prio: u32)
        ensures
            irq > PLIC_MAX_IRQ ==> prio == 0,
    {
        let mut guard = lock_acquire(&self.inner);
        let state = guard_state(&mut guard);
        state.get_prio(irq)
    }

    /// Sets the priority of source `irq`.
    pub fn set_prio(&self, irq: usize, prio: u32) {
        let mut guard = lock_acquire(&self.inner);
        let state = guard_state(&mut guard);
        state.set_prio(irq, prio);
    }

    /// Whether source `irq` is pending.
    pub fn get_pending(&self, irq: usize) -> (pending: bool)
        ensures
            irq > PLIC_MAX_IRQ ==> !pending,
    {
        let mut guard = lock_acquire(&self.inner);
        let state = guard_state(&mut guard);
        state.get_pending(irq)
    }

    /// Marks source `irq` pending.
    pub fn set_pending(&self, irq: usize) {
        let mut guard = lock_acquire(&self.inner);
        let state = guard_state(&mut guard);
        state.set_pending(irq);
    }

    /// Word `word` of the pending bitmap.
    pub fn get_pending_word(&self, word: usize) -> (val: u32)
        ensures
            word >= BITMAP_WORDS ==> val == 0,
    {
        let mut guard = lock_acquire(&self.inner);
        let state = guard_state(&mut guard);
        state.get_pending_word(word)
    }

    /// Replaces word `word` of the pending bitmap.
    pub fn set_pending_word(&self, word: usize, val: u32) {
        let mut guard = lock_acquire(&self.inner);
        let state = guard_state(&mut guard);
        state.set_pending_word(word, val);
    }

    /// Clears the pending bit of source `irq`.
    pub fn clear_pending(&self, irq: usize) {
        let mut guard = lock_acquire(&self.inner);
        let state = guard_state(&mut guard);
        state.clear_pending(irq);
    }

    /// Whether source `irq` is enabled for `context`; false for a context
    /// that the controller was not built for.
    pub fn get_enable(&self, context: usize, irq: usize) -> (enabled: bool)
        ensures
            !self.has_context(context) || irq > PLIC_MAX_IRQ ==> !enabled,
    {
        if context >= self.max_contexts {
            return false;
        }
        let mut guard = lock_acquire(&self.inner);
        let state = guard_state(&mut guard);
        state.get_enable(context, irq)
    }

    /// Replaces word `word` of the enable bitmap of `context`.
    pub fn set_enable_word(&self, context: usize, word: usize, val: u32) {
        let mut guard = lock_acquire(&self.inner);
        let state = guard_state(&mut guard);
        state.set_enable_word(context, word, val);
    }

    /// Word `word` of the enable bitmap of `context`; 0 for a context that
    /// the controller was not built for.
    pub fn get_enable_word(&self, context: usize, word: usize) -> (val: u32)
        ensures
            !self.has_context(context) || word >= BITMAP_WORDS ==> val == 0,
    {
        if context >= self.max_contexts {
            return 0;
        }
        let mut guard = lock_acquire(&self.inner);
        let state = guard_state(&mut guard);
        state.get_enable_word(context, word)
    }

    /// Threshold of `context`; 0 for a context that the controller was not
    /// built for.
    pub fn get_threshold(&self, context: usize) -> (threshold: u32)
        ensures
            !self.has_context(context) ==> threshold == 0,
    {
        if context >= self.max_contexts {
            return 0;
        }
        let mut guard = lock_acquire(&self.inner);
        let state = guard_state(&mut guard);
        state.get_threshold(context)
    }

    /// Sets the threshold of `context`.
    pub fn set_threshold(&self, context: usize, threshold: u32) {
        let mut guard = lock_acquire(&self.inner);
        let state = guard_state(&mut guard);
        state.set_threshold(context, threshold);
    }

    /// Claim register of `context`, without claiming; 0 for a context that
    /// the controller was not built for.
    pub fn get_claim(&self, context: usize) -> (claim: u32)
        ensures
            !self.has_context(context) ==> claim == 0,
    {
        if context >= self.max_contexts {
            return 0;
        }
        let mut guard = lock_acquire(&self.inner);
        let state = guard_state(&mut guard);
        state.get_claim(context)
    }

    /// Sets the claim register of `context`.
    pub fn set_claim(&self, context: usize, claim: u32) {
        let mut guard = lock_acquire(&self.inner);
        let state = guard_state(&mut guard);
        state.set_claim(context, claim);
    }

    /// Claims the best interrupt for `context`, scan and commit under one
    /// acquisition of the lock. A context that the controller was not built
    /// for claims nothing.
    pub fn claim_irq(&self, context: usize) -> (claimed: Option<usize>)
        ensures
            claimed matches Some(irq) ==> 1 <= irq <= PLIC_MAX_IRQ,
            !self.has_context(context) ==> claimed is None,
    {
        if context >= self.max_contexts {
            return None;
        }
        let mut guard = lock_acquire(&self.inner);
        let state = guard_state(&mut guard);
        state.claim_irq(context)
    }

    /// Finishes the handling of an interrupt by `context`.
    pub fn complete_irq(&self, context: usize, irq: usize) {
        let mut guard = lock_acquire(&self.inner);
        let state = guard_state(&mut guard);
        state.complete_irq(context, irq);
    }
}

} // verus!
