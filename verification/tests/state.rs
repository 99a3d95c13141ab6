use riscv_vplic::consts::{BITMAP_WORDS, PLIC_MAX_IRQ};
use riscv_vplic::vplic::VPlicInner;

const CONTEXTS: usize = 4;

fn fresh() -> VPlicInner {
    VPlicInner::new(CONTEXTS)
}

/// A state in which `irq` has priority `prio`, is pending and is enabled
/// for `context`.
fn raise(state: &mut VPlicInner, context: usize, irq: usize, prio: u32) {
    state.set_prio(irq, prio);
    state.set_pending(irq);
    let word = state.get_enable_word(context, irq / 32);
    state.set_enable_word(context, irq / 32, word | (1 << (irq % 32)));
}

#[test]
fn fresh_state_is_all_zero() {
    let state = fresh();
    for irq in 0..=PLIC_MAX_IRQ {
        assert_eq!(state.get_prio(irq), 0);
        assert!(!state.get_pending(irq));
    }
    for word in 0..BITMAP_WORDS {
        assert_eq!(state.get_pending_word(word), 0);
    }
    for context in 0..CONTEXTS {
        assert_eq!(state.get_threshold(context), 0);
        assert_eq!(state.get_claim(context), 0);
        for word in 0..BITMAP_WORDS {
            assert_eq!(state.get_enable_word(context, word), 0);
        }
    }
}

#[test]
fn pending_set_then_clear_for_every_source() {
    let mut state = fresh();
    for irq in 1..=PLIC_MAX_IRQ {
        state.set_pending(irq);
        assert!(state.get_pending(irq));
        state.clear_pending(irq);
        assert!(!state.get_pending(irq));
    }
}

#[test]
fn pending_bit_leaves_other_sources_alone() {
    let mut state = fresh();
    state.set_pending(33);
    for irq in 0..=PLIC_MAX_IRQ {
        assert_eq!(state.get_pending(irq), irq == 33);
    }
    assert_eq!(state.get_pending_word(1), 0b10);
    state.set_pending(63);
    assert_eq!(state.get_pending_word(1), 0x8000_0002);
    state.clear_pending(33);
    assert_eq!(state.get_pending_word(1), 0x8000_0000);
    assert_eq!(state.get_pending_word(0), 0);
    assert_eq!(state.get_pending_word(2), 0);
}

#[test]
fn pending_word_is_the_bits_of_its_sources() {
    let mut state = fresh();
    state.set_pending_word(3, 0x0000_0101);
    assert!(state.get_pending(96));
    assert!(state.get_pending(104));
    assert!(!state.get_pending(97));
    assert!(!state.get_pending(95));
    assert_eq!(state.get_pending_word(3), 0x0000_0101);
}

#[test]
fn pending_of_source_without_storage() {
    let mut state = fresh();
    state.set_pending(PLIC_MAX_IRQ + 1);
    assert!(!state.get_pending(PLIC_MAX_IRQ + 1));
    state.clear_pending(usize::MAX);
    assert!(!state.get_pending(usize::MAX));
    for word in 0..BITMAP_WORDS {
        assert_eq!(state.get_pending_word(word), 0);
    }
}

#[test]
fn priority_round_trip_for_every_source() {
    let mut state = fresh();
    for irq in 0..=PLIC_MAX_IRQ {
        state.set_prio(irq, 0xFFFF_0000 + irq as u32);
    }
    for irq in 0..=PLIC_MAX_IRQ {
        assert_eq!(state.get_prio(irq), 0xFFFF_0000 + irq as u32);
    }
    state.set_prio(5, u32::MAX);
    assert_eq!(state.get_prio(5), u32::MAX);
    assert_eq!(state.get_prio(4), 0xFFFF_0004);
    assert_eq!(state.get_prio(6), 0xFFFF_0006);
}

#[test]
fn priority_of_source_without_storage() {
    let mut state = fresh();
    state.set_prio(PLIC_MAX_IRQ + 1, 1);
    assert_eq!(state.get_prio(PLIC_MAX_IRQ + 1), 0);
    state.set_prio(usize::MAX, 7);
    assert_eq!(state.get_prio(usize::MAX), 0);
    for irq in 0..=PLIC_MAX_IRQ {
        assert_eq!(state.get_prio(irq), 0);
    }
}

#[test]
fn enable_word_round_trip_per_context() {
    let mut state = fresh();
    state.set_enable_word(2, 15, 0x8000_0000);
    assert_eq!(state.get_enable_word(2, 15), 0x8000_0000);
    assert!(state.get_enable(2, 511));
    assert!(!state.get_enable(2, 510));
    assert!(!state.get_enable(1, 511));
    assert!(!state.get_enable(3, 511));
    assert_eq!(state.get_enable_word(1, 15), 0);
    assert_eq!(state.get_enable_word(2, 14), 0);
}

#[test]
fn enable_access_out_of_range() {
    let mut state = fresh();
    state.set_enable_word(CONTEXTS, 0, 0xFFFF_FFFF);
    assert_eq!(state.get_enable_word(CONTEXTS, 0), 0);
    assert!(!state.get_enable(CONTEXTS, 1));
    state.set_enable_word(0, BITMAP_WORDS, 0xFFFF_FFFF);
    assert_eq!(state.get_enable_word(0, BITMAP_WORDS), 0);
    assert!(!state.get_enable(0, PLIC_MAX_IRQ + 1));
    state.set_enable_word(usize::MAX, usize::MAX, 1);
    assert_eq!(state.get_enable_word(usize::MAX, usize::MAX), 0);
    for context in 0..CONTEXTS {
        for word in 0..BITMAP_WORDS {
            assert_eq!(state.get_enable_word(context, word), 0);
        }
    }
}

#[test]
fn pending_word_access_out_of_range() {
    let mut state = fresh();
    state.set_pending_word(BITMAP_WORDS, 0xFFFF_FFFF);
    assert_eq!(state.get_pending_word(BITMAP_WORDS), 0);
    state.set_pending_word(usize::MAX, 0xFFFF_FFFF);
    assert_eq!(state.get_pending_word(usize::MAX), 0);
    for word in 0..BITMAP_WORDS {
        assert_eq!(state.get_pending_word(word), 0);
    }
}

#[test]
fn threshold_and_claim_round_trip() {
    let mut state = fresh();
    state.set_threshold(1, 6);
    state.set_claim(1, 44);
    assert_eq!(state.get_threshold(1), 6);
    assert_eq!(state.get_claim(1), 44);
    assert_eq!(state.get_threshold(0), 0);
    assert_eq!(state.get_claim(0), 0);
}

#[test]
fn threshold_and_claim_of_unknown_context() {
    let mut state = fresh();
    state.set_threshold(CONTEXTS, 6);
    state.set_claim(CONTEXTS, 44);
    assert_eq!(state.get_threshold(CONTEXTS), 0);
    assert_eq!(state.get_claim(CONTEXTS), 0);
    assert_eq!(state.claim_irq(CONTEXTS), None);
    state.complete_irq(CONTEXTS, 1);
    assert_eq!(state.get_claim(CONTEXTS), 0);
}

#[test]
fn claim_takes_highest_priority() {
    let mut state = fresh();
    raise(&mut state, 0, 10, 3);
    raise(&mut state, 0, 200, 7);
    raise(&mut state, 0, 400, 5);
    assert_eq!(state.claim_irq(0), Some(200));
    assert_eq!(state.claim_irq(0), Some(400));
    assert_eq!(state.claim_irq(0), Some(10));
    assert_eq!(state.claim_irq(0), None);
}

#[test]
fn claim_breaks_ties_by_lowest_id() {
    let mut state = fresh();
    raise(&mut state, 0, 3, 10);
    raise(&mut state, 0, 2, 10);
    state.set_threshold(0, 5);
    assert_eq!(state.claim_irq(0), Some(2));
    assert_eq!(state.claim_irq(0), Some(3));
    assert_eq!(state.claim_irq(0), None);
}

#[test]
fn claim_clears_pending_and_records_claim() {
    let mut state = fresh();
    raise(&mut state, 1, 77, 2);
    raise(&mut state, 1, 78, 1);
    assert_eq!(state.claim_irq(1), Some(77));
    assert!(!state.get_pending(77));
    assert!(state.get_pending(78));
    assert_eq!(state.get_claim(1), 77);
    assert_eq!(state.get_claim(0), 0);
    assert_eq!(state.get_prio(77), 2);
    assert!(state.get_enable(1, 77));
}

#[test]
fn claim_none_when_priority_is_zero() {
    let mut state = fresh();
    raise(&mut state, 0, 9, 0);
    assert_eq!(state.claim_irq(0), None);
    assert!(state.get_pending(9));
    assert_eq!(state.get_claim(0), 0);
}

#[test]
fn claim_none_when_not_pending() {
    let mut state = fresh();
    raise(&mut state, 0, 9, 4);
    state.clear_pending(9);
    assert_eq!(state.claim_irq(0), None);
    assert_eq!(state.get_claim(0), 0);
}

#[test]
fn claim_none_when_not_enabled_for_context() {
    let mut state = fresh();
    raise(&mut state, 0, 9, 4);
    assert_eq!(state.claim_irq(1), None);
    assert!(state.get_pending(9));
    assert_eq!(state.get_claim(1), 0);
    assert_eq!(state.claim_irq(0), Some(9));
}

#[test]
fn claim_none_when_priority_not_above_threshold() {
    let mut state = fresh();
    raise(&mut state, 0, 9, 4);
    state.set_threshold(0, 4);
    assert_eq!(state.claim_irq(0), None);
    state.set_threshold(0, 5);
    assert_eq!(state.claim_irq(0), None);
    assert!(state.get_pending(9));
    state.set_threshold(0, 3);
    assert_eq!(state.claim_irq(0), Some(9));
}

#[test]
fn claim_never_takes_source_zero() {
    let mut state = fresh();
    raise(&mut state, 0, 0, 100);
    assert_eq!(state.claim_irq(0), None);
    assert!(state.get_pending(0));
}

#[test]
fn claim_takes_the_last_source() {
    let mut state = fresh();
    raise(&mut state, 3, PLIC_MAX_IRQ, 1);
    assert_eq!(state.claim_irq(3), Some(PLIC_MAX_IRQ));
    assert_eq!(state.get_claim(3), PLIC_MAX_IRQ as u32);
}

#[test]
fn claim_with_maximal_priority() {
    let mut state = fresh();
    raise(&mut state, 0, 8, u32::MAX);
    raise(&mut state, 0, 9, u32::MAX - 1);
    state.set_threshold(0, u32::MAX - 1);
    assert_eq!(state.claim_irq(0), Some(8));
    assert_eq!(state.claim_irq(0), None);
    state.set_threshold(0, u32::MAX);
    state.set_pending(8);
    assert_eq!(state.claim_irq(0), None);
}

#[test]
fn claimed_source_is_gone_for_every_context() {
    let mut state = fresh();
    raise(&mut state, 0, 7, 9);
    raise(&mut state, 1, 7, 9);
    state.set_threshold(0, 5);
    state.set_threshold(1, 8);
    assert_eq!(state.claim_irq(0), Some(7));
    assert_eq!(state.claim_irq(1), None);
    assert_eq!(state.get_claim(0), 7);
    assert_eq!(state.get_claim(1), 0);
}

#[test]
fn complete_resets_claim_whatever_the_argument() {
    let mut state = fresh();
    raise(&mut state, 0, 12, 1);
    assert_eq!(state.claim_irq(0), Some(12));
    state.complete_irq(0, 99);
    assert_eq!(state.get_claim(0), 0);
    state.set_claim(0, 12);
    state.complete_irq(0, 12);
    assert_eq!(state.get_claim(0), 0);
    state.complete_irq(0, 0);
    assert_eq!(state.get_claim(0), 0);
    assert!(!state.get_pending(12));
}

#[test]
fn complete_leaves_other_contexts_alone() {
    let mut state = fresh();
    state.set_claim(0, 3);
    state.set_claim(1, 4);
    state.complete_irq(0, 3);
    assert_eq!(state.get_claim(0), 0);
    assert_eq!(state.get_claim(1), 4);
}

#[test]
fn state_without_contexts() {
    let mut state = VPlicInner::new(0);
    state.set_prio(1, 1);
    state.set_pending(1);
    state.set_enable_word(0, 0, 0b10);
    assert_eq!(state.get_enable_word(0, 0), 0);
    assert_eq!(state.claim_irq(0), None);
    assert!(state.get_pending(1));
}
