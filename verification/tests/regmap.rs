use riscv_vplic::regmap::{decode, Register};

#[test]
fn decode_priority_region() {
    assert_eq!(decode(0x0), Some(Register::Priority { irq: 0 }));
    assert_eq!(decode(0x4), Some(Register::Priority { irq: 1 }));
    assert_eq!(decode(0xc), Some(Register::Priority { irq: 3 }));
    assert_eq!(decode(0x7fc), Some(Register::Priority { irq: 511 }));
    assert_eq!(decode(0x800), Some(Register::Priority { irq: 512 }));
    assert_eq!(decode(0xfff), Some(Register::Priority { irq: 1023 }));
}

#[test]
fn decode_priority_offset_inside_a_word() {
    assert_eq!(decode(0x5), Some(Register::Priority { irq: 1 }));
    assert_eq!(decode(0x7), Some(Register::Priority { irq: 1 }));
}

#[test]
fn decode_pending_region() {
    assert_eq!(decode(0x1000), Some(Register::Pending { word: 0 }));
    assert_eq!(decode(0x1004), Some(Register::Pending { word: 1 }));
    assert_eq!(decode(0x103c), Some(Register::Pending { word: 15 }));
    assert_eq!(decode(0x1040), Some(Register::Pending { word: 16 }));
    assert_eq!(decode(0x1fff), Some(Register::Pending { word: 1023 }));
}

#[test]
fn decode_enable_region() {
    assert_eq!(decode(0x2000), Some(Register::Enable { context: 0, word: 0 }));
    assert_eq!(decode(0x2004), Some(Register::Enable { context: 0, word: 1 }));
    assert_eq!(decode(0x207c), Some(Register::Enable { context: 0, word: 31 }));
    assert_eq!(decode(0x2080), Some(Register::Enable { context: 1, word: 0 }));
    assert_eq!(decode(0x2088), Some(Register::Enable { context: 1, word: 2 }));
    assert_eq!(decode(0x2000 + 15 * 0x80 + 15 * 4), Some(Register::Enable { context: 15, word: 15 }));
    assert_eq!(decode(0x1f_ffff), Some(Register::Enable { context: 0x3fbf, word: 31 }));
}

#[test]
fn decode_threshold_and_claim() {
    assert_eq!(decode(0x20_0000), Some(Register::Threshold { context: 0 }));
    assert_eq!(decode(0x20_0004), Some(Register::Claim { context: 0 }));
    assert_eq!(decode(0x20_1000), Some(Register::Threshold { context: 1 }));
    assert_eq!(decode(0x20_1004), Some(Register::Claim { context: 1 }));
    assert_eq!(decode(0x20_f000), Some(Register::Threshold { context: 15 }));
    assert_eq!(decode(0x3f_f000), Some(Register::Threshold { context: 511 }));
    assert_eq!(decode(0x3f_f004), Some(Register::Claim { context: 511 }));
}

#[test]
fn decode_threshold_region_other_local_offsets() {
    assert_eq!(decode(0x20_0001), None);
    assert_eq!(decode(0x20_0003), None);
    assert_eq!(decode(0x20_0005), None);
    assert_eq!(decode(0x20_0008), None);
    assert_eq!(decode(0x20_0ffc), None);
    assert_eq!(decode(0x3f_ffff), None);
}

#[test]
fn decode_beyond_the_map() {
    assert_eq!(decode(0x40_0000), None);
    assert_eq!(decode(0x40_0004), None);
    assert_eq!(decode(usize::MAX), None);
}

#[test]
fn decode_region_borders() {
    assert_eq!(decode(0x0fff), Some(Register::Priority { irq: 1023 }));
    assert_eq!(decode(0x1000), Some(Register::Pending { word: 0 }));
    assert_eq!(decode(0x1fff), Some(Register::Pending { word: 1023 }));
    assert_eq!(decode(0x2000), Some(Register::Enable { context: 0, word: 0 }));
    assert_eq!(decode(0x1f_fffc), Some(Register::Enable { context: 0x3fbf, word: 31 }));
    assert_eq!(decode(0x20_0000), Some(Register::Threshold { context: 0 }));
}
