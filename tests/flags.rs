use bitcoinconsensus::{
    height_to_flags, VERIFY_ALL, VERIFY_CHECKLOCKTIMEVERIFY, VERIFY_CHECKSEQUENCEVERIFY,
    VERIFY_DERSIG, VERIFY_NONE, VERIFY_NULLDUMMY, VERIFY_P2SH, VERIFY_WITNESS,
};

#[test]
fn flag_bit_positions() {
    assert_eq!(VERIFY_NONE, 0);
    assert_eq!(VERIFY_P2SH, 1 << 0);
    assert_eq!(VERIFY_DERSIG, 1 << 2);
    assert_eq!(VERIFY_NULLDUMMY, 1 << 4);
    assert_eq!(VERIFY_CHECKLOCKTIMEVERIFY, 1 << 9);
    assert_eq!(VERIFY_CHECKSEQUENCEVERIFY, 1 << 10);
    assert_eq!(VERIFY_WITNESS, 1 << 11);
    assert_eq!(
        VERIFY_ALL,
        VERIFY_P2SH
            | VERIFY_DERSIG
            | VERIFY_NULLDUMMY
            | VERIFY_CHECKLOCKTIMEVERIFY
            | VERIFY_CHECKSEQUENCEVERIFY
            | VERIFY_WITNESS
    );
    assert_eq!(VERIFY_ALL, 0xe15);
}

#[test]
fn no_flags_up_to_p2sh_activation() {
    for h in [0u32, 1, 1000, 100_000, 170_058, 170_059] {
        assert_eq!(height_to_flags(h), VERIFY_NONE);
    }
}

#[test]
fn boundary_heights() {
    assert_eq!(height_to_flags(170059), VERIFY_NONE);
    assert_eq!(height_to_flags(170060), VERIFY_P2SH);
    assert_eq!(height_to_flags(481824) & (VERIFY_NULLDUMMY | VERIFY_WITNESS), 0);
    assert_eq!(
        height_to_flags(481825) & (VERIFY_NULLDUMMY | VERIFY_WITNESS),
        VERIFY_NULLDUMMY | VERIFY_WITNESS
    );
}

#[test]
fn each_threshold_exact_values() {
    assert_eq!(height_to_flags(363724), VERIFY_P2SH);
    assert_eq!(height_to_flags(363725), VERIFY_P2SH | VERIFY_DERSIG);
    assert_eq!(height_to_flags(388381), VERIFY_P2SH | VERIFY_DERSIG);
    assert_eq!(
        height_to_flags(388382),
        VERIFY_P2SH | VERIFY_DERSIG | VERIFY_CHECKLOCKTIMEVERIFY
    );
    assert_eq!(
        height_to_flags(419328),
        VERIFY_P2SH | VERIFY_DERSIG | VERIFY_CHECKLOCKTIMEVERIFY
    );
    assert_eq!(
        height_to_flags(419329),
        VERIFY_P2SH | VERIFY_DERSIG | VERIFY_CHECKLOCKTIMEVERIFY | VERIFY_CHECKSEQUENCEVERIFY
    );
    assert_eq!(
        height_to_flags(481824),
        VERIFY_P2SH | VERIFY_DERSIG | VERIFY_CHECKLOCKTIMEVERIFY | VERIFY_CHECKSEQUENCEVERIFY
    );
    assert_eq!(height_to_flags(481825), VERIFY_ALL);
}

#[test]
fn all_rules_at_later_heights() {
    assert_eq!(height_to_flags(500000), VERIFY_ALL);
    assert_eq!(height_to_flags(u32::MAX), VERIFY_ALL);
}

#[test]
fn flags_accumulate_with_height() {
    let heights = [
        0u32, 170059, 170060, 363724, 363725, 388381, 388382, 419328, 419329, 481824, 481825,
        500000, u32::MAX,
    ];
    for lo in heights {
        for hi in heights {
            if lo <= hi {
                let a = height_to_flags(lo);
                let b = height_to_flags(hi);
                assert_eq!(a & b, a, "flags at {} not kept at {}", lo, hi);
            }
        }
    }
}
