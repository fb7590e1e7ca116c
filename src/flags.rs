use vstd::prelude::*;

verus! {

/// No consensus rule beyond the base script rules.
pub const VERIFY_NONE: u32 = 0;

/// Evaluate P2SH (BIP16) subscripts.
pub const VERIFY_P2SH: u32 = 0x1;

/// Enforce strict DER (BIP66) signature encoding.
pub const VERIFY_DERSIG: u32 = 0x4;

/// Enforce NULLDUMMY (BIP147).
pub const VERIFY_NULLDUMMY: u32 = 0x10;

/// Enable CHECKLOCKTIMEVERIFY (BIP65).
pub const VERIFY_CHECKLOCKTIMEVERIFY: u32 = 0x200;

/// Enable CHECKSEQUENCEVERIFY (BIP112).
pub const VERIFY_CHECKSEQUENCEVERIFY: u32 = 0x400;

/// Enable segregated witness (BIP141).
pub const VERIFY_WITNESS: u32 = 0x800;

/// Every rule above.
pub const VERIFY_ALL: u32 = VERIFY_P2SH | VERIFY_DERSIG | VERIFY_NULLDUMMY
    | VERIFY_CHECKLOCKTIMEVERIFY | VERIFY_CHECKSEQUENCEVERIFY | VERIFY_WITNESS;

/// Last block height before P2SH was enforced.
pub const P2SH_HEIGHT: u32 = 170059;

/// Last block height before strict DER signatures were enforced.
pub const DERSIG_HEIGHT: u32 = 363724;

/// Last block height before CHECKLOCKTIMEVERIFY was enforced.
pub const CHECKLOCKTIMEVERIFY_HEIGHT: u32 = 388381;

/// Last block height before CHECKSEQUENCEVERIFY was enforced.
pub const CHECKSEQUENCEVERIFY_HEIGHT: u32 = 419328;

/// Last block height before segregated witness and NULLDUMMY were enforced.
pub const WITNESS_HEIGHT: u32 = 481824;

/// `bits` when `on` holds, no bits otherwise.
pub open spec fn bits_if(on: bool, bits: u32) -> u32 {
    if on {
        bits
    } else {
        0
    }
}

/// The rules in force at `height` on the Bitcoin network: each soft fork
/// contributes its bits once the height is past its activation threshold.
pub open spec fn active_flags(height: u32) -> u32 {
    bits_if(height > P2SH_HEIGHT, VERIFY_P2SH)
        | bits_if(height > DERSIG_HEIGHT, VERIFY_DERSIG)
        | bits_if(height > CHECKLOCKTIMEVERIFY_HEIGHT, VERIFY_CHECKLOCKTIMEVERIFY)
        | bits_if(height > CHECKSEQUENCEVERIFY_HEIGHT, VERIFY_CHECKSEQUENCEVERIFY)
        | bits_if(height > WITNESS_HEIGHT, VERIFY_NULLDUMMY | VERIFY_WITNESS)
}

/// Whether every bit of `a` is also set in `b`.
pub open spec fn flags_within(a: u32, b: u32) -> bool {
    a & b == a
}

/// Compute the flags for the soft fork activation heights on the Bitcoin network.
pub fn height_to_flags(height: u32) -> (r: u32)
    ensures
        r == active_flags(height),
        height <= P2SH_HEIGHT ==> r == VERIFY_NONE,
        flags_within(r, VERIFY_ALL),
        (r & VERIFY_P2SH != 0) == (height > P2SH_HEIGHT),
        (r & VERIFY_DERSIG != 0) == (height > DERSIG_HEIGHT),
        (r & VERIFY_CHECKLOCKTIMEVERIFY != 0) == (height > CHECKLOCKTIMEVERIFY_HEIGHT),
        (r & VERIFY_CHECKSEQUENCEVERIFY != 0) == (height > CHECKSEQUENCEVERIFY_HEIGHT),
        (r & VERIFY_NULLDUMMY != 0) == (height > WITNESS_HEIGHT),
        (r & VERIFY_WITNESS != 0) == (height > WITNESS_HEIGHT),
{
    let mut flag: u32 = VERIFY_NONE;
    proof {
        lemma_or_none(VERIFY_P2SH);
    }
    if height > P2SH_HEIGHT {
        flag = flag | VERIFY_P2SH;
    }
    proof {
        lemma_or_none(flag);
    }
    if height > DERSIG_HEIGHT {
        flag = flag | VERIFY_DERSIG;
    }
    proof {
        lemma_or_none(flag);
    }
    if height > CHECKLOCKTIMEVERIFY_HEIGHT {
        flag = flag | VERIFY_CHECKLOCKTIMEVERIFY;
    }
    proof {
        lemma_or_none(flag);
    }
    if height > CHECKSEQUENCEVERIFY_HEIGHT {
        flag = flag | VERIFY_CHECKSEQUENCEVERIFY;
    }
    proof {
        lemma_or_none(flag);
    }
    if height > WITNESS_HEIGHT {
        flag = flag | (VERIFY_NULLDUMMY | VERIFY_WITNESS);
    }
    proof {
        lemma_active_flags_bits(height);
    }
    flag
}

/// The rules only accumulate with height: every rule in force at `lo` is
/// still in force at any greater height `hi`.
pub proof fn lemma_flags_monotonic(lo: u32, hi: u32)
    requires
        lo <= hi,
    ensures
        flags_within(active_flags(lo), active_flags(hi)),
{
    let (a0, b0, c0, d0, e0) = (
        lo > P2SH_HEIGHT,
        lo > DERSIG_HEIGHT,
        lo > CHECKLOCKTIMEVERIFY_HEIGHT,
        lo > CHECKSEQUENCEVERIFY_HEIGHT,
        lo > WITNESS_HEIGHT,
    );
    let (a1, b1, c1, d1, e1) = (
        hi > P2SH_HEIGHT,
        hi > DERSIG_HEIGHT,
        hi > CHECKLOCKTIMEVERIFY_HEIGHT,
        hi > CHECKSEQUENCEVERIFY_HEIGHT,
        hi > WITNESS_HEIGHT,
    );
    assert(VERIFY_NULLDUMMY | VERIFY_WITNESS == 0x810u32) by (bit_vector);
    let f0 = active_flags(lo);
    let f1 = active_flags(hi);
    assert(f0 == (if a0 { 0x1u32 } else { 0u32 }) | (if b0 { 0x4u32 } else { 0u32 }) | (if c0 {
        0x200u32
    } else {
        0u32
    }) | (if d0 { 0x400u32 } else { 0u32 }) | (if e0 { 0x810u32 } else { 0u32 }));
    assert(f1 == (if a1 { 0x1u32 } else { 0u32 }) | (if b1 { 0x4u32 } else { 0u32 }) | (if c1 {
        0x200u32
    } else {
        0u32
    }) | (if d1 { 0x400u32 } else { 0u32 }) | (if e1 { 0x810u32 } else { 0u32 }));
    assert(f0 & f1 == f0) by (bit_vector)
        requires
            a0 ==> a1,
            b0 ==> b1,
            c0 ==> c1,
            d0 ==> d1,
            e0 ==> e1,
            f0 == (if a0 { 0x1u32 } else { 0u32 }) | (if b0 { 0x4u32 } else { 0u32 }) | (if c0 {
                0x200u32
            } else {
                0u32
            }) | (if d0 { 0x400u32 } else { 0u32 }) | (if e0 { 0x810u32 } else { 0u32 }),
            f1 == (if a1 { 0x1u32 } else { 0u32 }) | (if b1 { 0x4u32 } else { 0u32 }) | (if c1 {
                0x200u32
            } else {
                0u32
            }) | (if d1 { 0x400u32 } else { 0u32 }) | (if e1 { 0x810u32 } else { 0u32 }),
    ;
}

/// Adding no bits leaves a mask as it was.
proof fn lemma_or_none(x: u32)
    by (bit_vector)
    ensures
        x | 0u32 == x,
        0u32 | x == x,
{
}

/// What each bit of `active_flags` says about the height.
proof fn lemma_active_flags_bits(height: u32)
    ensures
        height <= P2SH_HEIGHT ==> active_flags(height) == VERIFY_NONE,
        flags_within(active_flags(height), VERIFY_ALL),
        (active_flags(height) & VERIFY_P2SH != 0) == (height > P2SH_HEIGHT),
        (active_flags(height) & VERIFY_DERSIG != 0) == (height > DERSIG_HEIGHT),
        (active_flags(height) & VERIFY_CHECKLOCKTIMEVERIFY != 0) == (height
            > CHECKLOCKTIMEVERIFY_HEIGHT),
        (active_flags(height) & VERIFY_CHECKSEQUENCEVERIFY != 0) == (height
            > CHECKSEQUENCEVERIFY_HEIGHT),
        (active_flags(height) & VERIFY_NULLDUMMY != 0) == (height > WITNESS_HEIGHT),
        (active_flags(height) & VERIFY_WITNESS != 0) == (height > WITNESS_HEIGHT),
{
    let a = height > P2SH_HEIGHT;
    let b = height > DERSIG_HEIGHT;
    let c = height > CHECKLOCKTIMEVERIFY_HEIGHT;
    let d = height > CHECKSEQUENCEVERIFY_HEIGHT;
    let e = height > WITNESS_HEIGHT;
    let f = active_flags(height);
    assert(VERIFY_ALL == 0xe15u32) by (bit_vector);
    assert(VERIFY_NULLDUMMY | VERIFY_WITNESS == 0x810u32) by (bit_vector);
    assert(f == (if a { 0x1u32 } else { 0u32 }) | (if b { 0x4u32 } else { 0u32 }) | (if c {
        0x200u32
    } else {
        0u32
    }) | (if d { 0x400u32 } else { 0u32 }) | (if e { 0x810u32 } else { 0u32 }));
    assert(f == (if a { 0x1u32 } else { 0u32 }) | (if b { 0x4u32 } else { 0u32 }) | (if c {
        0x200u32
    } else {
        0u32
    }) | (if d { 0x400u32 } else { 0u32 }) | (if e { 0x810u32 } else { 0u32 }) ==> {
        &&& (!a && !b && !c && !d && !e ==> f == 0)
        &&& f & 0xe15u32 == f
        &&& (f & 0x1u32 != 0) == a
        &&& (f & 0x4u32 != 0) == b
        &&& (f & 0x200u32 != 0) == c
        &&& (f & 0x400u32 != 0) == d
        &&& (f & 0x10u32 != 0) == e
        &&& (f & 0x800u32 != 0) == e
    }) by (bit_vector);
}

} // verus!
