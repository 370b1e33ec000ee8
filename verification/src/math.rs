use vstd::prelude::*;

verus! {

/// Ten to the power `e`, over the mathematical integers.
pub open spec fn spec_pow10(e: nat) -> int
    decreases e,
{
    if e == 0 {
        1
    } else {
        10 * spec_pow10((e - 1) as nat)
    }
}

pub proof fn lemma_pow10_positive(e: nat)
    ensures
        spec_pow10(e) >= 1,
    decreases e,
{
    if e > 0 {
        lemma_pow10_positive((e - 1) as nat);
    }
}

pub proof fn lemma_pow10_increases(a: nat, b: nat)
    requires
        a <= b,
    ensures
        spec_pow10(a) <= spec_pow10(b),
    decreases b,
{
    if a < b {
        lemma_pow10_increases(a, (b - 1) as nat);
        lemma_pow10_positive((b - 1) as nat);
    }
}

/// The largest power of ten that fits 128 bits is 10^38.
pub proof fn lemma_pow10_38_value()
    ensures
        spec_pow10(38) == 0x4B3B4CA85A86C47A098A224000000000,
{
    reveal_with_fuel(spec_pow10, 40);
}

/// Ten to the power `e` as a 128-bit value, or `None` where that overflows.
pub fn pow10(e: u64) -> (r: Option<u128>)
    ensures
        r == (if e <= 38 {
            Some(spec_pow10(e as nat) as u128)
        } else {
            None::<u128>
        }),
        r is Some ==> 1 <= r->Some_0 == spec_pow10(e as nat),
{
    if e > 38 {
        return None;
    }
    proof {
        lemma_pow10_38_value();
    }
    let mut acc: u128 = 1;
    let mut i: u64 = 0;
    while i < e
        invariant
            i <= e <= 38,
            acc == spec_pow10(i as nat),
            spec_pow10(38) == 0x4B3B4CA85A86C47A098A224000000000,
        decreases e - i,
    {
        proof {
            lemma_pow10_increases((i + 1) as nat, 38);
            lemma_pow10_positive(i as nat);
            assert(spec_pow10((i + 1) as nat) == 10 * spec_pow10(i as nat));
        }
        acc = acc * 10;
        i = i + 1;
    }
    proof {
        lemma_pow10_positive(e as nat);
        lemma_pow10_increases(e as nat, 38);
    }
    Some(acc)
}

} // verus!
