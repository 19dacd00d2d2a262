//! Sized integers and the arithmetic of constant expressions.

use vstd::prelude::*;

verus! {

/// An integer of a given bit width (widths up to 64 are represented).
#[derive(Clone, Copy, Debug, PartialEq, Eq, Structural)]
pub struct Integer {
    pub width: u8,
    pub value: u64,
}

/// The one-bit integer for a truth value: `1'b1` or `1'b0`.
pub open spec fn bool_int(b: bool) -> Integer {
    Integer { width: 1, value: if b { 1 } else { 0 } }
}

/// The one-bit integer for a truth value.
pub fn bool_integer(b: bool) -> (r: Integer)
    ensures
        r == bool_int(b),
{
    if b {
        Integer { width: 1, value: 1 }
    } else {
        Integer { width: 1, value: 0 }
    }
}

impl Integer {
    /// The same width with `val` added to the value.
    pub fn add(&self, val: u64) -> (r: Integer)
        requires
            self.value + val <= u64::MAX,
        ensures
            r.width == self.width,
            r.value == self.value + val,
    {
        Integer { width: self.width, value: self.value + val }
    }
}

/// `base` raised to `exp`.
pub open spec fn power(base: int, exp: nat) -> int
    decreases exp,
{
    if exp == 0 {
        1
    } else {
        base * power(base, (exp - 1) as nat)
    }
}

proof fn lemma_power_positive(base: int, e: nat)
    requires
        base >= 1,
    ensures
        power(base, e) >= 1,
    decreases e,
{
    if e > 0 {
        lemma_power_positive(base, (e - 1) as nat);
        let p = power(base, (e - 1) as nat);
        assert(base * p >= 1) by (nonlinear_arith)
            requires
                base >= 1,
                p >= 1,
        ;
    }
}

proof fn lemma_power_monotone_exp(base: int, i: nat, j: nat)
    requires
        base >= 1,
        i <= j,
    ensures
        1 <= power(base, i) <= power(base, j),
    decreases j,
{
    lemma_power_positive(base, i);
    if j > i {
        lemma_power_monotone_exp(base, i, (j - 1) as nat);
        let p = power(base, (j - 1) as nat);
        assert(base * p >= p) by (nonlinear_arith)
            requires
                base >= 1,
                p >= 1,
        ;
    }
}

proof fn lemma_power_monotone_base(a: int, b: int, e: nat)
    requires
        1 <= a <= b,
    ensures
        power(a, e) <= power(b, e),
    decreases e,
{
    if e > 0 {
        lemma_power_monotone_base(a, b, (e - 1) as nat);
        lemma_power_monotone_exp(a, 0, (e - 1) as nat);
        let pa = power(a, (e - 1) as nat);
        let pb = power(b, (e - 1) as nat);
        assert(a * pa <= b * pb) by (nonlinear_arith)
            requires
                1 <= a <= b,
                1 <= pa <= pb,
        ;
    }
}

proof fn lemma_power_two_64()
    ensures
        power(2, 64) == 0x1_0000_0000_0000_0000,
{
    reveal_with_fuel(power, 9);
    assert(power(2, 8) == 256);
    lemma_power_add(2, 8, 8);
    assert(power(2, 16) == 256 * 256);
    lemma_power_add(2, 16, 16);
    assert(power(2, 32) == 65536 * 65536);
    lemma_power_add(2, 32, 32);
    assert(power(2, 64) == 0x1_0000_0000 * 0x1_0000_0000);
}

/// `base.pow(exp)`, or `None` where the result does not fit in 64 bits.
pub fn checked_power(base: u64, exp: u64) -> (r: Option<u64>)
    ensures
        match r {
            Some(v) => v == power(base as int, exp as nat),
            None => power(base as int, exp as nat) > u64::MAX,
        },
{
    if exp == 0 {
        return Some(1);
    }
    if base == 0 {
        assert(power(0, exp as nat) == 0 * power(0, (exp - 1) as nat));
        return Some(0);
    }
    if base == 1 {
        proof {
            lemma_power_monotone_base(1, 1, exp as nat);
            lemma_power_one(exp as nat);
        }
        return Some(1);
    }
    if exp >= 64 {
        proof {
            lemma_power_two_64();
            lemma_power_monotone_exp(2, 64, exp as nat);
            lemma_power_monotone_base(2, base as int, exp as nat);
        }
        return None;
    }
    let mut acc: u64 = 1;
    let mut i: u64 = 0;
    while i < exp
        invariant
            0 <= i <= exp < 64,
            base >= 2,
            acc as int == power(base as int, i as nat),
        decreases exp - i,
    {
        match acc.checked_mul(base) {
            Some(next) => {
                proof {
                    assert(power(base as int, (i + 1) as nat) == base * power(base as int, i as nat));
                }
                acc = next;
                i = i + 1;
            },
            None => {
                proof {
                    assert(power(base as int, (i + 1) as nat) == base * power(base as int, i as nat));
                    lemma_power_monotone_exp(base as int, (i + 1) as nat, exp as nat);
                }
                return None;
            },
        }
    }
    Some(acc)
}

proof fn lemma_power_add(base: int, i: nat, j: nat)
    ensures
        power(base, i + j) == power(base, i) * power(base, j),
    decreases j,
{
    if j > 0 {
        lemma_power_add(base, i, (j - 1) as nat);
        assert(power(base, i + j) == base * power(base, (i + j - 1) as nat));
        let pi = power(base, i);
        let pj1 = power(base, (j - 1) as nat);
        assert(base * (pi * pj1) == pi * (base * pj1)) by (nonlinear_arith);
    }
}

proof fn lemma_power_one(e: nat)
    ensures
        power(1, e) == 1,
    decreases e,
{
    if e > 0 {
        lemma_power_one((e - 1) as nat);
    }
}

} // verus!
