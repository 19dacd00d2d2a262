use vstd::prelude::*;

verus! {

/// A sized bit-vector literal such as `4'b1010`: a width in bits and a value
/// that fits in that width.
#[derive(Clone, Copy, Debug, PartialEq, Eq, Structural)]
pub struct Bits {
    w: u64,
    val: u64,
}

/// The largest value that fits in `w` bits (all ones for widths of 64 and more).
pub open spec fn width_mask(w: u64) -> u64 {
    if w >= 64 { u64::MAX } else { ((1u64 << w) - 1) as u64 }
}

impl Bits {
    /// A literal is well formed when its width is between 1 and 64 and its
    /// value fits in that many bits.
    pub open spec fn wf_spec(self) -> bool {
        &&& 1 <= self.width_spec() <= 64
        &&& self.value_spec() <= width_mask(self.width_spec())
    }

    /// The width in bits.
    pub closed spec fn width_spec(self) -> u64 {
        self.w
    }

    /// The value.
    pub closed spec fn value_spec(self) -> u64 {
        self.val
    }

    /// Two literals are the same literal exactly when width and value agree.
    pub proof fn lemma_ext(a: Bits, b: Bits)
        ensures
            (a.width_spec() == b.width_spec() && a.value_spec() == b.value_spec()) <==> a == b,
    {
    }

    /// Builds a literal; `None` when the width is outside 1..=64 or the value
    /// does not fit in the width.
    pub fn new(w: u64, val: u64) -> (r: Option<Bits>)
        ensures
            match r {
                Some(b) => b.wf_spec() && b.width_spec() == w && b.value_spec() == val,
                None => !(1 <= w <= 64 && val <= width_mask(w)),
            },
    {
        if w == 0 || w > 64 {
            return None;
        }
        let mask = mask_of(w);
        if val <= mask {
            Some(Bits { w, val })
        } else {
            None
        }
    }

    /// The width in bits.
    pub fn w(&self) -> (r: u64)
        ensures
            r == self.width_spec(),
    {
        self.w
    }

    /// The value.
    pub fn val(&self) -> (r: u64)
        ensures
            r == self.value_spec(),
    {
        self.val
    }
}

fn mask_of(w: u64) -> (r: u64)
    ensures
        r == width_mask(w),
{
    if w >= 64 {
        u64::MAX
    } else {
        assert(w < 64 ==> (1u64 << w) >= 1) by (bit_vector);
        (1u64 << w) - 1
    }
}

/// Two's-complement negation of a 64-bit value, wrapping at 2^64.
pub open spec fn wrapping_neg_u64(v: u64) -> u64 {
    if v == 0 { 0 } else { (u64::MAX - v + 1) as u64 }
}

/// Negation that wraps instead of overflowing.
pub fn wrapping_neg_of(v: u64) -> (r: u64)
    ensures
        r == wrapping_neg_u64(v),
{
    if v == 0 { 0 } else { u64::MAX - v + 1 }
}

proof fn lemma_mask_low_bits(w: u64, v: u64)
    requires
        v <= width_mask(w),
    ensures
        v & width_mask(w) == v,
        (!(!v & width_mask(w))) & width_mask(w) == v,
{
    if w >= 64 {
        assert(v & u64::MAX == v && (!(!v & u64::MAX)) & u64::MAX == v) by (bit_vector);
    } else {
        let m = width_mask(w);
        assert(m == ((1u64 << w) - 1) as u64);
        assert(w < 64 && v <= ((1u64 << w) - 1) as u64 ==> v & (((1u64 << w) - 1) as u64) == v
            && (!(!v & (((1u64 << w) - 1) as u64))) & (((1u64 << w) - 1) as u64) == v)
            by (bit_vector);
    }
}

proof fn lemma_neg_masked_involution(w: u64, v: u64)
    requires
        v <= width_mask(w),
    ensures
        wrapping_neg_u64(wrapping_neg_u64(v) & width_mask(w)) & width_mask(w) == v,
{
    let m = width_mask(w);
    if w >= 64 {
        assert(m == u64::MAX);
        assert(wrapping_neg_u64(v) & u64::MAX == wrapping_neg_u64(v)) by (bit_vector);
        assert(wrapping_neg_u64(wrapping_neg_u64(v)) & u64::MAX == wrapping_neg_u64(wrapping_neg_u64(v))) by (bit_vector);
    } else if v == 0 {
        assert(0u64 & m == 0) by (bit_vector);
    } else {
        let n = wrapping_neg_u64(v);
        assert(m == ((1u64 << w) - 1) as u64);
        assert(n == (u64::MAX - v + 1) as u64);
        assert(w < 64 && 0 < v && v <= ((1u64 << w) - 1) as u64 ==> {
            let n1 = ((u64::MAX - v + 1) as u64) & (((1u64 << w) - 1) as u64);
            &&& n1 != 0
            &&& (((u64::MAX - n1 + 1) as u64) & (((1u64 << w) - 1) as u64)) == v
        }) by (bit_vector);
    }
}

impl Bits {
    /// Bitwise complement within the literal's width.
    pub closed spec fn not_spec(self) -> Bits {
        Bits { w: self.w, val: !self.val & width_mask(self.w) }
    }

    /// Two's-complement negation within the literal's width.
    pub closed spec fn wrapping_neg_spec(self) -> Bits {
        Bits { w: self.w, val: wrapping_neg_u64(self.val) & width_mask(self.w) }
    }

    /// Bitwise complement: same width, every bit of the width flipped. The
    /// result is kept within the literal's width (bits above it stay 0);
    /// that is this library's choice for sized literals.
    pub fn not(self) -> (r: Bits)
        ensures
            r == self.not_spec(),
            r.width_spec() == self.width_spec(),
            r.value_spec() == !self.value_spec() & width_mask(self.width_spec()),
            self.wf_spec() ==> r.wf_spec(),
    {
        let m = mask_of(self.w);
        let v = !self.val & m;
        proof {
            let val = self.val;
            assert(!val & m <= m) by (bit_vector);
        }
        Bits { w: self.w, val: v }
    }

    /// Two's-complement negation: same width, value `2^w - val` (0 stays 0).
    /// The result is kept within the literal's width; that is this
    /// library's choice for sized literals.
    pub fn wrapping_neg(self) -> (r: Bits)
        ensures
            r == self.wrapping_neg_spec(),
            r.width_spec() == self.width_spec(),
            r.value_spec() == wrapping_neg_u64(self.value_spec()) & width_mask(self.width_spec()),
            self.wf_spec() ==> r.wf_spec(),
    {
        let m = mask_of(self.w);
        let n = wrapping_neg_of(self.val);
        proof {
            assert(n & m <= m) by (bit_vector);
        }
        Bits { w: self.w, val: n & m }
    }

    /// Complementing twice gives back a well-formed literal.
    pub proof fn lemma_not_involution(self)
        requires
            self.wf_spec(),
        ensures
            self.not_spec().not_spec() == self,
    {
        lemma_mask_low_bits(self.w, self.val);
    }

    /// Negating twice gives back a well-formed literal.
    pub proof fn lemma_neg_involution(self)
        requires
            self.wf_spec(),
        ensures
            self.wrapping_neg_spec().wrapping_neg_spec() == self,
    {
        lemma_neg_masked_involution(self.w, self.val);
    }
}

} // verus!
