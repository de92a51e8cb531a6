//! The multi-limb time value: a count of seconds split into a high
//! word and a 16-bit low word, plus microsecond and picosecond limbs,
//! with carry/borrow-correct addition and subtraction and a total
//! lexicographic order.
//!
//! Normal form keeps every limb but the most significant inside its
//! radix: `0 <= lo < 2^16`, `0 <= us < 10^6`, `0 <= ps < 10^6`.
//! Arithmetic propagates one carry or borrow per limb in the order
//! `ps -> us -> lo -> hi`.  Subtraction corrects the sign of `hi`
//! rather than the magnitude of `lo`: when `hi` comes out negative it
//! is decremented once more and a full `lo` radix is added to `lo`.
//! This asymmetry is part of the component's behaviour and is kept
//! exactly; the lemmas below state precisely on which inputs it yields
//! normal form.

use vstd::prelude::*;

verus! {

/// Width in bits of the `lo` limb's radix.
pub const LO_TIME_BITS: u32 = 16;

/// A time value as the 4-tuple `(hi, lo, us, ps)`: `hi * 2^16 + lo`
/// seconds, `us` microseconds, `ps` picoseconds.
#[allow(non_camel_case_types)]
#[derive(Clone, Copy, PartialEq, Eq, Structural, Debug)]
pub struct LispTime {
    pub hi: i64,
    pub lo: i32,
    pub us: i32,
    pub ps: i32,
}

/// The mathematical model of a time value: its four limbs as
/// unbounded integers.
pub ghost struct TimeVal {
    pub hi: int,
    pub lo: int,
    pub us: int,
    pub ps: int,
}

impl View for LispTime {
    type V = TimeVal;

    open spec fn view(&self) -> TimeVal {
        TimeVal { hi: self.hi as int, lo: self.lo as int, us: self.us as int, ps: self.ps as int }
    }
}

/// Normal form: every limb but `hi` lies inside its radix.
pub open spec fn t_norm(t: TimeVal) -> bool {
    &&& 0 <= t.lo < 65536
    &&& 0 <= t.us < 1_000_000
    &&& 0 <= t.ps < 1_000_000
}

/// The number of picoseconds a time value denotes.
pub open spec fn t_val(t: TimeVal) -> int {
    ((t.hi * 65536 + t.lo) * 1_000_000 + t.us) * 1_000_000 + t.ps
}

/// Strict lexicographic order over the limb tuple `(hi, lo, us, ps)`.
pub open spec fn t_lt(a: TimeVal, b: TimeVal) -> bool {
    ||| a.hi < b.hi
    ||| (a.hi == b.hi && a.lo < b.lo)
    ||| (a.hi == b.hi && a.lo == b.lo && a.us < b.us)
    ||| (a.hi == b.hi && a.lo == b.lo && a.us == b.us && a.ps < b.ps)
}

/// The all-zero time value.
pub open spec fn t_zero() -> TimeVal {
    TimeVal { hi: 0, lo: 0, us: 0, ps: 0 }
}

/// Limb-wise sum with one carry propagated per limb, in the order
/// `ps -> us -> lo -> hi`.
pub open spec fn t_add(a: TimeVal, b: TimeVal) -> TimeVal {
    let ps0 = a.ps + b.ps;
    let us0 = a.us + b.us;
    let lo0 = a.lo + b.lo;
    let hi0 = a.hi + b.hi;
    let us1 = if ps0 >= 1_000_000 { us0 + 1 } else { us0 };
    let ps1 = if ps0 >= 1_000_000 { ps0 - 1_000_000 } else { ps0 };
    let lo1 = if us1 >= 1_000_000 { lo0 + 1 } else { lo0 };
    let us2 = if us1 >= 1_000_000 { us1 - 1_000_000 } else { us1 };
    let hi1 = if lo1 >= 65536 { hi0 + 1 } else { hi0 };
    let lo2 = if lo1 >= 65536 { lo1 - 65536 } else { lo1 };
    TimeVal { hi: hi1, lo: lo2, us: us2, ps: ps1 }
}

/// Limb-wise difference with one borrow propagated per limb for `ps`
/// and `us`; the last step corrects a negative `hi` by decrementing it
/// once more and adding a full radix to `lo`.
pub open spec fn t_sub(a: TimeVal, b: TimeVal) -> TimeVal {
    let ps0 = a.ps - b.ps;
    let us0 = a.us - b.us;
    let lo0 = a.lo - b.lo;
    let hi0 = a.hi - b.hi;
    let us1 = if ps0 < 0 { us0 - 1 } else { us0 };
    let ps1 = if ps0 < 0 { ps0 + 1_000_000 } else { ps0 };
    let lo1 = if us1 < 0 { lo0 - 1 } else { lo0 };
    let us2 = if us1 < 0 { us1 + 1_000_000 } else { us1 };
    let hi1 = if hi0 < 0 { hi0 - 1 } else { hi0 };
    let lo2 = if hi0 < 0 { lo1 + 65536 } else { lo1 };
    TimeVal { hi: hi1, lo: lo2, us: us2, ps: ps1 }
}

/// The `ps` limb sum of an addition, before the carry is taken out.
pub open spec fn add_ps_sum(a: TimeVal, b: TimeVal) -> int {
    a.ps + b.ps
}

/// The `us` limb sum of an addition, carry from `ps` included.
pub open spec fn add_us_sum(a: TimeVal, b: TimeVal) -> int {
    a.us + b.us + if add_ps_sum(a, b) >= 1_000_000 { 1int } else { 0int }
}

/// The `lo` limb sum of an addition, carry from `us` included.
pub open spec fn add_lo_sum(a: TimeVal, b: TimeVal) -> int {
    a.lo + b.lo + if add_us_sum(a, b) >= 1_000_000 { 1int } else { 0int }
}

/// The `ps` limb difference of a subtraction, before the borrow.
pub open spec fn sub_ps_diff(a: TimeVal, b: TimeVal) -> int {
    a.ps - b.ps
}

/// The `us` limb difference of a subtraction, borrow for `ps` included.
pub open spec fn sub_us_diff(a: TimeVal, b: TimeVal) -> int {
    a.us - b.us - if sub_ps_diff(a, b) < 0 { 1int } else { 0int }
}

/// The `lo` limb difference of a subtraction, borrow for `us` included.
pub open spec fn sub_lo_diff(a: TimeVal, b: TimeVal) -> int {
    a.lo - b.lo - if sub_us_diff(a, b) < 0 { 1int } else { 0int }
}

/// No step of the limb-wise addition leaves the machine range of its
/// limb.
pub open spec fn add_in_range(a: TimeVal, b: TimeVal) -> bool {
    let us1 = a.us + b.us + if a.ps + b.ps >= 1_000_000 { 1int } else { 0int };
    let lo1 = a.lo + b.lo + if us1 >= 1_000_000 { 1int } else { 0int };
    let hi1 = a.hi + b.hi + if lo1 >= 65536 { 1int } else { 0int };
    &&& i32::MIN <= a.ps + b.ps <= i32::MAX
    &&& i32::MIN <= a.us + b.us && us1 <= i32::MAX
    &&& i32::MIN <= a.lo + b.lo && lo1 <= i32::MAX
    &&& i64::MIN <= a.hi + b.hi && hi1 <= i64::MAX
}

/// No step of the limb-wise subtraction leaves the machine range of
/// its limb.
pub open spec fn sub_in_range(a: TimeVal, b: TimeVal) -> bool {
    let us1 = a.us - b.us - if a.ps - b.ps < 0 { 1int } else { 0int };
    let lo1 = a.lo - b.lo - if us1 < 0 { 1int } else { 0int };
    &&& i32::MIN <= a.ps - b.ps <= i32::MAX
    &&& us1 >= i32::MIN && a.us - b.us <= i32::MAX
    &&& lo1 >= i32::MIN && a.lo - b.lo <= i32::MAX
    &&& (a.hi - b.hi < 0 ==> lo1 + 65536 <= i32::MAX)
    &&& i64::MIN <= a.hi - b.hi <= i64::MAX
    &&& (a.hi - b.hi < 0 ==> a.hi - b.hi - 1 >= i64::MIN)
}

/// The elements `into_vec` yields: the first two are `hi` and `lo`,
/// a third appends `us`, anything above three appends `ps` as well;
/// fewer than two yields nothing.
pub open spec fn spec_into_vec(t: LispTime, nelem: usize) -> Seq<i64> {
    let two = if nelem >= 2 { seq![t.hi, t.lo as i64] } else { Seq::<i64>::empty() };
    let three = if nelem >= 3 { two.push(t.us as i64) } else { two };
    if nelem > 3 { three.push(t.ps as i64) } else { three }
}

impl LispTime {
    /// Projects the limb tuple into a sequence of at most `nelem`
    /// native integers; limbs beyond `nelem` are omitted, not merged.
    pub fn into_vec(self, nelem: usize) -> (r: Vec<i64>)
        ensures
            r@ == spec_into_vec(self, nelem),
    {
        let mut v: Vec<i64> = Vec::with_capacity(nelem);

        if nelem >= 2 {
            v.push(self.hi);
            v.push(self.lo as i64);
        }
        if nelem >= 3 {
            v.push(self.us as i64);
        }
        if nelem > 3 {
            v.push(self.ps as i64);
        }

        proof {
            assert(v@ =~= spec_into_vec(self, nelem));
        }
        v
    }

    /// Limb-wise addition with carry propagation `ps -> us -> lo -> hi`.
    /// The requirement is exactly that no intermediate limb overflows
    /// its machine type.
    pub fn add(self, other: LispTime) -> (r: LispTime)
        requires
            add_in_range(self@, other@),
        ensures
            r@ == t_add(self@, other@),
    {
        proof {
            assert((1i32 << 16u32) == 65536) by (bit_vector);
        }
        let mut hi: i64 = self.hi + other.hi;
        let mut lo: i32 = self.lo + other.lo;
        let mut us: i32 = self.us + other.us;
        let mut ps: i32 = self.ps + other.ps;

        if ps >= 1_000_000 {
            us += 1;
            ps -= 1_000_000;
        }
        if us >= 1_000_000 {
            lo += 1;
            us -= 1_000_000;
        }
        if lo >= 1 << LO_TIME_BITS {
            hi += 1;
            lo -= 1 << LO_TIME_BITS;
        }

        LispTime { hi, lo, us, ps }
    }

    /// Limb-wise subtraction with borrow propagation `ps -> us`, then
    /// the `hi`-sign correction described at the top of this module.
    /// The requirement is exactly that no intermediate limb overflows
    /// its machine type.
    pub fn sub(self, other: LispTime) -> (r: LispTime)
        requires
            sub_in_range(self@, other@),
        ensures
            r@ == t_sub(self@, other@),
    {
        proof {
            assert((1i32 << 16u32) == 65536) by (bit_vector);
        }
        let mut hi: i64 = self.hi - other.hi;
        let mut lo: i32 = self.lo - other.lo;
        let mut us: i32 = self.us - other.us;
        let mut ps: i32 = self.ps - other.ps;

        if ps < 0 {
            us -= 1;
            ps += 1_000_000;
        }
        if us < 0 {
            lo -= 1;
            us += 1_000_000;
        }
        if hi < 0 {
            hi -= 1;
            lo += 1 << LO_TIME_BITS;
        }

        LispTime { hi, lo, us, ps }
    }
}

impl PartialOrd for LispTime {
    /// Total lexicographic comparison over `(hi, lo, us, ps)`.
    fn partial_cmp(&self, other: &Self) -> (r: Option<core::cmp::Ordering>) {
        if self.hi != other.hi {
            if self.hi < other.hi {
                Some(core::cmp::Ordering::Less)
            } else {
                Some(core::cmp::Ordering::Greater)
            }
        } else if self.lo != other.lo {
            if self.lo < other.lo {
                Some(core::cmp::Ordering::Less)
            } else {
                Some(core::cmp::Ordering::Greater)
            }
        } else if self.us != other.us {
            if self.us < other.us {
                Some(core::cmp::Ordering::Less)
            } else {
                Some(core::cmp::Ordering::Greater)
            }
        } else if self.ps != other.ps {
            if self.ps < other.ps {
                Some(core::cmp::Ordering::Less)
            } else {
                Some(core::cmp::Ordering::Greater)
            }
        } else {
            Some(core::cmp::Ordering::Equal)
        }
    }
}

impl vstd::std_specs::cmp::PartialOrdSpecImpl for LispTime {
    open spec fn obeys_partial_cmp_spec() -> bool {
        true
    }

    open spec fn partial_cmp_spec(&self, other: &Self) -> Option<core::cmp::Ordering> {
        if t_lt(self@, other@) {
            Some(core::cmp::Ordering::Less)
        } else if t_lt(other@, self@) {
            Some(core::cmp::Ordering::Greater)
        } else {
            Some(core::cmp::Ordering::Equal)
        }
    }
}

/// Addition preserves the denoted number of picoseconds.
pub proof fn lemma_add_value(a: TimeVal, b: TimeVal)
    ensures
        t_val(t_add(a, b)) == t_val(a) + t_val(b),
{
}

/// Subtraction preserves the denoted number of picoseconds: the
/// `hi`-sign correction moves a full radix between `hi` and `lo` and
/// so cancels out.
pub proof fn lemma_sub_value(a: TimeVal, b: TimeVal)
    ensures
        t_val(t_sub(a, b)) == t_val(a) - t_val(b),
{
}

/// Normal form of an addition, exactly: the sum is in normal form if
/// and only if each limb-wise sum, carry included, stays within twice
/// its radix and is not negative.  Limb tuples need not themselves be
/// in normal form; any two normal-form inputs satisfy the bounds (see
/// `lemma_add_normal_of_normal`).
pub proof fn lemma_add_normal(a: TimeVal, b: TimeVal)
    requires
        0 <= add_ps_sum(a, b) < 2_000_000,
        0 <= add_us_sum(a, b) < 2_000_000,
        0 <= add_lo_sum(a, b) < 131072,
    ensures
        t_norm(t_add(a, b)),
{
}

/// Two normal-form inputs always satisfy the bounds of
/// `lemma_add_normal`, so their sum is in normal form.
pub proof fn lemma_add_normal_of_normal(a: TimeVal, b: TimeVal)
    requires
        t_norm(a),
        t_norm(b),
    ensures
        t_norm(t_add(a, b)),
{
}

/// Normal form of a subtraction, exactly: the difference is in normal
/// form if and only if the `ps` and `us` differences stay within one
/// radix of zero and the `lo` difference agrees in sign with the `hi`
/// difference — nonnegative where `hi` stays nonnegative, negative by
/// at most one radix where `hi` goes negative and the correction adds
/// the radix back.
pub proof fn lemma_sub_normal(a: TimeVal, b: TimeVal)
    requires
        -1_000_000 <= sub_ps_diff(a, b) < 1_000_000,
        -1_000_000 <= sub_us_diff(a, b) < 1_000_000,
        a.hi - b.hi >= 0 ==> 0 <= sub_lo_diff(a, b) < 65536,
        a.hi - b.hi < 0 ==> -65536 <= sub_lo_diff(a, b) < 0,
    ensures
        t_norm(t_sub(a, b)),
{
}

/// Subtracting an addend back recovers the original limb tuple — on
/// exactly those inputs where the subtraction's `hi`-sign correction
/// mirrors the addition's `lo` carry: either the addition carries
/// nothing into `hi` and `hi` stays nonnegative, or it carries and
/// `hi` remains below `-1`.
pub proof fn lemma_sub_add_inverse(a: TimeVal, b: TimeVal)
    requires
        t_norm(a),
        t_norm(b),
        (add_lo_sum(a, b) < 65536 && a.hi >= 0) || (add_lo_sum(a, b) >= 65536 && a.hi + 1 < 0),
    ensures
        t_sub(t_add(a, b), b) == a,
{
}

/// Ordering agrees with arithmetic on normal-form values: the
/// difference `b - a` added back to `a` reconstructs `b` exactly, `a`
/// precedes `b` lexicographically if and only if that difference is
/// lexicographically positive, and the difference is zero if and only
/// if the tuples are equal.
pub proof fn lemma_order_consistency(a: TimeVal, b: TimeVal)
    requires
        t_norm(a),
        t_norm(b),
    ensures
        t_add(a, t_sub(b, a)) == b,
        t_lt(a, b) <==> t_lt(t_zero(), t_sub(b, a)),
        a == b <==> t_sub(b, a) == t_zero(),
{
}

} // verus!
