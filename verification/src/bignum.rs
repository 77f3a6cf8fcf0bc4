//! An unsigned big integer: a little-endian sequence of 32-bit limbs.

use vstd::prelude::*;
use vstd::arithmetic::power::{lemma_pow_adds, pow};
use vstd::arithmetic::power2::{lemma2_to64, lemma_pow2_adds, lemma_pow2_pos, pow2};
use crate::small_powers::{lemma_pow5_32, POW5_32};

verus! {

/// The base of the limbs, `2^32`.
pub open spec fn limb_base() -> nat {
    0x1_0000_0000
}

/// The weight of limb `i`: `2^(32 * i)`.
pub open spec fn limb_weight(i: nat) -> nat {
    pow2(32 * i)
}

/// The number that a little-endian sequence of limbs stands for.
pub open spec fn limbs_value(limbs: Seq<u32>) -> nat
    decreases limbs.len(),
{
    if limbs.len() == 0 {
        0
    } else {
        limbs_value(limbs.drop_last()) + limbs.last() as nat * limb_weight(
            (limbs.len() - 1) as nat,
        )
    }
}

/// The outcome of a three-way comparison.
#[derive(Clone, Copy, Debug, PartialEq, Eq, Structural)]
pub enum Comparison {
    /// The left side is smaller.
    Less,
    /// Both sides are equal.
    Equal,
    /// The left side is larger.
    Greater,
}

/// How two numbers compare.
pub open spec fn compare_spec(a: nat, b: nat) -> Comparison {
    if a < b {
        Comparison::Less
    } else if a > b {
        Comparison::Greater
    } else {
        Comparison::Equal
    }
}

/// The weight of the next limb is the base times the weight of this one.
pub proof fn lemma_limb_weight_step(i: nat)
    ensures
        limb_weight(i + 1) == limb_weight(i) * limb_base(),
        limb_weight(i) > 0,
        limb_weight(0) == 1,
{
    lemma2_to64();
    lemma_pow2_adds(32 * i, 32);
    lemma_pow2_pos(32 * i);
    assert(32 * (i + 1) == 32 * i + 32);
}

/// The value of a sequence with one more limb on top.
pub proof fn lemma_value_push(limbs: Seq<u32>, top: u32)
    ensures
        limbs_value(limbs.push(top)) == limbs_value(limbs) + top as nat * limb_weight(limbs.len()),
{
    assert(limbs.push(top).drop_last() =~= limbs);
}

/// The value of the first `i + 1` limbs, from that of the first `i`.
pub proof fn lemma_value_take_step(limbs: Seq<u32>, i: int)
    requires
        0 <= i < limbs.len(),
    ensures
        limbs_value(limbs.take(i + 1)) == limbs_value(limbs.take(i)) + limbs[i] as nat
            * limb_weight(i as nat),
{
    assert(limbs.take(i + 1).drop_last() =~= limbs.take(i));
}

/// A sequence of `n` limbs stands for a number below `2^(32 * n)`.
pub proof fn lemma_value_bound(limbs: Seq<u32>)
    ensures
        limbs_value(limbs) < limb_weight(limbs.len()),
    decreases limbs.len(),
{
    if limbs.len() == 0 {
        lemma_limb_weight_step(0);
    } else {
        let n = (limbs.len() - 1) as nat;
        lemma_value_bound(limbs.drop_last());
        lemma_limb_weight_step(n);
        let w = limb_weight(n);
        let top = limbs.last() as nat;
        assert(top * w + w <= limb_base() * w) by (nonlinear_arith)
            requires
                top + 1 <= limb_base(),
        ;
        assert(limb_weight(n + 1) == limb_base() * w) by (nonlinear_arith)
            requires
                limb_weight(n + 1) == w * limb_base(),
        ;
    }
}

/// A sequence whose highest limb is not zero stands for a number of at
/// least the weight of that limb.
pub proof fn lemma_value_lower_bound(limbs: Seq<u32>)
    requires
        limbs.len() > 0,
        limbs.last() != 0,
    ensures
        limbs_value(limbs) >= limb_weight((limbs.len() - 1) as nat),
{
    let w = limb_weight((limbs.len() - 1) as nat);
    let top = limbs.last() as nat;
    assert(top * w >= w) by (nonlinear_arith)
        requires
            top >= 1,
    ;
}

/// Limb weights grow with the index.
pub proof fn lemma_limb_weight_monotonic(i: nat, j: nat)
    requires
        i <= j,
    ensures
        limb_weight(i) <= limb_weight(j),
{
    crate::bits::lemma_pow2_monotonic(32 * i, 32 * j);
}

/// Two sequences of one length that agree above limb `i` compare as their
/// first `i + 1` limbs do.
pub proof fn lemma_value_common_top(a: Seq<u32>, b: Seq<u32>, i: int)
    requires
        a.len() == b.len(),
        0 <= i <= a.len(),
        forall|j: int| i <= j < a.len() ==> a[j] == b[j],
    ensures
        limbs_value(a) - limbs_value(a.take(i)) == limbs_value(b) - limbs_value(b.take(i)),
    decreases a.len() - i,
{
    if i == a.len() {
        assert(a.take(i) =~= a);
        assert(b.take(i) =~= b);
    } else {
        lemma_value_common_top(a, b, i + 1);
        lemma_value_take_step(a, i);
        lemma_value_take_step(b, i);
    }
}

/// The lower 32 bits of a word and the bits above them.
fn split_limb(t: u64) -> (r: (u32, u64))
    ensures
        r.0 == t % 0x1_0000_0000,
        r.1 == t / 0x1_0000_0000,
        r.1 <= 0xFFFF_FFFF,
{
    let low: u64 = t & 0xFFFF_FFFF;
    let high: u64 = t >> 32;
    assert(low == t % 0x1_0000_0000 && high == t / 0x1_0000_0000 && low <= 0xFFFF_FFFF && high
        <= 0xFFFF_FFFF) by (bit_vector)
        requires
            low == t & 0xFFFF_FFFF,
            high == t >> 32,
    ;
    (low as u32, high)
}

/// An unsigned integer of any size.
#[derive(Clone, Debug)]
pub struct Bigint {
    /// The limbs, lowest first. The highest limb is not zero.
    pub data: Vec<u32>,
}

impl Bigint {
    /// The number that the limbs stand for.
    pub open spec fn value(&self) -> nat {
        limbs_value(self.data@)
    }

    /// Whether the highest limb is not zero: zero has no limbs.
    pub open spec fn wf(&self) -> bool {
        self.data@.len() == 0 || self.data@.last() != 0
    }

    /// The number zero.
    pub fn new() -> (r: Bigint)
        ensures
            r.wf(),
            r.value() == 0,
            r.data@.len() == 0,
    {
        Bigint { data: Vec::new() }
    }

    /// The big integer of a 64-bit word.
    pub fn from_u64(x: u64) -> (r: Bigint)
        ensures
            r.wf(),
            r.value() == x,
    {
        let (low, high) = split_limb(x);
        let mut data: Vec<u32> = Vec::new();
        let ghost empty = Seq::<u32>::empty();
        proof {
            lemma_limb_weight_step(0);
            lemma_limb_weight_step(1);
            lemma_value_push(empty, low);
            lemma_value_push(empty.push(low), high as u32);
            assert(limbs_value(empty) == 0);
            assert(empty.push(low).len() == 1);
            let w0 = limb_weight(0);
            let w1 = limb_weight(1);
            assert(low as nat * w0 == low) by (nonlinear_arith)
                requires
                    w0 == 1,
            ;
            assert(high as u32 as nat * w1 == high * 0x1_0000_0000) by (nonlinear_arith)
                requires
                    w1 == 0x1_0000_0000,
                    high as u32 == high,
            ;
        }
        if high != 0 {
            data.push(low);
            data.push(high as u32);
            assert(data@ =~= empty.push(low).push(high as u32));
        } else if low != 0 {
            data.push(low);
            assert(data@ =~= empty.push(low));
        } else {
            assert(data@ =~= empty);
        }
        Bigint { data }
    }

    /// Multiplies the number by a limb.
    #[verifier::rlimit(50)]
pub fn imul_small(&mut self, y: u32)
        requires
            old(self).wf(),
        ensures
            final(self).wf(),
            final(self).value() == old(self).value() * y,
    {
        if y == 0 {
            self.data = Vec::new();
            return ;
        }
        let n: usize = self.data.len();
        let ghost before = self.data@;
        let mut carry: u64 = 0;
        let mut i: usize = 0;
        proof {
            lemma_limb_weight_step(0);
            assert(limbs_value(before.take(0)) * y == 0) by (nonlinear_arith)
                requires
                    limbs_value(before.take(0)) == 0,
            ;
        }
        while i < n
            invariant
                y != 0,
                i <= n,
                self.data@.len() == n,
                before.len() == n,
                carry <= 0xFFFF_FFFF,
                forall|j: int| i <= j < n ==> self.data@[j] == before[j],
                limbs_value(self.data@.take(i as int)) + carry * limb_weight(i as nat)
                    == limbs_value(before.take(i as int)) * y,
                i > 0 ==> (self.data@[i - 1] != 0 || carry != 0 || before[i - 1] == 0),
            decreases n - i,
        {
            let limb: u32 = self.data[i];
            assert(limb * y + carry <= 0xFFFF_FFFF * 0xFFFF_FFFF + 0xFFFF_FFFF) by (nonlinear_arith)
                requires
                    limb <= 0xFFFF_FFFF,
                    y <= 0xFFFF_FFFF,
                    carry <= 0xFFFF_FFFF,
            ;
            let t: u64 = (limb as u64) * (y as u64) + carry;
            let (low, high) = split_limb(t);
            let ghost prev = self.data@;
            self.data.set(i, low);
            proof {
                assert(self.data@.take(i as int) =~= prev.take(i as int));
                lemma_value_take_step(self.data@, i as int);
                lemma_value_take_step(before, i as int);
                lemma_limb_weight_step(i as nat);
                let w = limb_weight(i as nat);
                let vn = limbs_value(prev.take(i as int));
                let vo = limbs_value(before.take(i as int));
                assert(vn + low * w + high * (w * limb_base()) == (vo + limb * w) * y)
                    by (nonlinear_arith)
                    requires
                        vn + carry * w == vo * y,
                        t == limb * y + carry,
                        t == high * limb_base() + low,
                ;
                if low == 0 && high == 0 {
                    assert(limb * y == 0);
                    assert(limb == 0) by (nonlinear_arith)
                        requires
                            limb * y == 0,
                            y != 0,
                    ;
                }
            }
            carry = high;
            i = i + 1;
        }
        proof {
            assert(self.data@.take(n as int) =~= self.data@);
            assert(before.take(n as int) =~= before);
        }
        if carry != 0 {
            proof {
                lemma_value_push(self.data@, carry as u32);
            }
            self.data.push(carry as u32);
        } else {
            assert(carry * limb_weight(n as nat) == 0) by (nonlinear_arith)
                requires
                    carry == 0,
            ;
        }
    }

    /// Adds a limb to the number.
    #[verifier::rlimit(50)]
pub fn iadd_small(&mut self, y: u32)
        requires
            old(self).wf(),
        ensures
            final(self).wf(),
            final(self).value() == old(self).value() + y,
    {
        let n: usize = self.data.len();
        let ghost before = self.data@;
        let mut carry: u64 = y as u64;
        let mut i: usize = 0;
        proof {
            lemma_limb_weight_step(0);
        }
        while i < n && carry != 0
            invariant
                i <= n,
                self.data@.len() == n,
                before.len() == n,
                carry <= 0xFFFF_FFFF,
                forall|j: int| i <= j < n ==> self.data@[j] == before[j],
                limbs_value(self.data@.take(i as int)) + carry * limb_weight(i as nat)
                    == limbs_value(before.take(i as int)) + y,
                limbs_value(self.data@) - limbs_value(self.data@.take(i as int)) == limbs_value(
                    before,
                ) - limbs_value(before.take(i as int)),
                n > 0 ==> before[n - 1] != 0,
                i == n && n > 0 ==> (self.data@[n - 1] != 0 || carry != 0),
            decreases n - i,
        {
            let limb: u32 = self.data[i];
            let t: u64 = limb as u64 + carry;
            let (low, high) = split_limb(t);
            let ghost prev = self.data@;
            self.data.set(i, low);
            proof {
                assert(self.data@.take(i as int) =~= prev.take(i as int));
                lemma_value_take_step(self.data@, i as int);
                lemma_value_take_step(before, i as int);
                lemma_limb_weight_step(i as nat);
                let w = limb_weight(i as nat);
                let vn = limbs_value(prev.take(i as int));
                let vo = limbs_value(before.take(i as int));
                assert(vn + low * w + high * (w * limb_base()) == vo + limb * w + y)
                    by (nonlinear_arith)
                    requires
                        vn + carry * w == vo + y,
                        t == limb + carry,
                        t == high * limb_base() + low,
                ;
                lemma_value_common_top(self.data@, before, i as int + 1);
            }
            carry = high;
            i = i + 1;
        }
        if carry != 0 {
            proof {
                assert(self.data@.take(n as int) =~= self.data@);
                assert(before.take(n as int) =~= before);
                lemma_value_push(self.data@, carry as u32);
            }
            self.data.push(carry as u32);
        } else {
            assert(carry * limb_weight(i as nat) == 0) by (nonlinear_arith)
                requires
                    carry == 0,
            ;
        }
    }

    /// Multiplies the number by `5^n`.
    pub fn imul_pow5(&mut self, n: u64)
        requires
            old(self).wf(),
        ensures
            final(self).wf(),
            final(self).value() == old(self).value() * pow(5, n as nat),
    {
        let ghost start = self.value();
        let mut left: u64 = n;
        proof {
            crate::small_powers::lemma_pow_step(5, 0);
            assert(start * 1 == start);
        }
        while left >= 13
            invariant
                self.wf(),
                left <= n,
                self.value() == start * pow(5, (n - left) as nat),
            decreases left,
        {
            proof {
                lemma_pow5_32(13);
                lemma_pow_adds(5, (n - left) as nat, 13);
                let a = pow(5, (n - left) as nat);
                let b = pow(5, 13);
                assert(start * a * b == start * (a * b)) by (nonlinear_arith);
            }
            self.imul_small(POW5_32[13]);
            left = left - 13;
        }
        if left != 0 {
            proof {
                lemma_pow5_32(left as int);
                lemma_pow_adds(5, (n - left) as nat, left as nat);
                let a = pow(5, (n - left) as nat);
                let b = pow(5, left as nat);
                assert(start * a * b == start * (a * b)) by (nonlinear_arith);
            }
            self.imul_small(POW5_32[left as usize]);
        }
    }

    /// Multiplies the number by `2^n`.
    #[verifier::rlimit(50)]
pub fn imul_pow2(&mut self, n: u64)
        requires
            old(self).wf(),
        ensures
            final(self).wf(),
            final(self).value() == old(self).value() * pow2(n as nat),
    {
        let bits: u32 = (n % 32) as u32;
        let limbs: u64 = n / 32;
        let ghost start = self.value();
        proof {
            lemma2_to64();
            vstd::bits::lemma_u32_shl_is_mul(1, bits);
            crate::bits::lemma_pow2_monotonic(bits as nat, 31);
        }
        self.imul_small(1u32 << bits);
        if self.data.len() == 0 {
            assert(start * pow2(n as nat) == 0) by (nonlinear_arith)
                requires
                    start * pow2(bits as nat) == 0,
                    pow2(bits as nat) > 0,
            ;
            return ;
        }
        let ghost shifted = self.data@;
        let mut data: Vec<u32> = Vec::new();
        let mut i: u64 = 0;
        while i < limbs
            invariant
                i <= limbs,
                data@.len() == i,
                limbs_value(data@) == 0,
            decreases limbs - i,
        {
            proof {
                lemma_value_push(data@, 0);
            }
            data.push(0);
            i = i + 1;
        }
        let count: usize = self.data.len();
        let mut j: usize = 0;
        proof {
            assert(shifted.take(0) =~= Seq::<u32>::empty());
            lemma_limb_weight_step(limbs as nat);
        }
        while j < count
            invariant
                j <= count,
                count == shifted.len(),
                self.data@ == shifted,
                data@.len() == limbs + j,
                limbs_value(data@) == limbs_value(shifted.take(j as int)) * limb_weight(
                    limbs as nat,
                ),
                j > 0 ==> data@.last() == shifted[j - 1],
            decreases count - j,
        {
            proof {
                lemma_value_push(data@, shifted[j as int]);
                lemma_value_take_step(shifted, j as int);
                lemma_pow2_adds(32 * (limbs as nat), 32 * (j as nat));
                assert(32 * (limbs as nat + j as nat) == 32 * (limbs as nat) + 32 * (j as nat));
                let v = limbs_value(shifted.take(j as int));
                let x = shifted[j as int] as nat;
                let wl = limb_weight(limbs as nat);
                let wj = limb_weight(j as nat);
                assert((v + x * wj) * wl == v * wl + x * (wl * wj)) by (nonlinear_arith);
            }
            data.push(self.data[j]);
            j = j + 1;
        }
        proof {
            assert(shifted.take(count as int) =~= shifted);
            lemma_pow2_adds(32 * (limbs as nat), bits as nat);
            assert(n == 32 * limbs + bits);
            let a = pow2(bits as nat);
            let b = limb_weight(limbs as nat);
            assert(start * a * b == start * (b * a)) by (nonlinear_arith);
        }
        self.data = data;
    }

    /// Multiplies the number by `10^n`.
    pub fn imul_pow10(&mut self, n: u64)
        requires
            old(self).wf(),
        ensures
            final(self).wf(),
            final(self).value() == old(self).value() * pow(5, n as nat) * pow2(n as nat),
    {
        self.imul_pow5(n);
        self.imul_pow2(n);
    }

    /// Compares the number with another.
    #[verifier::rlimit(50)]
pub fn compare(&self, other: &Bigint) -> (r: Comparison)
        requires
            self.wf(),
            other.wf(),
        ensures
            r == compare_spec(self.value(), other.value()),
    {
        let n: usize = self.data.len();
        let m: usize = other.data.len();
        proof {
            lemma_value_bound(self.data@);
            lemma_value_bound(other.data@);
        }
        if n > m {
            proof {
                lemma_value_lower_bound(self.data@);
                lemma_limb_weight_monotonic(m as nat, (n - 1) as nat);
            }
            return Comparison::Greater;
        } else if n < m {
            proof {
                lemma_value_lower_bound(other.data@);
                lemma_limb_weight_monotonic(n as nat, (m - 1) as nat);
            }
            return Comparison::Less;
        }
        let mut i: usize = n;
        while i > 0
            invariant
                i <= n,
                n == self.data@.len(),
                n == other.data@.len(),
                forall|j: int| i <= j < n ==> self.data@[j] == other.data@[j],
            decreases i,
        {
            let a: u32 = self.data[i - 1];
            let b: u32 = other.data[i - 1];
            if a != b {
                proof {
                    let k = (i - 1) as int;
                    lemma_value_common_top(self.data@, other.data@, i as int);
                    lemma_value_take_step(self.data@, k);
                    lemma_value_take_step(other.data@, k);
                    lemma_value_bound(self.data@.take(k));
                    lemma_value_bound(other.data@.take(k));
                    let w = limb_weight(k as nat);
                    if a > b {
                        assert(a * w >= b * w + w) by (nonlinear_arith)
                            requires
                                a >= b + 1,
                        ;
                    } else {
                        assert(b * w >= a * w + w) by (nonlinear_arith)
                            requires
                                b >= a + 1,
                        ;
                    }
                }
                if a > b {
                    return Comparison::Greater;
                } else {
                    return Comparison::Less;
                }
            }
            i = i - 1;
        }
        proof {
            lemma_value_common_top(self.data@, other.data@, 0);
            assert(self.data@.take(0) =~= other.data@.take(0));
        }
        Comparison::Equal
    }
}

} // verus!
