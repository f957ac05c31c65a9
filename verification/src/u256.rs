//! A 256-bit unsigned word, stored as four 64-bit limbs (least significant
//! first), with the checked / saturating / truncating-division operations the
//! fee formulas and balance accounting need. Every operation is specified
//! against the word's mathematical value `as_nat`.

use vstd::prelude::*;
use vstd::arithmetic::mul::*;
use vstd::arithmetic::div_mod::*;

verus! {

/// 2^64 as a specification-level integer.
pub open spec fn pow2_64() -> int {
    0x1_0000_0000_0000_0000int
}

/// 2^128 as a specification-level integer.
pub open spec fn pow2_128() -> int {
    0x1_0000_0000_0000_0000_0000_0000_0000_0000int
}

/// 2^192 as a specification-level integer.
pub open spec fn pow2_192() -> int {
    0x1_0000_0000_0000_0000_0000_0000_0000_0000_0000_0000_0000_0000int
}

/// 2^256 as a specification-level integer.
pub open spec fn pow2_256() -> int {
    0x1_0000_0000_0000_0000_0000_0000_0000_0000_0000_0000_0000_0000_0000_0000_0000_0000int
}

/// Saturation of a mathematical integer to the 256-bit range.
pub open spec fn sat256(x: int) -> int {
    if x >= pow2_256() {
        pow2_256() - 1
    } else {
        x
    }
}

/// A 256-bit unsigned integer; `l0` is the least significant limb.
#[derive(Clone, Copy, Debug, PartialEq, Eq, Structural)]
pub struct U256 {
    pub l0: u64,
    pub l1: u64,
    pub l2: u64,
    pub l3: u64,
}

impl U256 {
    /// The mathematical value of the word.
    pub open spec fn as_nat(self) -> int {
        self.l0 + self.l1 * pow2_64() + self.l2 * pow2_128() + self.l3 * pow2_192()
    }

    pub proof fn lemma_as_nat_bounds(self)
        ensures
            0 <= self.as_nat() < pow2_256(),
            self.l3 * pow2_192() <= self.as_nat(),
    {
    }

    /// The zero word.
    pub fn zero() -> (r: U256)
        ensures
            r.as_nat() == 0,
    {
        U256 { l0: 0, l1: 0, l2: 0, l3: 0 }
    }

    /// The largest representable word.
    pub fn max_value() -> (r: U256)
        ensures
            r.as_nat() == pow2_256() - 1,
    {
        U256 { l0: u64::MAX, l1: u64::MAX, l2: u64::MAX, l3: u64::MAX }
    }

    pub fn from_u64(x: u64) -> (r: U256)
        ensures
            r.as_nat() == x,
    {
        U256 { l0: x, l1: 0, l2: 0, l3: 0 }
    }

    pub fn from_u128(x: u128) -> (r: U256)
        ensures
            r.as_nat() == x,
    {
        let lo: u64 = (x & 0xFFFF_FFFF_FFFF_FFFF) as u64;
        let hi: u64 = (x >> 64) as u64;
        proof {
            assert(x == (x & 0xFFFF_FFFF_FFFF_FFFF) + (x >> 64) * 0x1_0000_0000_0000_0000
                && (x & 0xFFFF_FFFF_FFFF_FFFF) < 0x1_0000_0000_0000_0000 && (x >> 64)
                < 0x1_0000_0000_0000_0000) by (bit_vector);
        }
        U256 { l0: lo, l1: hi, l2: 0, l3: 0 }
    }

    pub fn is_zero(&self) -> (r: bool)
        ensures
            r == (self.as_nat() == 0),
    {
        self.l0 == 0 && self.l1 == 0 && self.l2 == 0 && self.l3 == 0
    }

    /// Strict comparison by value.
    pub fn lt(&self, other: &U256) -> (r: bool)
        ensures
            r == (self.as_nat() < other.as_nat()),
    {
        proof {
            self.lemma_as_nat_bounds();
            other.lemma_as_nat_bounds();
        }
        if self.l3 != other.l3 {
            self.l3 < other.l3
        } else if self.l2 != other.l2 {
            self.l2 < other.l2
        } else if self.l1 != other.l1 {
            self.l1 < other.l1
        } else {
            self.l0 < other.l0
        }
    }
}

/// One limb of a wide addition: `x + y + cin` split into a low limb and a
/// carry.
fn carry_add(x: u64, y: u64, cin: u64) -> (r: (u64, u64))
    requires
        cin <= 1,
    ensures
        r.0 + r.1 * pow2_64() == x + y + cin,
        r.1 <= 1,
{
    let t: u128 = x as u128 + y as u128 + cin as u128;
    let lo: u64 = (t & 0xFFFF_FFFF_FFFF_FFFF) as u64;
    let hi: u64 = (t >> 64) as u64;
    proof {
        assert(t == (t & 0xFFFF_FFFF_FFFF_FFFF) + (t >> 64) * 0x1_0000_0000_0000_0000 && (t
            & 0xFFFF_FFFF_FFFF_FFFF) < 0x1_0000_0000_0000_0000) by (bit_vector);
        assert((t >> 64) <= 1) by (bit_vector)
            requires
                t <= 0x1_FFFF_FFFF_FFFF_FFFF,
        ;
    }
    (lo, hi)
}

/// One limb of a wide subtraction: `x - y - bin` as a low limb and a borrow.
fn borrow_sub(x: u64, y: u64, bin: u64) -> (r: (u64, u64))
    requires
        bin <= 1,
    ensures
        r.0 == x - y - bin + r.1 * pow2_64(),
        r.1 <= 1,
        (r.1 == 1) == (x < y + bin),
{
    let need: u128 = y as u128 + bin as u128;
    let xv: u128 = x as u128;
    if xv >= need {
        ((xv - need) as u64, 0)
    } else {
        (((xv + 0x1_0000_0000_0000_0000u128) - need) as u64, 1)
    }
}

/// One limb of a wide multiply-accumulate: `a * b + add` split into a low
/// limb and a high limb.
fn mul_add(a: u64, b: u64, add: u64) -> (r: (u64, u64))
    ensures
        r.0 + r.1 * pow2_64() == a * b + add,
{
    proof {
        lemma_mul_upper_bound(a as int, 0xFFFF_FFFF_FFFF_FFFFu64 as int, b as int,
            0xFFFF_FFFF_FFFF_FFFFu64 as int);
    }
    let t: u128 = a as u128 * b as u128 + add as u128;
    let lo: u64 = (t & 0xFFFF_FFFF_FFFF_FFFF) as u64;
    let hi: u64 = (t >> 64) as u64;
    proof {
        assert(t == (t & 0xFFFF_FFFF_FFFF_FFFF) + (t >> 64) * 0x1_0000_0000_0000_0000 && (t
            & 0xFFFF_FFFF_FFFF_FFFF) < 0x1_0000_0000_0000_0000 && (t >> 64)
            < 0x1_0000_0000_0000_0000) by (bit_vector);
    }
    (lo, hi)
}

impl U256 {
    /// Full addition: the 256-bit sum together with the carry-out limb.
    fn add_with_carry(&self, other: &U256) -> (r: (U256, u64))
        ensures
            r.0.as_nat() + r.1 * pow2_256() == self.as_nat() + other.as_nat(),
            r.1 <= 1,
    {
        let (s0, c0) = carry_add(self.l0, other.l0, 0);
        let (s1, c1) = carry_add(self.l1, other.l1, c0);
        let (s2, c2) = carry_add(self.l2, other.l2, c1);
        let (s3, c3) = carry_add(self.l3, other.l3, c2);
        (U256 { l0: s0, l1: s1, l2: s2, l3: s3 }, c3)
    }

    /// Addition that clamps at the largest 256-bit value.
    pub fn saturating_add(&self, other: &U256) -> (r: U256)
        ensures
            r.as_nat() == sat256(self.as_nat() + other.as_nat()),
    {
        let (sum, carry) = self.add_with_carry(other);
        if carry != 0 {
            proof {
                sum.lemma_as_nat_bounds();
            }
            U256::max_value()
        } else {
            sum
        }
    }

    /// Addition that fails on 256-bit overflow.
    pub fn checked_add(&self, other: &U256) -> (r: Option<U256>)
        ensures
            self.as_nat() + other.as_nat() < pow2_256() ==> r is Some && r.unwrap().as_nat()
                == self.as_nat() + other.as_nat(),
            self.as_nat() + other.as_nat() >= pow2_256() ==> r is None,
    {
        let (sum, carry) = self.add_with_carry(other);
        proof {
            sum.lemma_as_nat_bounds();
        }
        if carry != 0 {
            None
        } else {
            Some(sum)
        }
    }

    /// Subtraction that fails when the result would be negative.
    pub fn checked_sub(&self, other: &U256) -> (r: Option<U256>)
        ensures
            self.as_nat() >= other.as_nat() ==> r is Some && r.unwrap().as_nat() == self.as_nat()
                - other.as_nat(),
            self.as_nat() < other.as_nat() ==> r is None,
    {
        let (d0, b0) = borrow_sub(self.l0, other.l0, 0);
        let (d1, b1) = borrow_sub(self.l1, other.l1, b0);
        let (d2, b2) = borrow_sub(self.l2, other.l2, b1);
        let (d3, b3) = borrow_sub(self.l3, other.l3, b2);
        let diff = U256 { l0: d0, l1: d1, l2: d2, l3: d3 };
        proof {
            diff.lemma_as_nat_bounds();
            self.lemma_as_nat_bounds();
            other.lemma_as_nat_bounds();
            assert(diff.as_nat() == self.as_nat() - other.as_nat() + b3 * pow2_256());
        }
        if b3 != 0 {
            None
        } else {
            Some(diff)
        }
    }

    /// Subtraction that clamps at zero.
    pub fn saturating_sub(&self, other: &U256) -> (r: U256)
        ensures
            r.as_nat() == if self.as_nat() >= other.as_nat() {
                self.as_nat() - other.as_nat()
            } else {
                0
            },
    {
        match self.checked_sub(other) {
            Some(d) => d,
            None => U256::zero(),
        }
    }

    /// Multiplication by a single limb: the low 256 bits and the overflow
    /// limb.
    fn mul_u64(&self, x: u64) -> (r: (U256, u64))
        ensures
            r.0.as_nat() + r.1 * pow2_256() == self.as_nat() * x,
    {
        let (r0, c0) = mul_add(self.l0, x, 0);
        let (r1, c1) = mul_add(self.l1, x, c0);
        let (r2, c2) = mul_add(self.l2, x, c1);
        let (r3, c3) = mul_add(self.l3, x, c2);
        let prod = U256 { l0: r0, l1: r1, l2: r2, l3: r3 };
        proof {
            let k1 = pow2_64();
            let k2 = pow2_128();
            let k3 = pow2_192();
            let a0 = self.l0 as int;
            let a1 = self.l1 as int;
            let a2 = self.l2 as int;
            let a3 = self.l3 as int;
            let xi = x as int;
            assert((a0 + a1 * k1 + a2 * k2 + a3 * k3) * xi == a0 * xi + (a1 * k1) * xi + (a2 * k2)
                * xi + (a3 * k3) * xi) by (nonlinear_arith);
            assert((a1 * k1) * xi == (a1 * xi) * k1) by (nonlinear_arith);
            assert((a2 * k2) * xi == (a2 * xi) * k2) by (nonlinear_arith);
            assert((a3 * k3) * xi == (a3 * xi) * k3) by (nonlinear_arith);
        }
        (prod, c3)
    }

    /// Multiplication that clamps at the largest 256-bit value.
    pub fn saturating_mul(&self, other: &U256) -> (r: U256)
        ensures
            r.as_nat() == sat256(self.as_nat() * other.as_nat()),
    {
        let k4: Ghost<int> = Ghost(pow2_256());
        let (m0, h0) = other.mul_u64(self.l0);
        let (m1, h1) = other.mul_u64(self.l1);
        let (m2, h2) = other.mul_u64(self.l2);
        let (m3, h3) = other.mul_u64(self.l3);

        // Row 0 needs no shift.
        let mut ovf: Ghost<int> = Ghost(h0 as int);
        let mut nz: bool = h0 > 0;

        // Row 1 is shifted by one limb.
        let (s1, c1) = carry_add(m0.l1, m1.l0, 0);
        let (s2, c2) = carry_add(m0.l2, m1.l1, c1);
        let (s3, c3) = carry_add(m0.l3, m1.l2, c2);
        let acc1 = U256 { l0: m0.l0, l1: s1, l2: s2, l3: s3 };
        proof {
            ovf@ = ovf@ + m1.l3 + h1 * pow2_64() + c3;
        }
        nz = nz || m1.l3 > 0 || h1 > 0 || c3 > 0;
        proof {
            assert(acc1.as_nat() + pow2_256() * ovf@ == other.as_nat() * self.l0 + (other.as_nat()
                * self.l1) * pow2_64());
        }

        // Row 2 is shifted by two limbs.
        let (t2, d1) = carry_add(acc1.l2, m2.l0, 0);
        let (t3, d2) = carry_add(acc1.l3, m2.l1, d1);
        let acc2 = U256 { l0: acc1.l0, l1: acc1.l1, l2: t2, l3: t3 };
        proof {
            ovf@ = ovf@ + m2.l2 + m2.l3 * pow2_64() + h2 * pow2_128() + d2;
        }
        nz = nz || m2.l2 > 0 || m2.l3 > 0 || h2 > 0 || d2 > 0;
        proof {
            assert(acc2.as_nat() + pow2_256() * ovf@ == other.as_nat() * self.l0 + (other.as_nat()
                * self.l1) * pow2_64() + (other.as_nat() * self.l2) * pow2_128());
        }

        // Row 3 is shifted by three limbs.
        let (u3, e1) = carry_add(acc2.l3, m3.l0, 0);
        let acc3 = U256 { l0: acc2.l0, l1: acc2.l1, l2: acc2.l2, l3: u3 };
        proof {
            ovf@ = ovf@ + m3.l1 + m3.l2 * pow2_64() + m3.l3 * pow2_128() + h3 * pow2_192() + e1;
        }
        nz = nz || m3.l1 > 0 || m3.l2 > 0 || m3.l3 > 0 || h3 > 0 || e1 > 0;
        proof {
            assert(acc3.as_nat() + pow2_256() * ovf@ == other.as_nat() * self.l0 + (other.as_nat()
                * self.l1) * pow2_64() + (other.as_nat() * self.l2) * pow2_128() + (other.as_nat()
                * self.l3) * pow2_192());
            let k1 = pow2_64();
            let k2 = pow2_128();
            let k3 = pow2_192();
            let b = other.as_nat();
            let a0 = self.l0 as int;
            let a1 = self.l1 as int;
            let a2 = self.l2 as int;
            let a3 = self.l3 as int;
            assert((b * a1) * k1 == b * (a1 * k1)) by (nonlinear_arith);
            assert((b * a2) * k2 == b * (a2 * k2)) by (nonlinear_arith);
            assert((b * a3) * k3 == b * (a3 * k3)) by (nonlinear_arith);
            assert(b * a0 + b * (a1 * k1) + b * (a2 * k2) + b * (a3 * k3) == b * (a0 + a1 * k1 + a2
                * k2 + a3 * k3)) by (nonlinear_arith);
            lemma_mul_is_commutative(b, self.as_nat());
            assert(acc3.as_nat() + pow2_256() * ovf@ == self.as_nat() * other.as_nat());
            assert(nz == (ovf@ > 0));
            acc3.lemma_as_nat_bounds();
            if ovf@ > 0 {
                assert(pow2_256() * ovf@ >= pow2_256());
            }
        }
        if nz {
            U256::max_value()
        } else {
            acc3
        }
    }

    /// Truncating division by a non-zero 64-bit divisor.
    pub fn div_by_u64(&self, d: u64) -> (r: U256)
        requires
            d > 0,
        ensures
            r.as_nat() == self.as_nat() / (d as int),
    {
        let dw: u128 = d as u128;

        let t3: u128 = self.l3 as u128;
        proof {
            lemma_div_nonincreasing(t3 as int, dw as int);
        }
        let q3: u64 = (t3 / dw) as u64;
        let r3: u64 = (t3 % dw) as u64;

        let t2: u128 = (r3 as u128) * 0x1_0000_0000_0000_0000u128 + self.l2 as u128;
        proof {
            assert(t2 < dw * pow2_64());
            lemma_multiply_divide_lt(t2 as int, dw as int, pow2_64());
        }
        let q2: u64 = (t2 / dw) as u64;
        let r2: u64 = (t2 % dw) as u64;

        let t1: u128 = (r2 as u128) * 0x1_0000_0000_0000_0000u128 + self.l1 as u128;
        proof {
            assert(t1 < dw * pow2_64());
            lemma_multiply_divide_lt(t1 as int, dw as int, pow2_64());
        }
        let q1: u64 = (t1 / dw) as u64;
        let r1: u64 = (t1 % dw) as u64;

        let t0: u128 = (r1 as u128) * 0x1_0000_0000_0000_0000u128 + self.l0 as u128;
        proof {
            assert(t0 < dw * pow2_64());
            lemma_multiply_divide_lt(t0 as int, dw as int, pow2_64());
        }
        let q0: u64 = (t0 / dw) as u64;
        let r0: u64 = (t0 % dw) as u64;

        let q = U256 { l0: q0, l1: q1, l2: q2, l3: q3 };
        proof {
            let di = d as int;
            let k1 = pow2_64();
            lemma_fundamental_div_mod(t3 as int, di);
            lemma_fundamental_div_mod(t2 as int, di);
            lemma_fundamental_div_mod(t1 as int, di);
            lemma_fundamental_div_mod(t0 as int, di);
            // Working from the most significant limb down, each partial
            // dividend carries the previous remainder.
            assert(self.l3 == di * q3 + r3);
            assert(r3 * k1 + self.l2 == di * q2 + r2);
            assert(r2 * k1 + self.l1 == di * q1 + r1);
            assert(r1 * k1 + self.l0 == di * q0 + r0);
            let qv = q.as_nat();
            assert(self.as_nat() == (di * q3) * pow2_192() + (di * q2) * pow2_128() + (di * q1)
                * pow2_64() + di * q0 + r0);
            assert(di * (q0 + q1 * pow2_64() + q2 * pow2_128() + q3 * pow2_192()) == di * q0 + (di
                * q1) * pow2_64() + (di * q2) * pow2_128() + (di * q3) * pow2_192())
                by (nonlinear_arith);
            assert(self.as_nat() == di * qv + r0);
            lemma_fundamental_div_mod_converse_div(self.as_nat(), di, qv, r0 as int);
        }
        q
    }
}

} // verus!
