//! Unsigned 1024-bit integers held as sixteen little-endian 64-bit limbs.
//!
//! The price of ether is kept fine enough to lose nothing that a double
//! keeps, and a cost in dollars is its product with a cost in wei: both
//! outgrow `u128`, the product outgrows 512 bits. `Wide` carries them
//! exactly. Multiplication and division are done by `ruint`; what they
//! return is taken on trust and stated in the contracts of the two private
//! wrappers at the end of this file.

use vstd::prelude::*;
use vstd::arithmetic::div_mod::lemma_fundamental_div_mod_converse;
use alloy::primitives::aliases::U1024;

verus! {

/// Two to the power 64: the weight of the second limb.
pub open spec fn pow2_64() -> nat {
    0x1_0000_0000_0000_0000nat
}

/// Two to the power 128.
pub open spec fn pow2_128() -> nat {
    0x1_0000_0000_0000_0000_0000_0000_0000_0000nat
}

/// Two to the power 192.
pub open spec fn pow2_192() -> nat {
    0x1_0000_0000_0000_0000_0000_0000_0000_0000_0000_0000_0000_0000nat
}

/// Two to the power 256.
pub open spec fn pow2_256() -> nat {
    0x1_0000_0000_0000_0000_0000_0000_0000_0000_0000_0000_0000_0000_0000_0000_0000_0000nat
}

/// Two to the power 320.
pub open spec fn pow2_320() -> nat {
    0x1_0000_0000_0000_0000_0000_0000_0000_0000_0000_0000_0000_0000_0000_0000_0000_0000_0000_0000_0000_0000nat
}

/// Two to the power 384.
pub open spec fn pow2_384() -> nat {
    0x1_0000_0000_0000_0000_0000_0000_0000_0000_0000_0000_0000_0000_0000_0000_0000_0000_0000_0000_0000_0000_0000_0000_0000_0000nat
}

/// Two to the power 448.
pub open spec fn pow2_448() -> nat {
    0x1_0000_0000_0000_0000_0000_0000_0000_0000_0000_0000_0000_0000_0000_0000_0000_0000_0000_0000_0000_0000_0000_0000_0000_0000_0000_0000_0000_0000nat
}

/// Two to the power 512.
pub open spec fn pow2_512() -> nat {
    0x1_0000_0000_0000_0000_0000_0000_0000_0000_0000_0000_0000_0000_0000_0000_0000_0000_0000_0000_0000_0000_0000_0000_0000_0000_0000_0000_0000_0000_0000_0000_0000_0000nat
}

/// Two to the power 576.
pub open spec fn pow2_576() -> nat {
    0x1_0000_0000_0000_0000_0000_0000_0000_0000_0000_0000_0000_0000_0000_0000_0000_0000_0000_0000_0000_0000_0000_0000_0000_0000_0000_0000_0000_0000_0000_0000_0000_0000_0000_0000_0000_0000nat
}

/// Two to the power 640.
pub open spec fn pow2_640() -> nat {
    0x1_0000_0000_0000_0000_0000_0000_0000_0000_0000_0000_0000_0000_0000_0000_0000_0000_0000_0000_0000_0000_0000_0000_0000_0000_0000_0000_0000_0000_0000_0000_0000_0000_0000_0000_0000_0000_0000_0000_0000_0000nat
}

/// Two to the power 704.
pub open spec fn pow2_704() -> nat {
    0x1_0000_0000_0000_0000_0000_0000_0000_0000_0000_0000_0000_0000_0000_0000_0000_0000_0000_0000_0000_0000_0000_0000_0000_0000_0000_0000_0000_0000_0000_0000_0000_0000_0000_0000_0000_0000_0000_0000_0000_0000_0000_0000_0000_0000nat
}

/// Two to the power 768.
pub open spec fn pow2_768() -> nat {
    0x1_0000_0000_0000_0000_0000_0000_0000_0000_0000_0000_0000_0000_0000_0000_0000_0000_0000_0000_0000_0000_0000_0000_0000_0000_0000_0000_0000_0000_0000_0000_0000_0000_0000_0000_0000_0000_0000_0000_0000_0000_0000_0000_0000_0000_0000_0000_0000_0000nat
}

/// Two to the power 832.
pub open spec fn pow2_832() -> nat {
    0x1_0000_0000_0000_0000_0000_0000_0000_0000_0000_0000_0000_0000_0000_0000_0000_0000_0000_0000_0000_0000_0000_0000_0000_0000_0000_0000_0000_0000_0000_0000_0000_0000_0000_0000_0000_0000_0000_0000_0000_0000_0000_0000_0000_0000_0000_0000_0000_0000_0000_0000_0000_0000nat
}

/// Two to the power 896.
pub open spec fn pow2_896() -> nat {
    0x1_0000_0000_0000_0000_0000_0000_0000_0000_0000_0000_0000_0000_0000_0000_0000_0000_0000_0000_0000_0000_0000_0000_0000_0000_0000_0000_0000_0000_0000_0000_0000_0000_0000_0000_0000_0000_0000_0000_0000_0000_0000_0000_0000_0000_0000_0000_0000_0000_0000_0000_0000_0000_0000_0000_0000_0000nat
}

/// Two to the power 960.
pub open spec fn pow2_960() -> nat {
    0x1_0000_0000_0000_0000_0000_0000_0000_0000_0000_0000_0000_0000_0000_0000_0000_0000_0000_0000_0000_0000_0000_0000_0000_0000_0000_0000_0000_0000_0000_0000_0000_0000_0000_0000_0000_0000_0000_0000_0000_0000_0000_0000_0000_0000_0000_0000_0000_0000_0000_0000_0000_0000_0000_0000_0000_0000_0000_0000_0000_0000nat
}

/// Two to the power 1024: one more than the largest `Wide`.
pub open spec fn pow2_1024() -> nat {
    0x1_0000_0000_0000_0000_0000_0000_0000_0000_0000_0000_0000_0000_0000_0000_0000_0000_0000_0000_0000_0000_0000_0000_0000_0000_0000_0000_0000_0000_0000_0000_0000_0000_0000_0000_0000_0000_0000_0000_0000_0000_0000_0000_0000_0000_0000_0000_0000_0000_0000_0000_0000_0000_0000_0000_0000_0000_0000_0000_0000_0000_0000_0000_0000_0000nat
}

/// The natural number that little-endian limbs stand for.
pub open spec fn limbs_value(limbs: Seq<u64>) -> nat
    decreases limbs.len(),
{
    if limbs.len() == 0 {
        0
    } else {
        limbs[0] as nat + pow2_64() * limbs_value(limbs.drop_first())
    }
}

/// Sixteen limbs as a weighted sum, and the bound that follows.
pub proof fn lemma_value_of_sixteen(s: Seq<u64>)
    requires
        s.len() == 16,
    ensures
        limbs_value(s) == s[0] + pow2_64() * s[1] + pow2_128() * s[2] + pow2_192() * s[3]
            + pow2_256() * s[4] + pow2_320() * s[5] + pow2_384() * s[6] + pow2_448() * s[7]
            + pow2_512() * s[8]
            + pow2_576() * s[9] + pow2_640() * s[10] + pow2_704() * s[11] + pow2_768() * s[12]
            + pow2_832() * s[13] + pow2_896() * s[14] + pow2_960() * s[15],
        limbs_value(s) < pow2_1024(),
{
    let s1 = s.drop_first();
    let s2 = s1.drop_first();
    let s3 = s2.drop_first();
    let s4 = s3.drop_first();
    let s5 = s4.drop_first();
    let s6 = s5.drop_first();
    let s7 = s6.drop_first();
    let s8 = s7.drop_first();
    let s9 = s8.drop_first();
    let s10 = s9.drop_first();
    let s11 = s10.drop_first();
    let s12 = s11.drop_first();
    let s13 = s12.drop_first();
    let s14 = s13.drop_first();
    let s15 = s14.drop_first();
    let s16 = s15.drop_first();
    assert(limbs_value(s16) == 0);
    assert(limbs_value(s15) == s[15] + pow2_64() * limbs_value(s16));
    assert(limbs_value(s14) == s[14] + pow2_64() * limbs_value(s15));
    assert(limbs_value(s13) == s[13] + pow2_64() * limbs_value(s14));
    assert(limbs_value(s12) == s[12] + pow2_64() * limbs_value(s13));
    assert(limbs_value(s11) == s[11] + pow2_64() * limbs_value(s12));
    assert(limbs_value(s10) == s[10] + pow2_64() * limbs_value(s11));
    assert(limbs_value(s9) == s[9] + pow2_64() * limbs_value(s10));
    assert(limbs_value(s8) == s[8] + pow2_64() * limbs_value(s9));
    assert(limbs_value(s7) == s[7] + pow2_64() * limbs_value(s8));
    assert(limbs_value(s6) == s[6] + pow2_64() * limbs_value(s7));
    assert(limbs_value(s5) == s[5] + pow2_64() * limbs_value(s6));
    assert(limbs_value(s4) == s[4] + pow2_64() * limbs_value(s5));
    assert(limbs_value(s3) == s[3] + pow2_64() * limbs_value(s4));
    assert(limbs_value(s2) == s[2] + pow2_64() * limbs_value(s3));
    assert(limbs_value(s1) == s[1] + pow2_64() * limbs_value(s2));
    assert(limbs_value(s) == s[0] + pow2_64() * limbs_value(s1));
}

/// Limbs are determined by the number they stand for: two runs of limbs of
/// one length and one value are the same limbs.
pub proof fn lemma_limbs_are_determined(s: Seq<u64>, t: Seq<u64>)
    requires
        s.len() == t.len(),
        limbs_value(s) == limbs_value(t),
    ensures
        s == t,
    decreases s.len(),
{
    if s.len() > 0 {
        let value = limbs_value(s) as int;
        let base = pow2_64() as int;
        lemma_fundamental_div_mod_converse(
            value,
            base,
            limbs_value(s.drop_first()) as int,
            s[0] as int,
        );
        lemma_fundamental_div_mod_converse(
            value,
            base,
            limbs_value(t.drop_first()) as int,
            t[0] as int,
        );
        lemma_limbs_are_determined(s.drop_first(), t.drop_first());
        assert(s =~= seq![s[0]] + s.drop_first());
        assert(t =~= seq![t[0]] + t.drop_first());
    }
    assert(s =~= t);
}

/// A `u128` is its low half plus two to the power 64 times its high half,
/// and each half fits in a limb.
pub proof fn lemma_halves(x: u128)
    by (bit_vector)
    ensures
        x == (x & 0xffff_ffff_ffff_ffff) + 0x1_0000_0000_0000_0000 * (x >> 64),
        (x & 0xffff_ffff_ffff_ffff) <= 0xffff_ffff_ffff_ffff,
        (x >> 64) <= 0xffff_ffff_ffff_ffff,
{
}

/// An unsigned integer below two to the power 1024.
#[derive(Clone, Copy, Debug)]
pub struct Wide {
    limbs: [u64; 16],
}

impl View for Wide {
    type V = nat;

    closed spec fn view(&self) -> nat {
        limbs_value(self.limbs@)
    }
}

impl Wide {
    /// Every `Wide` is below two to the power 1024.
    pub proof fn lemma_bounded(self)
        ensures
            self@ < pow2_1024(),
    {
        lemma_value_of_sixteen(self.limbs@);
    }

    /// A `Wide` is determined by its value: two of one value are the same.
    pub proof fn lemma_determined(self, other: Wide)
        requires
            self@ == other@,
        ensures
            self == other,
    {
        lemma_limbs_are_determined(self.limbs@, other.limbs@);
        assert(self.limbs == other.limbs);
    }

    /// The number whose little-endian limbs are `limbs`.
    pub fn from_limbs(limbs: [u64; 16]) -> (w: Wide)
        ensures
            w@ == limbs_value(limbs@),
    {
        Wide { limbs }
    }

    /// The little-endian limbs of this number.
    pub fn limbs(&self) -> (l: [u64; 16])
        ensures
            limbs_value(l@) == self@,
    {
        self.limbs
    }

    /// The number `x`.
    pub fn from_u64(x: u64) -> (w: Wide)
        ensures
            w@ == x,
    {
        let limbs: [u64; 16] = [x, 0, 0, 0, 0, 0, 0, 0, 0, 0, 0, 0, 0, 0, 0, 0];
        proof {
            lemma_value_of_sixteen(limbs@);
        }
        Wide { limbs }
    }

    /// The number `x`.
    pub fn from_u128(x: u128) -> (w: Wide)
        ensures
            w@ == x,
    {
        let low: u64 = (x & 0xffff_ffff_ffff_ffff) as u64;
        let high: u64 = (x >> 64) as u64;
        let limbs: [u64; 16] = [low, high, 0, 0, 0, 0, 0, 0, 0, 0, 0, 0, 0, 0, 0, 0];
        proof {
            lemma_halves(x);
            lemma_value_of_sixteen(limbs@);
        }
        Wide { limbs }
    }

    /// This number as a `u128`, where it fits.
    pub fn to_u128(&self) -> (r: Option<u128>)
        ensures
            r is Some <==> self@ <= u128::MAX,
            r matches Some(x) ==> x == self@,
    {
        proof {
            lemma_value_of_sixteen(self.limbs@);
        }
        if self.limbs[2] == 0 && self.limbs[3] == 0 && self.limbs[4] == 0 && self.limbs[5] == 0
            && self.limbs[6] == 0 && self.limbs[7] == 0 && self.limbs[8] == 0 && self.limbs[9] == 0
            && self.limbs[10] == 0 && self.limbs[11] == 0 && self.limbs[12] == 0 && self.limbs[13] == 0
            && self.limbs[14] == 0 && self.limbs[15] == 0 {
            let low: u128 = self.limbs[0] as u128;
            let high: u128 = self.limbs[1] as u128;
            assert(high * 0x1_0000_0000_0000_0000 + low <= u128::MAX) by (nonlinear_arith)
                requires
                    high <= 0xffff_ffff_ffff_ffff,
                    low <= 0xffff_ffff_ffff_ffff,
            ;
            Some(high * 0x1_0000_0000_0000_0000 + low)
        } else {
            None
        }
    }

    /// Whether this is zero.
    pub fn is_zero(&self) -> (z: bool)
        ensures
            z == (self@ == 0),
    {
        proof {
            lemma_value_of_sixteen(self.limbs@);
        }
        self.limbs[0] == 0 && self.limbs[1] == 0 && self.limbs[2] == 0 && self.limbs[3] == 0
            && self.limbs[4] == 0 && self.limbs[5] == 0 && self.limbs[6] == 0 && self.limbs[7] == 0
            && self.limbs[8] == 0 && self.limbs[9] == 0 && self.limbs[10] == 0 && self.limbs[11] == 0
            && self.limbs[12] == 0 && self.limbs[13] == 0 && self.limbs[14] == 0 && self.limbs[15] == 0
    }

    /// The product, where it stays below two to the power 1024.
    pub fn checked_mul(&self, rhs: &Wide) -> (r: Option<Wide>)
        ensures
            r is Some <==> self@ * rhs@ < pow2_1024(),
            r matches Some(p) ==> p@ == self@ * rhs@,
    {
        match u1024_checked_mul(&self.limbs, &rhs.limbs) {
            Some(limbs) => Some(Wide { limbs }),
            None => None,
        }
    }

    /// The quotient rounded down, unless the divisor is zero.
    pub fn checked_div(&self, rhs: &Wide) -> (r: Option<Wide>)
        ensures
            r is Some <==> rhs@ != 0,
            r matches Some(q) ==> q@ == self@ / rhs@,
    {
        match u1024_checked_div(&self.limbs, &rhs.limbs) {
            Some(limbs) => Some(Wide { limbs }),
            None => None,
        }
    }
}

/// Calls `Uint::<1024, 16>::checked_mul` of `ruint` on the numbers with
/// these limbs. Trusted: it returns the product where that is below two to
/// the power 1024, and nothing otherwise.
#[verifier::external_body]
fn u1024_checked_mul(a: &[u64; 16], b: &[u64; 16]) -> (r: Option<[u64; 16]>)
    ensures
        r is Some <==> limbs_value(a@) * limbs_value(b@) < pow2_1024(),
        r matches Some(p) ==> limbs_value(p@) == limbs_value(a@) * limbs_value(b@),
{
    U1024::from_limbs(*a).checked_mul(U1024::from_limbs(*b)).map(|p| p.into_limbs())
}

/// Calls `Uint::<1024, 16>::checked_div` of `ruint` on the numbers with
/// these limbs. Trusted: it returns the quotient rounded down where the
/// divisor is not zero, and nothing where it is.
#[verifier::external_body]
fn u1024_checked_div(a: &[u64; 16], b: &[u64; 16]) -> (r: Option<[u64; 16]>)
    ensures
        r is Some <==> limbs_value(b@) != 0,
        r matches Some(q) ==> limbs_value(q@) == limbs_value(a@) / limbs_value(b@),
{
    U1024::from_limbs(*a).checked_div(U1024::from_limbs(*b)).map(|q| q.into_limbs())
}

} // verus!
