//! The price of ether in dollars, decoded from the square-root price that a
//! Uniswap v3 USDC/WETH pool keeps in `slot0`.
//!
//! The pool stores `sqrt(wei per USDC unit)` as a Q64.96 fixed-point number
//! of 160 bits. With `raw` that number, the pool's price ratio is
//! `raw^2 / 2^192` and one ether is worth `10^12 * 2^192 / raw^2` dollars.
//!
//! The price is kept as a whole number of units of `10^-39` dollars, rounded
//! down. That unit is fine enough for every square-root price of 160 bits:
//! the smallest price there is has more than `10^12` of them, so rounding
//! takes less than one part in `10^12` from any price.

use vstd::prelude::*;
use vstd::arithmetic::div_mod::{lemma_fundamental_div_mod, lemma_mod_bound};
use alloy::primitives::Uint;
use crate::error::GasError;
use crate::wide::{lemma_halves, lemma_limbs_are_determined, lemma_value_of_sixteen, limbs_value, pow2_1024, pow2_128, pow2_192, pow2_64, Wide};

verus! {

/// The unsigned integers of `ruint`, which `alloy` hands out as `U160` and
/// the like. Nothing is known of what is inside one but what `u160_limbs`
/// names.
#[verifier::external_type_specification]
#[verifier::external_body]
pub struct ExUint<const BITS: usize, const LIMBS: usize>(Uint<BITS, LIMBS>);

/// The little-endian limbs that a 160-bit `Uint` of `ruint` holds.
pub uninterp spec fn u160_limbs(n: Uint<160, 3>) -> Seq<u64>;

/// Two to the power 160: one more than the largest square-root price.
pub open spec fn pow2_160() -> nat {
    0x1_0000_0000_0000_0000_0000_0000_0000_0000_0000_0000nat
}

/// The decimal places of a price: a price counts units of `10^-39` dollars.
pub const USD_PRICE_DECIMALS: u32 = 39;

/// What a price times its price ratio gives: `10^51 * 2^192`, which is
/// `10^12` dollars in units of `10^-39` over a ratio with 192 fractional
/// bits.
pub open spec fn price_scale() -> nat {
    1_000_000_000_000_000_000_000_000_000_000_000_000_000_000_000_000_000nat * pow2_192()
}

/// The least that a price can be, in its units: a million millions.
pub open spec fn least_price() -> nat {
    1_000_000_000_000
}

/// Three limbs as a weighted sum.
pub proof fn lemma_value_of_three(s: Seq<u64>)
    requires
        s.len() == 3,
    ensures
        limbs_value(s) == s[0] + pow2_64() * s[1] + pow2_128() * s[2],
{
    let s1 = s.drop_first();
    let s2 = s1.drop_first();
    let s3 = s2.drop_first();
    assert(limbs_value(s3) == 0);
    assert(limbs_value(s2) == s[2] + pow2_64() * limbs_value(s3));
    assert(limbs_value(s1) == s[1] + pow2_64() * limbs_value(s2));
    assert(limbs_value(s) == s[0] + pow2_64() * limbs_value(s1));
}

/// A pool's square-root price: an unsigned Q64.96 number of 160 bits, held
/// as three little-endian limbs of which the last uses 32 bits.
#[derive(Clone, Copy, Debug)]
pub struct SqrtPriceX96 {
    limbs: [u64; 3],
}

impl View for SqrtPriceX96 {
    type V = nat;

    closed spec fn view(&self) -> nat {
        limbs_value(self.limbs@)
    }
}

impl SqrtPriceX96 {
    #[verifier::type_invariant]
    spec fn fits(self) -> bool {
        self.limbs[2] <= 0xffff_ffff
    }

    /// A square-root price is determined by its value: two of one value
    /// are the same.
    pub proof fn lemma_determined(self, other: SqrtPriceX96)
        requires
            self@ == other@,
        ensures
            self == other,
    {
        lemma_limbs_are_determined(self.limbs@, other.limbs@);
        assert(self.limbs == other.limbs);
    }

    /// The price with these limbs, unless the last limb goes beyond 32 bits.
    pub fn from_limbs(limbs: [u64; 3]) -> (r: Option<SqrtPriceX96>)
        ensures
            r is Some <==> limbs[2] <= 0xffff_ffff,
            r matches Some(p) ==> p@ == limbs_value(limbs@),
    {
        if limbs[2] <= 0xffff_ffff {
            Some(SqrtPriceX96 { limbs })
        } else {
            None
        }
    }

    /// The price that a pool handed out as a 160-bit integer.
    pub fn from_u160(n: Uint<160, 3>) -> (p: SqrtPriceX96)
        ensures
            p@ == limbs_value(u160_limbs(n)),
    {
        SqrtPriceX96::from_limbs(u160_into_limbs(n)).unwrap()
    }

    /// The price with this value.
    pub fn from_u128(x: u128) -> (p: SqrtPriceX96)
        ensures
            p@ == x,
    {
        let low: u64 = (x & 0xffff_ffff_ffff_ffff) as u64;
        let high: u64 = (x >> 64) as u64;
        let limbs: [u64; 3] = [low, high, 0];
        proof {
            lemma_halves(x);
            lemma_value_of_three(limbs@);
        }
        SqrtPriceX96 { limbs }
    }

    /// The little-endian limbs: bits 0 to 63, 64 to 127 and 128 to 159.
    pub fn limbs(&self) -> (l: [u64; 3])
        ensures
            limbs_value(l@) == self@,
            l[2] <= 0xffff_ffff,
            self@ < pow2_160(),
    {
        proof {
            use_type_invariant(self);
            lemma_value_of_three(self.limbs@);
        }
        self.limbs
    }

    /// The same number with room to be squared.
    pub fn to_wide(&self) -> (w: Wide)
        ensures
            w@ == self@,
            w@ < pow2_160(),
    {
        let limbs: [u64; 16] = [
            self.limbs[0],
            self.limbs[1],
            self.limbs[2],
            0,
            0,
            0,
            0,
            0,
            0,
            0,
            0,
            0,
            0,
            0,
            0,
            0,
        ];
        proof {
            use_type_invariant(self);
            lemma_value_of_three(self.limbs@);
            lemma_value_of_sixteen(limbs@);
        }
        Wide::from_limbs(limbs)
    }
}

/// The price of one ether at the square-root price `root`, in units of
/// `10^-39` dollars, rounded down. `root` is not zero.
pub open spec fn price_of_root(root: nat) -> nat {
    price_scale() / (root * root)
}

/// The price of one ether, in units of `10^-39` dollars.
#[derive(Clone, Copy, Debug)]
pub struct UsdPrice {
    units: Wide,
}

impl View for UsdPrice {
    type V = nat;

    closed spec fn view(&self) -> nat {
        self.units@
    }
}

impl UsdPrice {
    #[verifier::type_invariant]
    spec fn fits(self) -> bool {
        self.units@ <= price_scale()
    }

    /// A price is determined by its value: two of one value are the same.
    pub proof fn lemma_determined(self, other: UsdPrice)
        requires
            self@ == other@,
        ensures
            self == other,
    {
        self.units.lemma_determined(other.units);
    }

    /// The price of this many millionths of a dollar for one ether.
    pub fn from_micro_usd(micro_usd: u128) -> (p: UsdPrice)
        ensures
            p@ == micro_usd * 1_000_000_000_000_000_000_000_000_000_000_000nat,
    {
        let unit_limbs: [u64; 16] = [
            4089650035136921600,
            54210108624275,
            0,
            0,
            0,
            0,
            0,
            0,
            0,
            0,
            0,
            0,
            0,
            0,
            0,
            0,
        ];
        let per_micro: Wide = Wide::from_limbs(unit_limbs);
        let count: Wide = Wide::from_u128(micro_usd);
        proof {
            lemma_value_of_sixteen(unit_limbs@);
            lemma_micro_usd_fits(micro_usd as nat);
        }
        UsdPrice { units: count.checked_mul(&per_micro).unwrap() }
    }

    /// The units of `10^-39` dollars that one ether costs.
    pub fn units(&self) -> (w: Wide)
        ensures
            w@ == self@,
            w@ <= price_scale(),
    {
        proof {
            use_type_invariant(self);
        }
        self.units
    }
}

/// Whether `r` is what decoding the square-root price `root` gives: a
/// failure for zero, else the price of ether.
pub open spec fn is_decoding(root: nat, r: Result<UsdPrice, GasError>) -> bool {
    if root == 0 {
        r == Err::<UsdPrice, GasError>(GasError::OracleDecodeFailure)
    } else {
        r is Ok && r->Ok_0@ == price_of_root(root)
    }
}

/// Decodes a pool's square-root price into the price of ether.
///
/// A square-root price of zero stands for a price ratio of zero, whose
/// inverse does not exist: that is the one input that is turned down. Every
/// other one has a price, and none of them is zero: the least is a million
/// million units.
pub fn eth_usd_price(raw: &SqrtPriceX96) -> (r: Result<UsdPrice, GasError>)
    ensures
        is_decoding(raw@, r),
        r matches Ok(price) ==> price@ >= least_price(),
{
    let root: Wide = raw.to_wide();
    if root.is_zero() {
        return Err(GasError::OracleDecodeFailure);
    }
    let scale_limbs: [u64; 16] = [
        0,
        0,
        0,
        1578511669393358848,
        13258964796087472617,
        2938735877055,
        0,
        0,
        0,
        0,
        0,
        0,
        0,
        0,
        0,
        0,
    ];
    let scale: Wide = Wide::from_limbs(scale_limbs);
    proof {
        lemma_value_of_sixteen(scale_limbs@);
        lemma_square_bounds(raw@);
        lemma_price_is_fine(raw@);
    }
    let ratio: Wide = root.checked_mul(&root).unwrap();
    let quotient: Wide = scale.checked_div(&ratio).unwrap();
    proof {
        lemma_quotient_bound(scale@, ratio@);
    }
    Ok(UsdPrice { units: quotient })
}

/// Decoding is a function of the square-root price: what is decoded
/// depends on the number alone, and two decodings of one number give the
/// same result, a failure or a price.
pub proof fn lemma_decoding_is_a_function(
    first_root: SqrtPriceX96,
    second_root: SqrtPriceX96,
    first: Result<UsdPrice, GasError>,
    second: Result<UsdPrice, GasError>,
)
    requires
        first_root@ == second_root@,
        is_decoding(first_root@, first),
        is_decoding(second_root@, second),
    ensures
        first_root == second_root,
        first == second,
{
    first_root.lemma_determined(second_root);
    if first_root@ != 0 {
        first->Ok_0.lemma_determined(second->Ok_0);
    }
}

/// The decoded price is the inverse of the pool's price ratio as closely as
/// a whole number of units can be: times the ratio `root^2 / 2^192` it
/// gives back `10^12` dollars, short by less than one ratio.
pub proof fn lemma_price_inverts_ratio(root: nat)
    requires
        root != 0,
    ensures
        price_of_root(root) * (root * root) <= price_scale(),
        price_scale() < (price_of_root(root) + 1) * (root * root),
{
    let scale: int = price_scale() as int;
    let ratio: int = (root * root) as int;
    assert(ratio > 0) by (nonlinear_arith)
        requires
            ratio == root * root,
            root != 0,
    ;
    lemma_fundamental_div_mod(scale, ratio);
    lemma_mod_bound(scale, ratio);
    assert(price_of_root(root) == scale / ratio);
    assert((scale / ratio + 1) * ratio == ratio * (scale / ratio) + ratio) by (nonlinear_arith);
    assert((scale / ratio) * ratio == ratio * (scale / ratio)) by (nonlinear_arith);
}

/// Every square-root price of 160 bits but zero decodes to a price of at
/// least a million million units, so a price is never zero, and rounding
/// down takes less than one part in `10^12` of what the ratio gives back.
pub proof fn lemma_price_is_fine(root: nat)
    requires
        0 < root < pow2_160(),
    ensures
        price_of_root(root) >= least_price(),
        least_price() * (price_scale() - price_of_root(root) * (root * root)) < price_scale(),
{
    let price = price_of_root(root);
    let ratio = root * root;
    lemma_price_inverts_ratio(root);
    lemma_square_bounds(root);
    assert(least_price() * pow2_160() * pow2_160() <= price_scale());
    assert(least_price() * ratio < price_scale()) by (nonlinear_arith)
        requires
            0 < ratio < pow2_160() * pow2_160(),
            least_price() * pow2_160() * pow2_160() <= price_scale(),
    ;
    assert(price >= least_price()) by (nonlinear_arith)
        requires
            price_scale() < (price + 1) * ratio,
            least_price() * ratio < price_scale(),
            ratio > 0,
    ;
    assert(least_price() * (price_scale() - price * ratio) < price_scale()) by (nonlinear_arith)
        requires
            price * ratio <= price_scale(),
            price_scale() < (price + 1) * ratio,
            least_price() * ratio < price_scale(),
            ratio > 0,
    ;
}

/// The round trip: take a price ratio, written as `ratio / 2^192`, and the
/// square-root price made from it, the whole part of its root. For every
/// root from two million up, the decoded price gives the ratio back within
/// one part in a million: `10^12` dollars over the price, which is
/// `price_scale()` over the price in the same writing, differs from `ratio`
/// by at most a millionth of it.
pub proof fn lemma_round_trip(ratio: nat, root: nat)
    requires
        root * root <= ratio < (root + 1) * (root + 1),
        2_000_000 <= root < pow2_160(),
    ensures
        1_000_000 * (price_scale() - ratio * price_of_root(root)) <= ratio * price_of_root(root),
        1_000_000 * (ratio * price_of_root(root) - price_scale()) <= ratio * price_of_root(root),
{
    let price = price_of_root(root);
    let square = root * root;
    let scale = price_scale();
    lemma_price_inverts_ratio(root);
    lemma_price_is_fine(root);
    assert(ratio * price >= square * price) by (nonlinear_arith)
        requires
            ratio >= square,
    ;
    assert(square * price == price * square) by (nonlinear_arith);
    assert((price + 1) * square == price * square + square) by (nonlinear_arith);
    assert(1_000_000 * ratio <= ratio * price) by (nonlinear_arith)
        requires
            price >= 1_000_000,
    ;
    assert(ratio - square <= 2 * root) by (nonlinear_arith)
        requires
            ratio < (root + 1) * (root + 1),
            square == root * root,
    ;
    assert(2_000_000 * root <= square) by (nonlinear_arith)
        requires
            square == root * root,
            root >= 2_000_000,
    ;
    assert(ratio * price - price * square == (ratio - square) * price) by (nonlinear_arith);
    assert(1_000_000 * ((ratio - square) * price) <= ratio * price) by (nonlinear_arith)
        requires
            0 <= ratio - square <= 2 * root,
            2_000_000 * root <= square,
            square <= ratio,
    ;
}

/// What is read from a 160-bit integer depends on the integer alone: two
/// readings of one integer are the same square-root price.
pub proof fn lemma_reading_is_a_function(n: Uint<160, 3>, first: SqrtPriceX96, second: SqrtPriceX96)
    requires
        first@ == limbs_value(u160_limbs(n)),
        second@ == limbs_value(u160_limbs(n)),
    ensures
        first == second,
{
    first.lemma_determined(second);
}

/// A price given in millionths of a dollar is within the range of prices.
proof fn lemma_micro_usd_fits(micro_usd: nat)
    by (nonlinear_arith)
    requires
        micro_usd <= u128::MAX,
    ensures
        micro_usd * 1_000_000_000_000_000_000_000_000_000_000_000nat <= price_scale(),
        micro_usd * 1_000_000_000_000_000_000_000_000_000_000_000nat < pow2_1024(),
{
    assert(micro_usd * 1_000_000_000_000_000_000_000_000_000_000_000nat
        <= 0xffff_ffff_ffff_ffff_ffff_ffff_ffff_ffffnat
        * 1_000_000_000_000_000_000_000_000_000_000_000nat);
}

/// The square of a nonzero number below two to the power 160 is nonzero and
/// below two to the power 320.
proof fn lemma_square_bounds(raw: nat)
    by (nonlinear_arith)
    requires
        0 < raw < pow2_160(),
    ensures
        0 < raw * raw < pow2_160() * pow2_160(),
        raw * raw < pow2_1024(),
{
    assert(raw * raw < pow2_160() * pow2_160());
}

/// Dividing by a nonzero number does not enlarge.
proof fn lemma_quotient_bound(n: nat, d: nat)
    by (nonlinear_arith)
    requires
        d > 0,
    ensures
        n / d <= n,
{
}

/// Calls `Uint::<160, 3>::into_limbs` of `ruint`. Trusted: it hands out the
/// limbs that the integer holds, least significant first, and the last of
/// them has no bit set beyond the 160 that the type has.
#[verifier::external_body]
fn u160_into_limbs(n: Uint<160, 3>) -> (limbs: [u64; 3])
    ensures
        limbs@ == u160_limbs(n),
        limbs[2] <= 0xffff_ffff,
{
    n.into_limbs()
}

} // verus!
