//! Conversion between economic balances and bounded voting weights.

use vstd::prelude::*;

verus! {

/// Number of values of the narrow type that wrap around once.
pub const NARROW_MODULUS: u128 = 0x1_0000_0000_0000_0000;

/// The scale factor for a given upper bound of the narrow type and a given
/// total issuance: the issuance divided by the bound, and never below one.
pub open spec fn spec_factor(max_narrow: u64, total_issuance: u128) -> int {
    let quotient = total_issuance as int / max_narrow as int;
    if quotient < 1 {
        1
    } else {
        quotient
    }
}

/// The voting weight of a balance: the balance divided by the scale factor,
/// reduced to the width of the narrow type.
pub open spec fn spec_narrow(max_narrow: u64, total_issuance: u128, x: u128) -> int {
    (x as int / spec_factor(max_narrow, total_issuance)) % (NARROW_MODULUS as int)
}

/// The balance that a voting weight stands for: the weight times the scale
/// factor.
pub open spec fn spec_widen(max_narrow: u64, total_issuance: u128, y: u128) -> int {
    y as int * spec_factor(max_narrow, total_issuance)
}

/// Scales balances into voting weights and back.
///
/// The factor is derived from the total issuance handed to each call, so it
/// always follows the current issuance.
pub struct CurrencyToVoteHandler {
    max_narrow: u64,
}

impl CurrencyToVoteHandler {
    /// The upper bound of the narrow voting-weight type.
    pub closed spec fn bound(&self) -> u64 {
        self.max_narrow
    }

    #[verifier::type_invariant]
    spec fn positive_bound(&self) -> bool {
        self.max_narrow > 0
    }

    /// A handler whose narrow type spans all of `u64`.
    pub fn new() -> (handler: Self)
        ensures
            handler.bound() == u64::MAX,
    {
        CurrencyToVoteHandler { max_narrow: u64::MAX }
    }

    /// A handler for a narrow type with the given upper bound, which must not
    /// be zero.
    pub fn with_bound(max_narrow: u64) -> (handler: Option<Self>)
        ensures
            max_narrow == 0 <==> handler is None,
            handler matches Some(h) ==> h.bound() == max_narrow,
    {
        if max_narrow == 0 {
            None
        } else {
            Some(CurrencyToVoteHandler { max_narrow })
        }
    }

    /// The upper bound of the narrow voting-weight type.
    pub fn max_narrow(&self) -> (bound: u64)
        ensures
            bound == self.bound(),
            bound > 0,
    {
        proof {
            use_type_invariant(self);
        }
        self.max_narrow
    }

    /// The scale factor under the given total issuance.
    pub fn factor(&self, total_issuance: u128) -> (factor: u128)
        ensures
            factor == spec_factor(self.bound(), total_issuance),
            factor >= 1,
    {
        proof {
            use_type_invariant(self);
        }
        let quotient: u128 = total_issuance / (self.max_narrow as u128);
        if quotient < 1 {
            1
        } else {
            quotient
        }
    }

    /// Scales a balance down to a voting weight.
    pub fn narrow(&self, total_issuance: u128, x: u128) -> (weight: u64)
        ensures
            weight == spec_narrow(self.bound(), total_issuance, x),
    {
        let scaled: u128 = x / self.factor(total_issuance);
        (scaled % NARROW_MODULUS) as u64
    }

    /// Scales a voting weight back up to a balance.
    pub fn widen(&self, total_issuance: u128, y: u128) -> (balance: u128)
        requires
            spec_widen(self.bound(), total_issuance, y) <= u128::MAX,
        ensures
            balance == spec_widen(self.bound(), total_issuance, y),
    {
        y * self.factor(total_issuance)
    }
}

/// The scale factor is at least one, whatever the total issuance.
pub proof fn factor_is_at_least_one(max_narrow: u64, total_issuance: u128)
    ensures
        spec_factor(max_narrow, total_issuance) >= 1,
{
}

/// A balance below `(bound + 1) * factor` narrows to its exact quotient by
/// the factor, and that quotient does not exceed the bound of the narrow
/// type. Balances from that limit on have a quotient above the bound.
pub proof fn narrow_stays_within_bound(max_narrow: u64, total_issuance: u128, x: u128)
    requires
        max_narrow > 0,
    ensures
        x < (max_narrow + 1) * spec_factor(max_narrow, total_issuance) <==> x as int / spec_factor(
            max_narrow,
            total_issuance,
        ) <= max_narrow,
        x < (max_narrow + 1) * spec_factor(max_narrow, total_issuance) ==> spec_narrow(
            max_narrow,
            total_issuance,
            x,
        ) == x as int / spec_factor(max_narrow, total_issuance),
{
    let f = spec_factor(max_narrow, total_issuance);
    let q = x as int / f;
    let m = max_narrow as int;
    assert(x == f * q + x as int % f && 0 <= x as int % f < f) by {
        vstd::arithmetic::div_mod::lemma_fundamental_div_mod(x as int, f);
        vstd::arithmetic::div_mod::lemma_mod_bound(x as int, f);
    }
    if q <= m {
        assert(f * q <= f * m) by (nonlinear_arith)
            requires
                q <= m,
                f >= 1,
        ;
        assert((m + 1) * f == f * m + f) by (nonlinear_arith);
        assert(0 <= q) by (nonlinear_arith)
            requires
                x == f * q + x as int % f,
                x as int % f < f,
                f >= 1,
                x >= 0,
        ;
        assert(q % (NARROW_MODULUS as int) == q) by {
            vstd::arithmetic::div_mod::lemma_small_mod(q as nat, NARROW_MODULUS as nat);
        }
    } else {
        assert(f * q >= f * (m + 1)) by (nonlinear_arith)
            requires
                q >= m + 1,
                f >= 1,
        ;
        assert((m + 1) * f == f * (m + 1)) by (nonlinear_arith);
    }
}

/// Every weight of the narrow type widens without overflow: the product of
/// a weight up to the bound and the scale factor fits a balance.
pub proof fn widen_of_narrow_weight_fits(max_narrow: u64, total_issuance: u128, y: u128)
    requires
        max_narrow > 0,
        y <= max_narrow,
    ensures
        0 <= spec_widen(max_narrow, total_issuance, y) <= u128::MAX,
{
    let f = spec_factor(max_narrow, total_issuance);
    let m = max_narrow as int;
    let i = total_issuance as int;
    assert(0 <= y * f <= m * f) by (nonlinear_arith)
        requires
            0 <= y <= m,
            f >= 1,
    ;
    if i / m >= 1 {
        assert(m * (i / m) <= i) by {
            vstd::arithmetic::div_mod::lemma_fundamental_div_mod(i, m);
            vstd::arithmetic::div_mod::lemma_mod_bound(i, m);
        }
    }
}

/// Narrowing and then widening loses less than one factor: for a balance
/// whose quotient fits the narrow type, the round trip gives a balance that
/// is not above the balance it started from and is less than one factor
/// below it.
pub proof fn narrow_then_widen_is_lossy(max_narrow: u64, total_issuance: u128, x: u128)
    requires
        max_narrow > 0,
        x < (max_narrow + 1) * spec_factor(max_narrow, total_issuance),
    ensures
        spec_narrow(max_narrow, total_issuance, x) * spec_factor(max_narrow, total_issuance) <= x,
        x < spec_narrow(max_narrow, total_issuance, x) * spec_factor(max_narrow, total_issuance)
            + spec_factor(max_narrow, total_issuance),
{
    narrow_stays_within_bound(max_narrow, total_issuance, x);
    let f = spec_factor(max_narrow, total_issuance);
    let q = x as int / f;
    assert(x == f * q + x as int % f && 0 <= x as int % f < f) by {
        vstd::arithmetic::div_mod::lemma_fundamental_div_mod(x as int, f);
        vstd::arithmetic::div_mod::lemma_mod_bound(x as int, f);
    }
    assert(q * f == f * q) by (nonlinear_arith);
}

} // verus!
