//! Fixed-point decimal numbers as plain parts, with the arithmetic of
//! `rust_decimal` reached through trusted wrappers.

use vstd::prelude::*;
use vstd::arithmetic::power::pow;
use rust_decimal::Decimal;

verus! {

/// Largest mantissa magnitude a `rust_decimal::Decimal` can hold (2^96 - 1).
pub const MAX_MANTISSA: i128 = 0xFFFF_FFFF_FFFF_FFFF_FFFF_FFFFi128;

/// Largest scale a `rust_decimal::Decimal` can hold.
pub const MAX_SCALE: u32 = 28u32;

/// A decimal number `mantissa / 10^scale`, in the representation of
/// `rust_decimal::Decimal`.
#[derive(Clone, Copy, Debug)]
pub struct Dec {
    pub(crate) mantissa: i128,
    pub(crate) scale: u32,
}

impl View for Dec {
    type V = (i128, u32);

    closed spec fn view(&self) -> (i128, u32) {
        (self.mantissa, self.scale)
    }
}

/// The `Dec` whose parts are `p`.
pub closed spec fn dec_of(p: (i128, u32)) -> Dec {
    Dec { mantissa: p.0, scale: p.1 }
}

/// The parts of an optional `Dec`.
pub open spec fn opt_parts(d: Option<Dec>) -> Option<(i128, u32)> {
    match d {
        Some(x) => Some(x@),
        None => None,
    }
}

/// An optional `Dec` from optional parts.
pub closed spec fn opt_dec(p: Option<(i128, u32)>) -> Option<Dec> {
    match p {
        Some(x) => Some(dec_of(x)),
        None => None,
    }
}

/// What `rust_decimal::Decimal::checked_add` returns on the given parts.
pub uninterp spec fn decimal_checked_add(a: (i128, u32), b: (i128, u32)) -> Option<(i128, u32)>;

/// What `rust_decimal::Decimal::checked_sub` returns on the given parts.
pub uninterp spec fn decimal_checked_sub(a: (i128, u32), b: (i128, u32)) -> Option<(i128, u32)>;

/// What `rust_decimal::Decimal::checked_mul` returns on the given parts.
pub uninterp spec fn decimal_checked_mul(a: (i128, u32), b: (i128, u32)) -> Option<(i128, u32)>;

/// What `rust_decimal::Decimal::checked_div` returns on the given parts.
pub uninterp spec fn decimal_checked_div(a: (i128, u32), b: (i128, u32)) -> Option<(i128, u32)>;

/// What `<rust_decimal::Decimal as FromStr>::from_str` returns on the given text.
pub uninterp spec fn decimal_from_str(s: Seq<char>) -> Option<(i128, u32)>;

/// What `<rust_decimal::Decimal as Display>::to_string` returns on the given parts.
pub uninterp spec fn decimal_to_string(a: (i128, u32)) -> Seq<char>;

/// `a + b`, `None` where `Decimal` addition overflows.
pub open spec fn add_spec(a: Dec, b: Dec) -> Option<Dec> {
    opt_dec(decimal_checked_add(a@, b@))
}

/// `a - b`, `None` where `Decimal` subtraction overflows.
pub open spec fn sub_spec(a: Dec, b: Dec) -> Option<Dec> {
    opt_dec(decimal_checked_sub(a@, b@))
}

/// `a * b`, `None` where `Decimal` multiplication overflows.
pub open spec fn mul_spec(a: Dec, b: Dec) -> Option<Dec> {
    opt_dec(decimal_checked_mul(a@, b@))
}

/// `a / b`, `None` where `Decimal` division overflows or `b` is zero.
pub open spec fn div_spec(a: Dec, b: Dec) -> Option<Dec> {
    opt_dec(decimal_checked_div(a@, b@))
}

/// The exact rational ordering of two decimals: `a < b`.
pub closed spec fn value_lt(a: Dec, b: Dec) -> bool {
    a.mantissa * pow(10, b.scale as nat) < b.mantissa * pow(10, a.scale as nat)
}

impl Dec {
    /// Within the range of `rust_decimal::Decimal`: every `Dec` is.
    #[verifier::type_invariant]
    spec fn wf(self) -> bool {
        &&& -MAX_MANTISSA <= self.mantissa <= MAX_MANTISSA
        &&& self.scale <= MAX_SCALE
    }

    /// Zero, as `Decimal::ZERO` represents it.
    pub closed spec fn spec_zero() -> Dec {
        Dec { mantissa: 0, scale: 0 }
    }

    /// The integer `n` with scale zero, as `Decimal::from` builds it.
    pub closed spec fn spec_int(n: int) -> Dec {
        Dec { mantissa: n as i128, scale: 0 }
    }

    /// The mantissa `m` of the value `m / 10^scale`.
    pub fn mantissa(&self) -> (r: i128)
        ensures
            r == self@.0,
    {
        self.mantissa
    }

    /// The scale of the value `m / 10^scale`.
    pub fn scale(&self) -> (r: u32)
        ensures
            r == self@.1,
    {
        self.scale
    }

    pub fn zero() -> (r: Dec)
        ensures
            r == Dec::spec_zero(),
            r@ == (0i128, 0u32),
    {
        Dec { mantissa: 0, scale: 0 }
    }

    /// The decimal with the given mantissa and scale; `None` where
    /// `rust_decimal` refuses the parts.
    pub fn from_parts(mantissa: i128, scale: u32) -> (r: Option<Dec>)
        ensures
            r matches Some(d) ==> d@ == (mantissa, scale),
            r is None <==> !(-MAX_MANTISSA <= mantissa <= MAX_MANTISSA && scale <= MAX_SCALE),
    {
        if scale <= MAX_SCALE && -MAX_MANTISSA <= mantissa && mantissa <= MAX_MANTISSA {
            Some(Dec { mantissa, scale })
        } else {
            None
        }
    }

    /// The integer `n` as a decimal of scale zero.
    pub fn from_i64(n: i64) -> (r: Dec)
        ensures
            r@ == (n as i128, 0u32),
            r == Dec::spec_int(n as int),
    {
        Dec { mantissa: n as i128, scale: 0 }
    }

    /// The count `n` as a decimal of scale zero.
    pub fn from_usize(n: usize) -> (r: Dec)
        ensures
            r == Dec::spec_int(n as int),
    {
        Dec { mantissa: n as i128, scale: 0 }
    }

    /// Whether the value is zero.
    pub fn is_zero(&self) -> (r: bool)
        ensures
            r == (self@.0 == 0),
    {
        self.mantissa == 0
    }
}

/// Calls `rust_decimal::Decimal::checked_add`: the result is what the
/// crate computes on these parts; results are always within range. As its
/// source shows, a zero left operand gives the right one back and a zero
/// right operand the left one, and two operands of one scale whose exact
/// sum fits give that sum at that scale.
#[verifier::external_body]
pub(crate) fn checked_add(a: Dec, b: Dec) -> (r: Option<Dec>)
    ensures
        opt_parts(r) == decimal_checked_add(a@, b@),
        r == add_spec(a, b),
        a@.0 == 0 ==> opt_parts(r) == Some(b@),
        a@.0 != 0 && b@.0 == 0 ==> opt_parts(r) == Some(a@),
        a@.1 == b@.1 && -MAX_MANTISSA <= a@.0 + b@.0 <= MAX_MANTISSA
            ==> opt_parts(r) == Some(((a@.0 + b@.0) as i128, a@.1)),
{
    let x = Decimal::from_i128_with_scale(a.mantissa, a.scale);
    let y = Decimal::from_i128_with_scale(b.mantissa, b.scale);
    match x.checked_add(y) {
        Some(d) => Some(Dec { mantissa: d.mantissa(), scale: d.scale() }),
        None => None,
    }
}

/// Calls `rust_decimal::Decimal::checked_sub`: the result is what the
/// crate computes on these parts; results are always within range.
/// As its source shows, a zero left operand gives the right one negated
/// and a zero right operand the left one, and two operands of one scale
/// whose exact difference fits give that difference at that scale.
#[verifier::external_body]
pub(crate) fn checked_sub(a: Dec, b: Dec) -> (r: Option<Dec>)
    ensures
        opt_parts(r) == decimal_checked_sub(a@, b@),
        r == sub_spec(a, b),
        a@.0 == 0 ==> opt_parts(r) == Some(((-b@.0) as i128, b@.1)),
        a@.0 != 0 && b@.0 == 0 ==> opt_parts(r) == Some(a@),
        a@.1 == b@.1 && -MAX_MANTISSA <= a@.0 - b@.0 <= MAX_MANTISSA
            ==> opt_parts(r) == Some(((a@.0 - b@.0) as i128, a@.1)),
{
    let x = Decimal::from_i128_with_scale(a.mantissa, a.scale);
    let y = Decimal::from_i128_with_scale(b.mantissa, b.scale);
    match x.checked_sub(y) {
        Some(d) => Some(Dec { mantissa: d.mantissa(), scale: d.scale() }),
        None => None,
    }
}

/// Calls `rust_decimal::Decimal::checked_mul`: the result is what the
/// crate computes on these parts; results are always within range.
#[verifier::external_body]
pub(crate) fn checked_mul(a: Dec, b: Dec) -> (r: Option<Dec>)
    ensures
        opt_parts(r) == decimal_checked_mul(a@, b@),
        r == mul_spec(a, b),
{
    let x = Decimal::from_i128_with_scale(a.mantissa, a.scale);
    let y = Decimal::from_i128_with_scale(b.mantissa, b.scale);
    match x.checked_mul(y) {
        Some(d) => Some(Dec { mantissa: d.mantissa(), scale: d.scale() }),
        None => None,
    }
}

/// Calls `rust_decimal::Decimal::checked_div`: the result is what the
/// crate computes on these parts (`None` on overflow or a zero divisor);
/// results are always within range.
#[verifier::external_body]
pub(crate) fn checked_div(a: Dec, b: Dec) -> (r: Option<Dec>)
    ensures
        opt_parts(r) == decimal_checked_div(a@, b@),
        r == div_spec(a, b),
        b.mantissa == 0 ==> r is None,
{
    let x = Decimal::from_i128_with_scale(a.mantissa, a.scale);
    let y = Decimal::from_i128_with_scale(b.mantissa, b.scale);
    match x.checked_div(y) {
        Some(d) => Some(Dec { mantissa: d.mantissa(), scale: d.scale() }),
        None => None,
    }
}

/// A chain of cross products with one strict step is strict.
proof fn lemma_cross_chain(a: int, b: int, c: int, pa: int, pb: int, pc: int)
    requires
        pa > 0,
        pb > 0,
        pc > 0,
        a * pb <= b * pa,
        b * pc <= c * pb,
        a * pb < b * pa || b * pc < c * pb,
    ensures
        a * pc < c * pa,
{
    assert(a * pb * pc <= b * pa * pc) by (nonlinear_arith)
        requires a * pb <= b * pa, pc > 0;
    assert(b * pc * pa <= c * pb * pa) by (nonlinear_arith)
        requires b * pc <= c * pb, pa > 0;
    assert(a * pb * pc < b * pa * pc || b * pc * pa < c * pb * pa) by (nonlinear_arith)
        requires a * pb < b * pa || b * pc < c * pb, pa > 0, pc > 0;
    assert((a * pc) * pb < (c * pa) * pb) by (nonlinear_arith)
        requires
            a * pb * pc <= b * pa * pc,
            b * pc * pa <= c * pb * pa,
            a * pb * pc < b * pa * pc || b * pc * pa < c * pb * pa;
    assert(a * pc < c * pa) by (nonlinear_arith)
        requires (a * pc) * pb < (c * pa) * pb, pb > 0;
}

/// Law: no decimal is below itself.
pub proof fn lemma_value_lt_irreflexive(a: Dec)
    ensures
        !value_lt(a, a),
{
}

/// Law: of two decimals at most one is below the other.
pub proof fn lemma_value_lt_asymmetric(a: Dec, b: Dec)
    ensures
        value_lt(a, b) ==> !value_lt(b, a),
{
}

/// Law: `a <= b <= c` with one step strict gives `a < c`.
pub proof fn lemma_value_lt_chain(a: Dec, b: Dec, c: Dec)
    requires
        !value_lt(b, a),
        !value_lt(c, b),
        value_lt(a, b) || value_lt(b, c),
    ensures
        value_lt(a, c),
        !value_lt(c, a),
{
    vstd::arithmetic::power::lemma_pow_positive(10, a.scale as nat);
    vstd::arithmetic::power::lemma_pow_positive(10, b.scale as nat);
    vstd::arithmetic::power::lemma_pow_positive(10, c.scale as nat);
    lemma_cross_chain(
        a.mantissa as int, b.mantissa as int, c.mantissa as int,
        pow(10, a.scale as nat), pow(10, b.scale as nat), pow(10, c.scale as nat),
    );
}

/// Calls `<Decimal as PartialOrd>::gt`: true exactly when the rational
/// value of `a` exceeds that of `b`.
#[verifier::external_body]
pub(crate) fn greater_than(a: Dec, b: Dec) -> (r: bool)
    ensures
        r == value_lt(b, a),
{
    let x = Decimal::from_i128_with_scale(a.mantissa, a.scale);
    let y = Decimal::from_i128_with_scale(b.mantissa, b.scale);
    x > y
}

/// Calls `<Decimal as FromStr>::from_str`: the result is what the crate
/// parses from this text; parsed values are always within range.
#[verifier::external_body]
pub(crate) fn parse_decimal(s: &str) -> (r: Option<Dec>)
    ensures
        r == opt_dec(decimal_from_str(s@)),
{
    match s.parse::<Decimal>() {
        Ok(d) => Some(Dec { mantissa: d.mantissa(), scale: d.scale() }),
        Err(_) => None,
    }
}

/// Calls `<Decimal as Display>::to_string`: the text is what the crate
/// prints for these parts.
#[verifier::external_body]
pub(crate) fn decimal_text(a: Dec) -> (r: String)
    ensures
        r@ == decimal_to_string(a@),
{
    Decimal::from_i128_with_scale(a.mantissa, a.scale).to_string()
}

} // verus!
