//! Fixed-point decimal amounts.
//!
//! A `Decimal` holds exactly what `rust_decimal` stores: a signed mantissa
//! of at most 96 bits and a scale between 0 and 28, its value being
//! `mantissa / 10^scale`.  The arithmetic itself is done by `rust_decimal`
//! behind the trusted functions of this module; verified code reasons about
//! the results through the names `decimal_add`, `decimal_sub`,
//! `decimal_mul` and `decimal_div` and the facts stated beside them.
use vstd::prelude::*;
use crate::text::decimal_digits;

verus! {

/// The largest mantissa magnitude: 2^96 - 1.
pub open spec fn max_mantissa() -> int {
    79_228_162_514_264_337_593_543_950_335
}

/// The largest scale, 28 fractional digits.
pub open spec fn max_scale() -> nat {
    28
}

pub open spec fn pow10(n: nat) -> int
    decreases n,
{
    if n == 0 {
        1
    } else {
        10 * pow10((n - 1) as nat)
    }
}

/// A mantissa and scale that a decimal can hold.
pub open spec fn representable(m: int, s: nat) -> bool {
    -max_mantissa() <= m <= max_mantissa() && s <= max_scale()
}

/// A decimal number `mantissa / 10^scale`.
#[derive(Clone, Copy, Debug)]
pub struct Decimal {
    mantissa: i128,
    scale: u32,
}

/// The outcome of comparing two decimals by value.
#[derive(Clone, Copy, Debug, PartialEq, Eq, Structural)]
pub enum DecimalOrder {
    Less,
    Equal,
    Greater,
}

/// What `rust_decimal::Decimal::checked_add` returns on the two operands.
pub uninterp spec fn decimal_add(a: Decimal, b: Decimal) -> Option<Decimal>;

/// What `rust_decimal::Decimal::checked_sub` returns on the two operands.
pub uninterp spec fn decimal_sub(a: Decimal, b: Decimal) -> Option<Decimal>;

/// What `rust_decimal::Decimal::checked_mul` returns on the two operands.
pub uninterp spec fn decimal_mul(a: Decimal, b: Decimal) -> Option<Decimal>;

/// What `rust_decimal::Decimal::checked_div` returns on the two operands.
pub uninterp spec fn decimal_div(a: Decimal, b: Decimal) -> Option<Decimal>;

/// The decimal digits of a magnitude, none for zero.
pub open spec fn magnitude_digits(n: nat) -> Seq<char> {
    if n == 0 {
        Seq::empty()
    } else {
        decimal_digits(n)
    }
}

/// `n` zero digits.
pub open spec fn zeros(n: nat) -> Seq<char> {
    Seq::new(n, |i: int| '0')
}

/// The digits of `|m|`, with zeros in front up to at least `s` digits.
pub open spec fn padded_digits(m: int, s: nat) -> Seq<char> {
    let n: nat = if m < 0 {
        (-m) as nat
    } else {
        m as nat
    };
    let d = magnitude_digits(n);
    if d.len() < s {
        zeros((s - d.len()) as nat) + d
    } else {
        d
    }
}

/// `-` for a negative mantissa, nothing otherwise.
pub open spec fn sign_text(m: int) -> Seq<char> {
    if m < 0 {
        "-"@
    } else {
        Seq::empty()
    }
}

/// The digits before the point, `0` where there are none.
pub open spec fn whole_text(p: Seq<char>, s: nat) -> Seq<char> {
    let w = p.take(p.len() - s);
    if w.len() == 0 {
        "0"@
    } else {
        w
    }
}

/// The text that `rust_decimal` prints for a decimal with `{}`: the sign,
/// the whole digits (`0` where there are none) and, for a positive scale,
/// a point followed by exactly `scale` digits.
pub open spec fn decimal_text(d: Decimal) -> Seq<char> {
    let p = padded_digits(d.mant(), d.scal());
    sign_text(d.mant()) + if d.scal() == 0 {
        if p.len() == 0 {
            "0"@
        } else {
            p
        }
    } else {
        whole_text(p, d.scal()) + "."@ + p.skip(p.len() - d.scal())
    }
}

/// The text that `rust_decimal` prints for a decimal with `{:.4}`: the
/// sign, the whole digits and exactly four fractional digits, further
/// digits cut off (not rounded) and missing ones filled with zeros.
pub open spec fn decimal_text_fixed4(d: Decimal) -> Seq<char> {
    let p = padded_digits(d.mant(), d.scal());
    sign_text(d.mant()) + whole_text(p, d.scal()) + "."@ + (p.skip(p.len() - d.scal()) + zeros(
        4,
    )).take(4)
}

impl Decimal {
    #[verifier::type_invariant]
    spec fn well_formed(self) -> bool {
        representable(self.mantissa as int, self.scale as nat)
    }

    /// The mantissa of the decimal.
    pub closed spec fn mant(self) -> int {
        self.mantissa as int
    }

    /// The scale of the decimal (number of fractional digits).
    pub closed spec fn scal(self) -> nat {
        self.scale as nat
    }

    /// The decimal with mantissa `m` and scale `s`.
    pub closed spec fn of(m: int, s: nat) -> Decimal {
        Decimal { mantissa: m as i128, scale: s as u32 }
    }

    pub proof fn lemma_of(m: int, s: nat)
        requires
            representable(m, s),
        ensures
            Decimal::of(m, s).mant() == m,
            Decimal::of(m, s).scal() == s,
    {
    }

    /// `rust_decimal::Decimal::new`: the decimal `num / 10^scale`.
    pub fn new(num: i64, scale: u32) -> (r: Decimal)
        requires
            scale <= 28,
        ensures
            r.mant() == num,
            r.scal() == scale,
            r == Decimal::of(num as int, scale as nat),
    {
        Decimal { mantissa: num as i128, scale }
    }

    /// `rust_decimal::Decimal::from_i128_with_scale`: the decimal `num / 10^scale`.
    pub fn from_i128_with_scale(num: i128, scale: u32) -> (r: Decimal)
        requires
            representable(num as int, scale as nat),
        ensures
            r.mant() == num,
            r.scal() == scale,
            r == Decimal::of(num as int, scale as nat),
    {
        Decimal { mantissa: num, scale }
    }

    /// `rust_decimal::Decimal::try_from_i128_with_scale`, with `None` for its errors.
    pub fn try_from_i128_with_scale(num: i128, scale: u32) -> (r: Option<Decimal>)
        ensures
            r is Some <==> representable(num as int, scale as nat),
            r matches Some(d) ==> d.mant() == num && d.scal() == scale && d == Decimal::of(
                num as int,
                scale as nat,
            ),
    {
        if scale <= 28 && -79_228_162_514_264_337_593_543_950_335i128 <= num && num
            <= 79_228_162_514_264_337_593_543_950_335i128 {
            Some(Decimal { mantissa: num, scale })
        } else {
            None
        }
    }

    /// A whole number, as `Decimal::from` gives it.
    pub fn from_i64(n: i64) -> (r: Decimal)
        ensures
            r.mant() == n,
            r.scal() == 0,
            r == Decimal::of(n as int, 0),
    {
        Decimal { mantissa: n as i128, scale: 0 }
    }

    /// A count, as `Decimal::from(usize)` gives it.
    pub fn from_usize(n: usize) -> (r: Decimal)
        requires
            n <= u64::MAX,
        ensures
            r.mant() == n,
            r.scal() == 0,
            r == Decimal::of(n as int, 0),
    {
        Decimal { mantissa: n as i128, scale: 0 }
    }

    /// `Decimal::ZERO`.
    pub fn zero() -> (r: Decimal)
        ensures
            r.mant() == 0,
            r.scal() == 0,
            r == Decimal::of(0, 0),
    {
        Decimal { mantissa: 0, scale: 0 }
    }

    /// `Decimal::ONE`.
    pub fn one() -> (r: Decimal)
        ensures
            r.mant() == 1,
            r.scal() == 0,
            r == Decimal::of(1, 0),
    {
        Decimal { mantissa: 1, scale: 0 }
    }

    pub fn mantissa(&self) -> (r: i128)
        ensures
            r == self.mant(),
            representable(r as int, self.scal()),
    {
        proof {
            use_type_invariant(self);
        }
        self.mantissa
    }

    pub fn scale(&self) -> (r: u32)
        ensures
            r == self.scal(),
            r <= 28,
    {
        proof {
            use_type_invariant(self);
        }
        self.scale
    }

    pub fn is_zero(&self) -> (r: bool)
        ensures
            r == (self.mant() == 0),
    {
        self.mantissa == 0
    }

    /// The negation of a decimal.
    pub closed spec fn negated(self) -> Decimal {
        Decimal { mantissa: (-self.mantissa) as i128, scale: self.scale }
    }

    /// Negation, exact: the mantissa changes sign, the scale stays.
    pub fn neg(&self) -> (r: Decimal)
        ensures
            r.mant() == -self.mant(),
            r.scal() == self.scal(),
            r == self.negated(),
    {
        proof {
            use_type_invariant(self);
        }
        Decimal { mantissa: -self.mantissa, scale: self.scale }
    }
}

/// The magnitude of a decimal: negated where the mantissa is negative.
pub open spec fn abs_of(d: Decimal) -> Decimal {
    if d.mant() < 0 {
        d.negated()
    } else {
        d
    }
}

impl Decimal {
    /// The absolute value, exact.
    pub fn abs(&self) -> (r: Decimal)
        ensures
            r == abs_of(*self),
            r.mant() >= 0,
    {
        if self.is_zero() || self.mantissa() > 0 {
            *self
        } else {
            self.neg()
        }
    }
}

/// The value of `a` is below that of `b`.
pub open spec fn value_lt(a: Decimal, b: Decimal) -> bool {
    a.mant() * pow10(b.scal()) < b.mant() * pow10(a.scal())
}

/// `a` and `b` denote the same number.
pub open spec fn value_eq(a: Decimal, b: Decimal) -> bool {
    a.mant() * pow10(b.scal()) == b.mant() * pow10(a.scal())
}

pub open spec fn value_le(a: Decimal, b: Decimal) -> bool {
    value_lt(a, b) || value_eq(a, b)
}

/// The larger of two scales: the scale at which `rust_decimal` adds.
pub open spec fn common_scale(a: Decimal, b: Decimal) -> nat {
    if a.scal() >= b.scal() {
        a.scal()
    } else {
        b.scal()
    }
}

/// The mantissa of `x` written at the larger scale `s`.
pub open spec fn aligned(x: Decimal, s: nat) -> int {
    x.mant() * pow10((s - x.scal()) as nat)
}

/// `r` holds a decimal with mantissa `m` and scale `s`.
pub open spec fn holds(r: Option<Decimal>, m: int, s: nat) -> bool {
    r matches Some(v) && v.mant() == m && v.scal() == s
}

/// Both operands written at their common scale fit in 96 bits, and so does `sum`.
pub open spec fn aligned_fit(a: Decimal, b: Decimal, sum: int) -> bool {
    let s = common_scale(a, b);
    &&& a.mant() != 0
    &&& b.mant() != 0
    &&& representable(aligned(a, s), s)
    &&& representable(aligned(b, s), s)
    &&& representable(sum, s)
}

/// Sum of two results, failing where either failed.
pub open spec fn add_opt(a: Option<Decimal>, b: Option<Decimal>) -> Option<Decimal> {
    match (a, b) {
        (Some(x), Some(y)) => decimal_add(x, y),
        _ => None,
    }
}

pub open spec fn sub_opt(a: Option<Decimal>, b: Option<Decimal>) -> Option<Decimal> {
    match (a, b) {
        (Some(x), Some(y)) => decimal_sub(x, y),
        _ => None,
    }
}

pub open spec fn mul_opt(a: Option<Decimal>, b: Option<Decimal>) -> Option<Decimal> {
    match (a, b) {
        (Some(x), Some(y)) => decimal_mul(x, y),
        _ => None,
    }
}

pub open spec fn div_opt(a: Option<Decimal>, b: Option<Decimal>) -> Option<Decimal> {
    match (a, b) {
        (Some(x), Some(y)) => decimal_div(x, y),
        _ => None,
    }
}

/// The running total of `terms(0) .. terms(n - 1)`, started at zero and
/// added from the left, as `Iterator::sum` adds; `None` once a step fails.
pub open spec fn sum_terms(terms: spec_fn(int) -> Option<Decimal>, n: nat) -> Option<Decimal>
    decreases n,
{
    if n == 0 {
        Some(Decimal::of(0, 0))
    } else {
        add_opt(sum_terms(terms, (n - 1) as nat), terms(n - 1))
    }
}

/// A failed running total stays failed.
pub proof fn lemma_sum_none(terms: spec_fn(int) -> Option<Decimal>, i: nat, n: nat)
    requires
        i <= n,
        sum_terms(terms, i) is None,
    ensures
        sum_terms(terms, n) is None,
    decreases n - i,
{
    if i < n {
        lemma_sum_none(terms, i, (n - 1) as nat);
    }
}

/// Running totals of terms that agree on the first `n` positions agree.
pub proof fn lemma_sum_agree(f: spec_fn(int) -> Option<Decimal>, g: spec_fn(int) -> Option<Decimal>, n: nat)
    requires
        forall|i: int| 0 <= i < n ==> #[trigger] f(i) == g(i),
    ensures
        sum_terms(f, n) == sum_terms(g, n),
    decreases n,
{
    if n > 0 {
        lemma_sum_agree(f, g, (n - 1) as nat);
        assert(f(n - 1) == g(n - 1));
    }
}

/// The larger of two decimals as `Ord::max` picks it.
pub open spec fn max_spec(a: Decimal, b: Decimal) -> Decimal {
    if value_lt(b, a) {
        a
    } else {
        b
    }
}

/// `rust_decimal::Decimal::checked_add`.
///
/// Claims: the result is the named `decimal_add`; adding to a zero gives the
/// other operand unchanged; the sum of two non-negative operands is
/// non-negative (it keeps the first operand's sign when no subtraction
/// takes place); and where both operands and their sum fit in 96
/// bits at the larger scale, the sum is exact at that scale (no rounding).
#[verifier::external_body]
pub fn checked_add(a: Decimal, b: Decimal) -> (r: Option<Decimal>)
    ensures
        r == decimal_add(a, b),
        a.mant() == 0 ==> r == Some(b),
        a.mant() != 0 && b.mant() == 0 ==> r == Some(a),
        a.mant() >= 0 && b.mant() >= 0 ==> (r matches Some(c) ==> c.mant() >= 0),
        aligned_fit(a, b, aligned(a, common_scale(a, b)) + aligned(b, common_scale(a, b)))
            ==> holds(r, aligned(a, common_scale(a, b)) + aligned(b, common_scale(a, b)), common_scale(a, b)),
{
    let x = rust_decimal::Decimal::from_i128_with_scale(a.mantissa, a.scale);
    let y = rust_decimal::Decimal::from_i128_with_scale(b.mantissa, b.scale);
    match x.checked_add(y) {
        Some(v) => Some(Decimal { mantissa: v.mantissa(), scale: v.scale() }),
        None => None,
    }
}

/// `rust_decimal::Decimal::checked_sub`.
///
/// Claims: the result is the named `decimal_sub`; subtracting from zero
/// negates the other operand; a number minus itself is zero at its scale; subtracting zero gives the first operand; and
/// where both operands and the difference fit in 96 bits at the larger scale,
/// the difference is exact at that scale.
#[verifier::external_body]
pub fn checked_sub(a: Decimal, b: Decimal) -> (r: Option<Decimal>)
    ensures
        r == decimal_sub(a, b),
        a.mant() == 0 ==> holds(r, -b.mant(), b.scal()),
        a == b ==> holds(r, 0, a.scal()),
        a.mant() != 0 && b.mant() == 0 ==> r == Some(a),
        aligned_fit(a, b, aligned(a, common_scale(a, b)) - aligned(b, common_scale(a, b)))
            ==> holds(r, aligned(a, common_scale(a, b)) - aligned(b, common_scale(a, b)), common_scale(a, b)),
{
    let x = rust_decimal::Decimal::from_i128_with_scale(a.mantissa, a.scale);
    let y = rust_decimal::Decimal::from_i128_with_scale(b.mantissa, b.scale);
    match x.checked_sub(y) {
        Some(v) => Some(Decimal { mantissa: v.mantissa(), scale: v.scale() }),
        None => None,
    }
}

/// `rust_decimal::Decimal::checked_mul`.
///
/// Claims: the result is the named `decimal_mul`; a zero operand gives zero
/// at scale 0; where both are non-zero and the product of the mantissas fits in 96 bits and the
/// scales add up to at most 28, the product is exact.
#[verifier::external_body]
pub fn checked_mul(a: Decimal, b: Decimal) -> (r: Option<Decimal>)
    ensures
        r == decimal_mul(a, b),
        a.mant() == 0 || b.mant() == 0 ==> holds(r, 0, 0),
        a.mant() != 0 && b.mant() != 0 && representable(a.mant() * b.mant(), a.scal() + b.scal())
            ==> holds(r, a.mant() * b.mant(), a.scal() + b.scal()),
{
    let x = rust_decimal::Decimal::from_i128_with_scale(a.mantissa, a.scale);
    let y = rust_decimal::Decimal::from_i128_with_scale(b.mantissa, b.scale);
    match x.checked_mul(y) {
        Some(v) => Some(Decimal { mantissa: v.mantissa(), scale: v.scale() }),
        None => None,
    }
}

/// `rust_decimal::Decimal::checked_div`.
///
/// Claims: the result is the named `decimal_div`; a zero divisor gives
/// `None`; a zero dividend over a non-zero divisor gives zero at scale 0;
/// a whole number over a non-zero whole number of at most 32 bits always
/// succeeds (the quotient is no larger than the dividend, and the
/// remainder is worked in by rounding); the quotient of two non-negative
/// operands is non-negative (its sign is the exclusive or of theirs).
/// How the quotient is rounded is left to the name.
#[verifier::external_body]
pub fn checked_div(a: Decimal, b: Decimal) -> (r: Option<Decimal>)
    ensures
        r == decimal_div(a, b),
        b.mant() == 0 ==> r is None,
        a.mant() == 0 && b.mant() != 0 ==> holds(r, 0, 0),
        a.scal() == 0 && b.scal() == 0 && b.mant() != 0 && -4_294_967_296 < b.mant()
            < 4_294_967_296 ==> r is Some,
        a.mant() >= 0 && b.mant() > 0 ==> (r matches Some(q) ==> q.mant() >= 0),
{
    let x = rust_decimal::Decimal::from_i128_with_scale(a.mantissa, a.scale);
    let y = rust_decimal::Decimal::from_i128_with_scale(b.mantissa, b.scale);
    match x.checked_div(y) {
        Some(v) => Some(Decimal { mantissa: v.mantissa(), scale: v.scale() }),
        None => None,
    }
}

/// `rust_decimal::Decimal`'s `Ord::cmp`: orders two decimals by their value.
#[verifier::external_body]
pub fn compare(a: Decimal, b: Decimal) -> (r: DecimalOrder)
    ensures
        r == DecimalOrder::Less <==> value_lt(a, b),
        r == DecimalOrder::Equal <==> value_eq(a, b),
        r == DecimalOrder::Greater <==> value_lt(b, a),
{
    let x = rust_decimal::Decimal::from_i128_with_scale(a.mantissa, a.scale);
    let y = rust_decimal::Decimal::from_i128_with_scale(b.mantissa, b.scale);
    match x.cmp(&y) {
        std::cmp::Ordering::Less => DecimalOrder::Less,
        std::cmp::Ordering::Equal => DecimalOrder::Equal,
        std::cmp::Ordering::Greater => DecimalOrder::Greater,
    }
}

/// `rust_decimal::Decimal`'s `Display` with `{}`.
///
/// Claims: the text is `decimal_text` (digits of the mantissa, the point
/// placed by the scale).
#[verifier::external_body]
pub fn to_text(d: Decimal) -> (r: String)
    ensures
        r@ == decimal_text(d),
{
    let x = rust_decimal::Decimal::from_i128_with_scale(d.mantissa, d.scale);
    format!("{}", x)
}

/// `rust_decimal::Decimal`'s `Display` with `{:.4}`.
///
/// Claims: the text is `decimal_text_fixed4` (four fractional digits,
/// further ones cut off).
#[verifier::external_body]
pub fn to_text_fixed4(d: Decimal) -> (r: String)
    ensures
        r@ == decimal_text_fixed4(d),
{
    let x = rust_decimal::Decimal::from_i128_with_scale(d.mantissa, d.scale);
    format!("{:.4}", x)
}

/// The value of `a` is below that of `b` (`a < b`).
pub fn lt(a: Decimal, b: Decimal) -> (r: bool)
    ensures
        r == value_lt(a, b),
{
    compare(a, b) == DecimalOrder::Less
}

/// `a <= b` by value.
pub fn le(a: Decimal, b: Decimal) -> (r: bool)
    ensures
        r == value_le(a, b),
{
    compare(a, b) != DecimalOrder::Greater
}

/// `a == b` by value.
pub fn eq(a: Decimal, b: Decimal) -> (r: bool)
    ensures
        r == value_eq(a, b),
{
    compare(a, b) == DecimalOrder::Equal
}

/// `Ord::max` on decimals: the second operand unless the first is larger.
pub fn max(a: Decimal, b: Decimal) -> (r: Decimal)
    ensures
        r == max_spec(a, b),
{
    if compare(a, b) == DecimalOrder::Greater {
        a
    } else {
        b
    }
}

impl Decimal {
    pub fn to_string(&self) -> (r: String)
        ensures
            r@ == decimal_text(*self),
    {
        to_text(*self)
    }
}

impl Default for Decimal {
    fn default() -> (r: Decimal)
        ensures
            r == Decimal::of(0, 0),
    {
        Decimal::zero()
    }
}

impl PartialEq for Decimal {
    fn eq(&self, other: &Self) -> (r: bool) {
        eq(*self, *other)
    }
}

impl vstd::std_specs::cmp::PartialEqSpecImpl for Decimal {
    open spec fn obeys_eq_spec() -> bool {
        true
    }

    open spec fn eq_spec(&self, other: &Self) -> bool {
        value_eq(*self, *other)
    }
}

} // verus!
