use vstd::prelude::*;

verus! {

/// One step of the Leibniz series for pi. The series starts from the leading
/// value 1 and, at step `i`, adds `-1/(2i+3)` when `i` is even and
/// `+1/(2i+3)` when `i` is odd; the accumulated sum is scaled by
/// `LEIBNIZ_SCALE` at the end.
pub struct LeibnizTerm {
    /// True when the term is subtracted from the accumulator.
    pub negative: bool,
    /// The odd denominator `2i + 3` of step `i`.
    pub denominator: u64,
}

/// Factor applied to the accumulated Leibniz sum (the series itself converges
/// to a quarter of pi).
pub const LEIBNIZ_SCALE: u64 = 4;

pub fn leibniz_term(i: u32) -> (t: LeibnizTerm)
    ensures
        t.negative == (i % 2 == 0),
        t.denominator == 2 * i + 3,
{
    LeibnizTerm { negative: i % 2 == 0, denominator: 2 * (i as u64) + 3 }
}

/// The divisors of term `n` of the Bailey-Borwein-Plouffe series: the term is
/// `(4/(8n+1) - 2/(8n+4) - 1/(8n+5) - 1/(8n+6)) / 16^n`.
pub struct BbpTerm {
    /// `8n + 1`, the divisor under the numerator `BBP_NUMERATOR_1`.
    pub offset1: u64,
    /// `8n + 4`, under `BBP_NUMERATOR_4`.
    pub offset4: u64,
    /// `8n + 5`, under `BBP_NUMERATOR_5`.
    pub offset5: u64,
    /// `8n + 6`, under `BBP_NUMERATOR_6`.
    pub offset6: u64,
}

pub const BBP_NUMERATOR_1: i64 = 4;

pub const BBP_NUMERATOR_4: i64 = -2;

pub const BBP_NUMERATOR_5: i64 = -1;

pub const BBP_NUMERATOR_6: i64 = -1;

pub fn bbp_term(n: u32) -> (t: BbpTerm)
    ensures
        t.offset1 == 8 * n + 1,
        t.offset4 == 8 * n + 4,
        t.offset5 == 8 * n + 5,
        t.offset6 == 8 * n + 6,
{
    let base: u64 = 8 * (n as u64);
    BbpTerm { offset1: base + 1, offset4: base + 4, offset5: base + 5, offset6: base + 6 }
}

/// The numerator of one Bailey-Borwein-Plouffe term when its four partial
/// fractions are brought over the common denominator
/// `offset1 * offset4 * offset5 * offset6`.
pub open spec fn bbp_term_numerator(t: BbpTerm) -> int {
    (BBP_NUMERATOR_1 as int) * (t.offset4 as int) * (t.offset5 as int) * (t.offset6 as int)
        + (BBP_NUMERATOR_4 as int) * (t.offset1 as int) * (t.offset5 as int) * (t.offset6 as int)
        + (BBP_NUMERATOR_5 as int) * (t.offset1 as int) * (t.offset4 as int) * (t.offset6 as int)
        + (BBP_NUMERATOR_6 as int) * (t.offset1 as int) * (t.offset4 as int) * (t.offset5 as int)
}

/// Every term of the Bailey-Borwein-Plouffe series is positive: brought over
/// the common denominator of its four partial fractions (a product of strictly
/// positive offsets), the signed numerators sum to
/// `15*(8n)^2 + 151*(8n) + 376`, which is positive. Each summand therefore
/// pulls the accumulated value upward, and the series approaches pi from
/// below.
pub proof fn lemma_bbp_term_positive(t: BbpTerm, n: u32)
    requires
        t.offset1 == 8 * n + 1,
        t.offset4 == 8 * n + 4,
        t.offset5 == 8 * n + 5,
        t.offset6 == 8 * n + 6,
    ensures
        bbp_term_numerator(t) > 0,
{
    let x = 8 * (n as int);
    let a = t.offset1 as int;
    let b = t.offset4 as int;
    let c = t.offset5 as int;
    let d = t.offset6 as int;
    let k1 = BBP_NUMERATOR_1 as int;
    let k4 = BBP_NUMERATOR_4 as int;
    let k5 = BBP_NUMERATOR_5 as int;
    let k6 = BBP_NUMERATOR_6 as int;
    assert(k1 * b * c * d + k4 * a * c * d + k5 * a * b * d + k6 * a * b * c == 15 * x * x + 151
        * x + 376) by (nonlinear_arith)
        requires
            a == x + 1,
            b == x + 4,
            c == x + 5,
            d == x + 6,
            k1 == 4,
            k4 == -2,
            k5 == -1,
            k6 == -1,
    ;
    assert(15 * x * x + 151 * x + 376 > 0) by (nonlinear_arith)
        requires
            x >= 0,
    ;
    assert(bbp_term_numerator(t) == k1 * b * c * d + k4 * a * c * d + k5 * a * b * d + k6 * a * b
        * c);
}

/// The integer skeleton of term `n` of Bellard's series: seven partial
/// fractions with the fixed numerators below, summed, given the sign of
/// `(-1)^n`, divided by `2^(10n)`, and finally the whole series is divided by
/// `BELLARD_FINAL_DIVISOR`.
pub struct BellardTerm {
    /// True when `n` is odd, in which case the term is subtracted.
    pub negative: bool,
    /// `10n`: the term is divided by two raised to this exponent.
    pub exponent: u64,
    /// `4n + 1`, the divisor under `BELLARD_NUMERATOR_4_1`.
    pub off4_1: u64,
    /// `4n + 3`, under `BELLARD_NUMERATOR_4_3`.
    pub off4_3: u64,
    /// `10n + 1`, under `BELLARD_NUMERATOR_10_1`.
    pub off10_1: u64,
    /// `10n + 3`, under `BELLARD_NUMERATOR_10_3`.
    pub off10_3: u64,
    /// `10n + 5`, under `BELLARD_NUMERATOR_10_5`.
    pub off10_5: u64,
    /// `10n + 7`, under `BELLARD_NUMERATOR_10_7`.
    pub off10_7: u64,
    /// `10n + 9`, under `BELLARD_NUMERATOR_10_9`.
    pub off10_9: u64,
}

pub const BELLARD_NUMERATOR_4_1: i64 = -32;

pub const BELLARD_NUMERATOR_4_3: i64 = -1;

pub const BELLARD_NUMERATOR_10_1: i64 = 256;

pub const BELLARD_NUMERATOR_10_3: i64 = -64;

pub const BELLARD_NUMERATOR_10_5: i64 = -4;

pub const BELLARD_NUMERATOR_10_7: i64 = -4;

pub const BELLARD_NUMERATOR_10_9: i64 = 1;

pub const BELLARD_FINAL_DIVISOR: i64 = 64;

pub fn bellard_term(n: u32) -> (t: BellardTerm)
    ensures
        t.negative == (n % 2 == 1),
        t.exponent == 10 * n,
        t.off4_1 == 4 * n + 1,
        t.off4_3 == 4 * n + 3,
        t.off10_1 == 10 * n + 1,
        t.off10_3 == 10 * n + 3,
        t.off10_5 == 10 * n + 5,
        t.off10_7 == 10 * n + 7,
        t.off10_9 == 10 * n + 9,
{
    let base4: u64 = 4 * (n as u64);
    let base10: u64 = 10 * (n as u64);
    BellardTerm {
        negative: n % 2 == 1,
        exponent: base10,
        off4_1: base4 + 1,
        off4_3: base4 + 3,
        off10_1: base10 + 1,
        off10_3: base10 + 3,
        off10_5: base10 + 5,
        off10_7: base10 + 7,
        off10_9: base10 + 9,
    }
}

/// In step `n` (counted from zero) of Borwein's quartically convergent
/// iteration, the accumulator update subtracts `2^(2n+3) * y * (1 + y + y^2)`;
/// this returns that exponent `2n + 3`.
pub fn borwein_exponent(n: u32) -> (e: u64)
    ensures
        e == 2 * n + 3,
{
    2 * (n as u64) + 3
}

} // verus!
