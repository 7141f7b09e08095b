//! Score engine and qualitative severity.

//! The score engine: combination of the sub-scores, the rounding rule and
//! the qualitative severity scale.
//!
//! Sub-scores (exploitability, impact) are integer counts of 10^-12; the
//! combined value before rounding is an integer count of 10^-18; a final
//! score is an integer count of tenths.

use vstd::prelude::*;

verus! {

/// One, as a sub-score: sub-scores are counts of 10^-12.
pub const SUB_ONE: u64 = 1000000000000;

/// One, as a combined value before rounding: counts of 10^-18.
pub const RAW_ONE: u128 = 1000000000000000000;

/// `d^n` in fixed point with 12 decimals, each product rounded down, as a
/// machine computing in that precision would.
pub open spec fn fixed_pow(d: int, n: nat) -> int
    decreases n,
{
    if n == 0 {
        SUB_ONE as int
    } else {
        fixed_pow(d, (n - 1) as nat) * d / (SUB_ONE as int)
    }
}

/// The scaled impact before rounding, in counts of 10^-18, for an impact
/// sub-score `iss` (counts of 10^-12):
/// `6.42 × ISS` when the scope is unchanged, else
/// `7.52 × (ISS − 0.029) − 3.25 × (ISS − 0.02)^15`.
pub open spec fn scaled_impact(iss: int, changed: bool) -> int {
    if !changed {
        642 * iss * 10000
    } else {
        (752 * (iss - 29000000000) - 325 * fixed_pow(iss - 20000000000, 15)) * 10000
    }
}

/// The combined value before rounding, in counts of 10^-18: zero when the
/// scaled impact is not positive, else `min(10, impact + exploitability)`,
/// with the sum multiplied by 1.08 first when the scope is changed.
pub open spec fn raw_score(exploitability: int, iss: int, changed: bool) -> int {
    let imp = scaled_impact(iss, changed);
    let sum = imp + exploitability * 1000000;
    if imp <= 0 {
        0
    } else if !changed {
        if sum < 10 * RAW_ONE { sum } else { 10 * RAW_ONE as int }
    } else {
        let scaled = 108 * sum / 100;
        if scaled < 10 * RAW_ONE { scaled } else { 10 * RAW_ONE as int }
    }
}

/// `ceil(a / b)` for `a >= 0`, `b > 0`.
pub open spec fn ceil_div(a: int, b: int) -> int {
    (a + b - 1) / b
}

/// The rounding rule, from a value in counts of 10^-18 to tenths: scale to
/// counts of 10^-5 rounding up, then round that up to a multiple of 10^4.
pub open spec fn roundup_spec(raw: int) -> int {
    ceil_div(ceil_div(raw, 10000000000000), 10000)
}

/// The qualitative rating of a score given in tenths.
pub open spec fn severity_of(tenths: int) -> Severity {
    if tenths <= 0 {
        Severity::Nil
    } else if tenths < 40 {
        Severity::Low
    } else if tenths < 70 {
        Severity::Medium
    } else if tenths < 90 {
        Severity::High
    } else {
        Severity::Critical
    }
}

/// Exploitability `8.22 × AV × AC × PR × UI` in counts of 10^-12, from
/// four weights in hundredths.
pub open spec fn exploitability_of(av: int, ac: int, pr: int, ui: int) -> int {
    822 * av * ac * pr * ui * 100
}

/// Impact sub-score `1 − (1 − C)(1 − I)(1 − A)` in counts of 10^-12, from
/// three weights in hundredths.
pub open spec fn impact_of(c: int, i: int, a: int) -> int {
    (1000000 - (100 - c) * (100 - i) * (100 - a)) * 1000000
}

/// Impact sub-score with requirement multipliers,
/// `min(1, 1 − (1 − C × CR)(1 − I × IR)(1 − A × AR))`, in counts of 10^-12,
/// from weights in hundredths.
pub open spec fn modified_impact_of(c: int, cr: int, i: int, ir: int, a: int, ar: int) -> int {
    let v = 1000000000000 - (10000 - c * cr) * (10000 - i * ir) * (10000 - a * ar);
    if v < 1000000000000 { v } else { 1000000000000 }
}

/// Exploitability from four weights in hundredths, each at most 0.85.
pub fn exploitability(av: u64, ac: u64, pr: u64, ui: u64) -> (r: u64)
    requires
        av <= 85,
        ac <= 85,
        pr <= 85,
        ui <= 85,
    ensures
        r == exploitability_of(av as int, ac as int, pr as int, ui as int),
        r <= 10 * SUB_ONE,
{
    let with_av: u64 = 822 * av;
    assert(with_av * ac <= 822 * 85 * 85) by (nonlinear_arith)
        requires
            with_av <= 822 * 85,
            ac <= 85,
    ;
    let with_ac: u64 = with_av * ac;
    assert(with_ac * pr <= 822 * 85 * 85 * 85) by (nonlinear_arith)
        requires
            with_ac <= 822 * 85 * 85,
            pr <= 85,
    ;
    let with_pr: u64 = with_ac * pr;
    assert(with_pr * ui <= 822 * 85 * 85 * 85 * 85) by (nonlinear_arith)
        requires
            with_pr <= 822 * 85 * 85 * 85,
            ui <= 85,
    ;
    let with_ui: u64 = with_pr * ui;
    with_ui * 100
}

/// Impact sub-score from three weights in hundredths, each at most 1.
pub fn impact(c: u64, i: u64, a: u64) -> (r: u64)
    requires
        c <= 100,
        i <= 100,
        a <= 100,
    ensures
        r == impact_of(c as int, i as int, a as int),
        r <= SUB_ONE,
{
    let x: u64 = 100 - c;
    let y: u64 = 100 - i;
    let z: u64 = 100 - a;
    assert(x * y <= 10000 && x * y * z <= 1000000) by (nonlinear_arith)
        requires
            x <= 100,
            y <= 100,
            z <= 100,
    ;
    (1000000 - x * y * z) * 1000000
}

/// Impact sub-score with requirement multipliers; weights in hundredths,
/// impacts at most 0.66 and requirements at most 1.5.
pub fn modified_impact(c: u64, cr: u64, i: u64, ir: u64, a: u64, ar: u64) -> (r: u64)
    requires
        c <= 66,
        i <= 66,
        a <= 66,
        cr <= 150,
        ir <= 150,
        ar <= 150,
    ensures
        r == modified_impact_of(c as int, cr as int, i as int, ir as int, a as int, ar as int),
        r <= SUB_ONE,
{
    assert(c * cr <= 9900 && i * ir <= 9900 && a * ar <= 9900) by (nonlinear_arith)
        requires
            c <= 66,
            i <= 66,
            a <= 66,
            cr <= 150,
            ir <= 150,
            ar <= 150,
    ;
    let x: u64 = 10000 - c * cr;
    let y: u64 = 10000 - i * ir;
    let z: u64 = 10000 - a * ar;
    assert(x * y <= 100000000 && x * y * z <= 1000000000000) by (nonlinear_arith)
        requires
            x <= 10000,
            y <= 10000,
            z <= 10000,
    ;
    let prod: u64 = x * y * z;
    let v: u64 = 1000000000000 - prod;
    if v < 1000000000000 { v } else { 1000000000000 }
}

/// A final score: a whole number of tenths between 0.0 and 10.0.
#[derive(Clone, Copy, Debug, PartialEq, Eq, Structural, Hash)]
pub struct Score {
    /// The score in tenths (98 is 9.8).
    pub tenths: u8,
}

/// Qualitative severity rating scale.
#[derive(Clone, Copy, Debug, PartialEq, Eq, Structural, Hash)]
pub enum Severity {
    /// None: 0.0
    Nil,
    /// Low: 0.1 - 3.9
    Low,
    /// Medium: 4.0 - 6.9
    Medium,
    /// High: 7.0 - 8.9
    High,
    /// Critical: 9.0 - 10.0
    Critical,
}

impl Severity {
    /// The rating's lower-case name.
    pub fn as_str(self) -> (r: &'static str)
        ensures
            r@ == match self {
                Severity::Nil => "none"@,
                Severity::Low => "low"@,
                Severity::Medium => "medium"@,
                Severity::High => "high"@,
                Severity::Critical => "critical"@,
            },
    {
        match self {
            Severity::Nil => "none",
            Severity::Low => "low",
            Severity::Medium => "medium",
            Severity::High => "high",
            Severity::Critical => "critical",
        }
    }
}

impl Score {
    /// Scores lie between 0.0 and 10.0.
    pub open spec fn wf(self) -> bool {
        self.tenths <= 100
    }

    /// A score of `tenths` tenths.
    pub fn new(tenths: u8) -> (r: Score)
        requires
            tenths <= 100,
        ensures
            r.tenths == tenths,
            r.wf(),
    {
        Score { tenths }
    }

    /// The score in tenths.
    pub fn value(&self) -> (r: u8)
        ensures
            r == self.tenths,
    {
        self.tenths
    }

    /// Round a value given in counts of 10^-18 up to tenths.
    pub fn roundup(raw: u128) -> (r: Score)
        requires
            raw <= 10 * RAW_ONE,
        ensures
            r.wf(),
            r.tenths == roundup_spec(raw as int),
    {
        let int_input: u128 = (raw + 9999999999999) / 10000000000000;
        let tenths: u128 = (int_input + 9999) / 10000;
        assert(int_input <= 1000000) by (nonlinear_arith)
            requires
                raw <= 10000000000000000000u128,
                int_input == (raw + 9999999999999) / 10000000000000,
        ;
        assert(tenths <= 100) by (nonlinear_arith)
            requires
                int_input <= 1000000,
                tenths == (int_input + 9999) / 10000,
        ;
        Score { tenths: tenths as u8 }
    }

    /// Qualitative rating of this score.
    pub fn severity(&self) -> (r: Severity)
        ensures
            r == severity_of(self.tenths as int),
    {
        if self.tenths == 0 {
            Severity::Nil
        } else if self.tenths < 40 {
            Severity::Low
        } else if self.tenths < 70 {
            Severity::Medium
        } else if self.tenths < 90 {
            Severity::High
        } else {
            Severity::Critical
        }
    }
}

/// Rounding never lowers a value, and rounding a rounded value changes
/// nothing: for every `raw >= 0` (counts of 10^-18), the rounded result `t`
/// (tenths) satisfies `t / 10 >= raw / 10^18`, and `t` written back as
/// counts of 10^-18 rounds to `t` again.
pub proof fn lemma_roundup(raw: int)
    requires
        0 <= raw,
    ensures
        roundup_spec(raw) * 100000000000000000 >= raw,
        roundup_spec(roundup_spec(raw) * 100000000000000000) == roundup_spec(raw),
{
    let a: int = 10000000000000;
    let b: int = 10000;
    let x = ceil_div(raw, a);
    let t = ceil_div(x, b);
    assert(x * a >= raw) by (nonlinear_arith)
        requires
            x == (raw + a - 1) / a,
            a > 0,
            raw >= 0,
    ;
    assert(t * b >= x) by (nonlinear_arith)
        requires
            t == (x + b - 1) / b,
            b > 0,
    ;
    assert(x >= 0) by (nonlinear_arith)
        requires
            x == (raw + a - 1) / a,
            a > 0,
            raw >= 0,
    ;
    assert(t * b * a >= x * a) by (nonlinear_arith)
        requires
            t * b >= x,
            a > 0,
    ;
    assert(t * 100000000000000000 == t * b * a);
    let y = t * 100000000000000000;
    assert(ceil_div(y, a) == t * b) by (nonlinear_arith)
        requires
            y == t * b * a,
            a > 1,
    ;
    assert(ceil_div(t * b, b) == t) by (nonlinear_arith)
        requires
            b > 1,
    ;
}

/// The combined value lies between 0.0 and 10.0 for every non-negative
/// exploitability and impact.
pub proof fn lemma_raw_score_bounds(exploitability: int, iss: int, changed: bool)
    requires
        exploitability >= 0,
    ensures
        0 <= raw_score(exploitability, iss, changed) <= 10 * RAW_ONE,
{
    let imp = scaled_impact(iss, changed);
    let sum = imp + exploitability * 1000000;
    if imp > 0 && changed {
        assert(108 * sum / 100 >= 0) by (nonlinear_arith)
            requires
                sum > 0,
        ;
    }
}

/// Rounding maps values between 0.0 and 10.0 to tenths between 0 and 100.
pub proof fn lemma_roundup_bounds(raw: int)
    requires
        0 <= raw <= 10 * RAW_ONE,
    ensures
        0 <= roundup_spec(raw) <= 100,
{
    let x = ceil_div(raw, 10000000000000);
    assert(0 <= x <= 1000000) by (nonlinear_arith)
        requires
            x == (raw + 10000000000000 - 1) / 10000000000000,
            0 <= raw <= 10000000000000000000,
    ;
    assert(0 <= ceil_div(x, 10000) <= 100) by (nonlinear_arith)
        requires
            0 <= x <= 1000000,
    ;
}

/// Ratings follow the score: a higher score never has a lower rating, and
/// the bands start at 0.1, 4.0, 7.0 and 9.0.
pub proof fn lemma_severity_bands(t: int)
    requires
        0 <= t <= 100,
    ensures
        severity_of(t) == Severity::Nil <==> t == 0,
        severity_of(t) == Severity::Low <==> 1 <= t <= 39,
        severity_of(t) == Severity::Medium <==> 40 <= t <= 69,
        severity_of(t) == Severity::High <==> 70 <= t <= 89,
        severity_of(t) == Severity::Critical <==> 90 <= t <= 100,
{
}

proof fn lemma_fixed_pow_unit(d: int, n: nat)
    requires
        0 <= d <= SUB_ONE,
    ensures
        0 <= fixed_pow(d, n) <= SUB_ONE,
    decreases n,
{
    if n > 0 {
        lemma_fixed_pow_unit(d, (n - 1) as nat);
        let a = fixed_pow(d, (n - 1) as nat);
        let s = SUB_ONE as int;
        assert(0 <= a * d <= s * s) by (nonlinear_arith)
            requires
                0 <= a <= s,
                0 <= d <= s,
        ;
        assert(0 <= (a * d) / s <= s) by (nonlinear_arith)
            requires
                0 <= a * d <= s * s,
                s > 0,
        ;
    }
}

proof fn lemma_fixed_pow_small_negative(d: int, n: nat)
    requires
        -(SUB_ONE as int) <= d < 0,
        n >= 1,
    ensures
        d <= fixed_pow(d, n) <= -d,
    decreases n,
{
    let s = SUB_ONE as int;
    if n == 1 {
        assert(fixed_pow(d, 0) == s);
        assert(s * d / s == d) by (nonlinear_arith)
            requires
                s > 0,
        ;
    } else {
        lemma_fixed_pow_small_negative(d, (n - 1) as nat);
        let a = fixed_pow(d, (n - 1) as nat);
        assert(s * d <= a * d <= -(s * d)) by (nonlinear_arith)
            requires
                d <= a <= -d,
                -s <= d < 0,
        ;
        assert(d <= (a * d) / s <= -d) by (nonlinear_arith)
            requires
                s * d <= a * d <= -(s * d),
                s > 0,
        ;
    }
}

/// Below an impact of 0.029 a changed scope yields no positive impact.
proof fn lemma_changed_small_impact(iss: int)
    requires
        0 <= iss <= 29000000000,
    ensures
        scaled_impact(iss, true) <= 0,
{
    let d = iss - 20000000000;
    if d >= 0 {
        lemma_fixed_pow_unit(d, 15);
    } else {
        lemma_fixed_pow_small_negative(d, 15);
    }
}

/// `(ISS − 0.02)^15` for `ISS >= 0.02`, in counts of 10^-12.
fn fixed_pow15(d: u64) -> (r: u64)
    requires
        d <= SUB_ONE,
    ensures
        r == fixed_pow(d as int, 15),
        r <= SUB_ONE,
{
    let mut acc: u64 = SUB_ONE;
    let mut k: u64 = 0;
    while k < 15
        invariant
            k <= 15,
            d <= SUB_ONE,
            acc == fixed_pow(d as int, k as nat),
            acc <= SUB_ONE,
        decreases 15 - k,
    {
        proof {
            lemma_fixed_pow_unit(d as int, (k + 1) as nat);
        }
        assert((acc as int) * (d as int) <= (SUB_ONE as int) * (SUB_ONE as int)) by (nonlinear_arith)
            requires
                acc <= SUB_ONE,
                d <= SUB_ONE,
        ;
        let prod: u128 = (acc as u128) * (d as u128);
        acc = (prod / (SUB_ONE as u128)) as u64;
        k += 1;
    }
    acc
}

/// Combine an exploitability and an impact sub-score into a final score,
/// by the scope branch that `changed` selects, then round.
pub fn combine(exploitability: u64, iss: u64, changed: bool) -> (r: Score)
    requires
        exploitability <= 10 * SUB_ONE,
        iss <= SUB_ONE,
    ensures
        r.wf(),
        r.tenths == roundup_spec(raw_score(exploitability as int, iss as int, changed)),
{
    let expl_raw: u128 = (exploitability as u128) * 1000000;
    let cap: u128 = 10 * RAW_ONE;
    if !changed {
        let imp: u128 = 642 * (iss as u128) * 10000;
        if imp == 0 {
            return Score::roundup(0);
        }
        let sum: u128 = imp + expl_raw;
        if sum < cap {
            Score::roundup(sum)
        } else {
            Score::roundup(cap)
        }
    } else {
        if iss <= 29000000000 {
            proof {
                lemma_changed_small_impact(iss as int);
            }
            return Score::roundup(0);
        }
        let p: u64 = fixed_pow15(iss - 20000000000);
        let pos: u128 = 752 * (iss as u128);
        let neg: u128 = 752 * 29000000000 + 325 * (p as u128);
        if pos <= neg {
            return Score::roundup(0);
        }
        let imp: u128 = (pos - neg) * 10000;
        let scaled: u128 = 108 * (imp + expl_raw) / 100;
        if scaled < cap {
            Score::roundup(scaled)
        } else {
            Score::roundup(cap)
        }
    }
}

} // verus!
