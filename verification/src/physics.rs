//! Quantum numbers of a hydrogenic orbital and the integer special
//! functions (factorial, double factorial) used by wavefunction
//! normalization constants.

use vstd::prelude::*;

use crate::text::{eq_ignore_ascii_case, matches_keyword};

verus! {

/// Quantum numbers (n, l, m_l) of a hydrogenic orbital.
/// n: principal quantum number (1, 2, 3, ...)
/// l: azimuthal quantum number (0 to n-1)
/// m_l: magnetic quantum number (-l to l)
#[derive(Debug, Clone, Copy, PartialEq, Eq, Structural)]
pub struct QuantumNumbers {
    pub n: u32,
    pub l: u32,
    pub m_l: i32,
}

impl QuantumNumbers {
    /// The textbook admissibility condition: n >= 1, 0 <= l <= n-1, |m_l| <= l.
    pub open spec fn is_valid(n: u32, l: u32, m_l: i32) -> bool {
        n >= 1 && l < n && -(l as int) <= m_l as int <= l as int
    }

    /// Validating factory: yields a value exactly when (n, l, m_l) is a
    /// legal combination of quantum numbers.
    pub fn new(n: u32, l: u32, m_l: i32) -> (r: Option<Self>)
        ensures
            r is Some <==> Self::is_valid(n, l, m_l),
            r matches Some(qn) ==> qn == (QuantumNumbers { n, l, m_l }),
    {
        let l_wide: i64 = l as i64;
        let m_wide: i64 = m_l as i64;
        if n == 0 || l >= n || m_wide > l_wide || m_wide < -l_wide {
            return None;
        }
        Some(QuantumNumbers { n, l, m_l })
    }
}

/// Which angular basis the sampler evaluates: the physicist's complex
/// Y_lm, or the real (chemistry-style) linear combinations.
#[derive(Debug, Clone, Copy, PartialEq, Eq, Structural)]
pub enum AngularBasis {
    Complex,
    Real,
}

impl AngularBasis {
    pub open spec fn spec_from_query(value: Option<&str>) -> AngularBasis {
        match value {
            Some(s) => if matches_keyword(s@, "real"@) {
                AngularBasis::Real
            } else {
                AngularBasis::Complex
            },
            None => AngularBasis::Complex,
        }
    }

    /// Decode the `basis` query selector; anything but "real" (in any
    /// ASCII case) selects the complex basis.
    pub fn from_query(value: Option<&str>) -> (r: Self)
        ensures
            r == Self::spec_from_query(value),
    {
        match value {
            Some(s) => if eq_ignore_ascii_case(s, "real") {
                AngularBasis::Real
            } else {
                AngularBasis::Complex
            },
            None => AngularBasis::Complex,
        }
    }
}

/// Mathematical factorial.
pub open spec fn spec_factorial(n: nat) -> nat
    decreases n,
{
    if n == 0 {
        1
    } else {
        n * spec_factorial((n - 1) as nat)
    }
}

/// Mathematical double factorial n!! = n * (n-2) * (n-4) * ... * 1 or 2.
pub open spec fn spec_factorial_double(n: nat) -> nat
    decreases n,
{
    if n <= 1 {
        1
    } else {
        n * spec_factorial_double((n - 2) as nat)
    }
}

proof fn lemma_factorial_pos(n: nat)
    ensures
        spec_factorial(n) >= 1,
    decreases n,
{
    if n > 0 {
        lemma_factorial_pos((n - 1) as nat);
        assert(n * spec_factorial((n - 1) as nat) >= 1) by (nonlinear_arith)
            requires
                n >= 1,
                spec_factorial((n - 1) as nat) >= 1,
        ;
    }
}

proof fn lemma_factorial_monotonic(a: nat, b: nat)
    requires
        a <= b,
    ensures
        spec_factorial(a) <= spec_factorial(b),
    decreases b,
{
    if a < b {
        lemma_factorial_monotonic(a, (b - 1) as nat);
        lemma_factorial_pos((b - 1) as nat);
        assert(b * spec_factorial((b - 1) as nat) >= spec_factorial((b - 1) as nat))
            by (nonlinear_arith)
            requires
                b >= 1,
                spec_factorial((b - 1) as nat) >= 0,
        ;
    }
}

/// Largest factorial that fits in a u64: 20!.
proof fn lemma_factorial_fits_u64(n: nat)
    requires
        n <= 20,
    ensures
        spec_factorial(n) <= 2432902008176640000,
{
    assert(spec_factorial(20) == 2432902008176640000) by {
        reveal_with_fuel(spec_factorial, 21);
    }
    lemma_factorial_monotonic(n, 20);
}

proof fn lemma_factorial_double_pos(n: nat)
    ensures
        spec_factorial_double(n) >= 1,
    decreases n,
{
    if n > 1 {
        lemma_factorial_double_pos((n - 2) as nat);
        assert(n * spec_factorial_double((n - 2) as nat) >= 1) by (nonlinear_arith)
            requires
                n >= 1,
                spec_factorial_double((n - 2) as nat) >= 1,
        ;
    }
}

proof fn lemma_factorial_double_monotonic(a: nat, b: nat)
    requires
        a <= b,
    ensures
        spec_factorial_double(a) <= spec_factorial_double(b),
    decreases b,
{
    if a < b && b > 1 {
        lemma_factorial_double_monotonic(if a <= b - 2 { a } else { (b - 2) as nat }, (b - 2) as nat);
        lemma_factorial_double_pos((b - 2) as nat);
        assert(b * spec_factorial_double((b - 2) as nat) >= spec_factorial_double((b - 2) as nat))
            by (nonlinear_arith)
            requires
                b >= 1,
                spec_factorial_double((b - 2) as nat) >= 0,
        ;
        if a == b - 1 {
            // a = b - 1 > 0, so spec_factorial_double(a) = a * spec_factorial_double(a - 2)
            // and a <= b - 2 + 1; handle via the same product bound on a.
            lemma_factorial_double_le_next((a) as nat);
        }
    }
}

/// n!! <= (n+1)!!.
proof fn lemma_factorial_double_le_next(n: nat)
    ensures
        spec_factorial_double(n) <= spec_factorial_double(n + 1),
    decreases n,
{
    if n > 1 {
        lemma_factorial_double_le_next((n - 2) as nat);
        lemma_factorial_double_pos((n - 2) as nat);
        assert((n + 1) * spec_factorial_double((n - 1) as nat) >= n * spec_factorial_double(
            (n - 2) as nat,
        )) by (nonlinear_arith)
            requires
                n >= 2,
                spec_factorial_double((n - 1) as nat) >= spec_factorial_double((n - 2) as nat),
                spec_factorial_double((n - 2) as nat) >= 0,
        ;
    } else {
        lemma_factorial_double_pos(n + 1);
        assert(spec_factorial_double(n) == 1);
    }
}

/// Largest double factorial that fits in a u64: 33!!.
proof fn lemma_factorial_double_fits_u64(n: nat)
    requires
        n <= 33,
    ensures
        spec_factorial_double(n) <= 6332659870762850625,
{
    assert(spec_factorial_double(33) == 6332659870762850625) by {
        reveal_with_fuel(spec_factorial_double, 18);
    }
    lemma_factorial_double_monotonic(n, 33);
}

/// Factorial of a small integer. 20! is the largest factorial a u64
/// can hold.
pub fn factorial(n: u32) -> (r: u64)
    requires
        n <= 20,
    ensures
        r == spec_factorial(n as nat),
{
    let mut result: u64 = 1;
    let mut i: u32 = 0;
    while i < n
        invariant
            i <= n <= 20,
            result == spec_factorial(i as nat),
        decreases n - i,
    {
        i = i + 1;
        proof {
            lemma_factorial_fits_u64(i as nat);
            assert(spec_factorial(i as nat) == i * spec_factorial((i - 1) as nat));
            assert(result * (i as u64) == spec_factorial(i as nat)) by (nonlinear_arith)
                requires
                    result == spec_factorial((i - 1) as nat),
                    spec_factorial(i as nat) == i * spec_factorial((i - 1) as nat),
            ;
        }
        result = result * (i as u64);
    }
    result
}

/// Double factorial n!! of a small integer. 33!! is the largest double
/// factorial a u64 can hold.
pub fn factorial_double(n: u32) -> (r: u64)
    requires
        n <= 33,
    ensures
        r == spec_factorial_double(n as nat),
{
    proof {
        lemma_factorial_double_fits_u64(n as nat);
    }
    let mut result: u64 = 1;
    let mut i: i64 = n as i64;
    while i > 0
        invariant
            i <= n <= 33,
            result * spec_factorial_double(clip_nonneg(i as int)) == spec_factorial_double(n as nat),
            spec_factorial_double(n as nat) <= 6332659870762850625,
        decreases i + 1,
    {
        proof {
            lemma_factorial_double_pos(clip_nonneg(i - 2));
            assert(spec_factorial_double(clip_nonneg(i as int)) == if i > 1 {
                i * spec_factorial_double(clip_nonneg(i - 2))
            } else {
                1
            });
            assert(result * (i as u64) * spec_factorial_double(clip_nonneg(i - 2))
                == result * spec_factorial_double(clip_nonneg(i as int))) by (nonlinear_arith)
                requires
                    i >= 1,
                    spec_factorial_double(clip_nonneg(i as int)) == if i > 1 {
                        i * spec_factorial_double(clip_nonneg(i - 2))
                    } else {
                        1
                    },
                    i == 1 ==> spec_factorial_double(clip_nonneg(i - 2)) == 1,
            ;
            assert(result * (i as u64) <= result * (i as u64) * spec_factorial_double(
                clip_nonneg(i - 2),
            )) by (nonlinear_arith)
                requires
                    result >= 0,
                    i >= 1,
                    spec_factorial_double(clip_nonneg(i - 2)) >= 1,
            ;
        }
        result = result * (i as u64);
        i = i - 2;
    }
    proof {
        assert(spec_factorial_double(clip_nonneg(i as int)) == 1);
        assert(result * spec_factorial_double(clip_nonneg(i as int)) == result)
            by (nonlinear_arith)
            requires
                spec_factorial_double(clip_nonneg(i as int)) == 1,
        ;
    }
    result
}

/// Energy gap E_b - E_a between two hydrogenic levels, with
/// E_n = -1/(2 n^2) in atomic units, as an exact rational
/// (numerator, denominator) = (n_b^2 - n_a^2, 2 n_a^2 n_b^2).
/// The gap is zero exactly for equal principal quantum numbers, when a
/// superposition's density does not evolve in time.
pub fn energy_gap_ratio(n_a: u32, n_b: u32) -> (r: (i64, u64))
    requires
        1 <= n_a <= 46340,
        1 <= n_b <= 46340,
    ensures
        r.0 == n_b as int * n_b as int - n_a as int * n_a as int,
        r.1 == 2 * (n_a as int * n_a as int) * (n_b as int * n_b as int),
        r.1 > 0,
        r.0 == 0 <==> n_a == n_b,
{
    proof {
        assert(n_a as int * n_a as int <= 2147395600 && n_b as int * n_b as int <= 2147395600)
            by (nonlinear_arith)
            requires
                1 <= n_a <= 46340,
                1 <= n_b <= 46340,
        ;
    }
    let a: u64 = (n_a as u64) * (n_a as u64);
    let b: u64 = (n_b as u64) * (n_b as u64);
    proof {
        assert(a as int * b as int <= 2147395600 * 2147395600int) by (nonlinear_arith)
            requires
                0 <= a <= 2147395600,
                0 <= b <= 2147395600,
        ;
        assert(a as int * b as int == (n_a as int * n_a as int) * (n_b as int * n_b as int))
            by (nonlinear_arith)
            requires
                a == n_a as int * n_a as int,
                b == n_b as int * n_b as int,
        ;
        assert(a == b <==> n_a == n_b) by (nonlinear_arith)
            requires
                a == n_a as int * n_a as int,
                b == n_b as int * n_b as int,
                n_a >= 1,
                n_b >= 1,
        ;
        assert(a >= 1 && b >= 1) by (nonlinear_arith)
            requires
                a == n_a as int * n_a as int,
                b == n_b as int * n_b as int,
                n_a >= 1,
                n_b >= 1,
        ;
        assert(a * b >= 1) by (nonlinear_arith)
            requires
                a >= 1,
                b >= 1,
        ;
        assert(2 * ((n_a as int * n_a as int) * (n_b as int * n_b as int)) == 2 * (n_a as int
            * n_a as int) * (n_b as int * n_b as int)) by (nonlinear_arith);
    }
    let num: i64 = (b as i64) - (a as i64);
    let den: u64 = 2 * (a * b);
    (num, den)
}

/// Clamp over mathematical integers.
pub open spec fn spec_clamp_magnetic(m_l: int, l: int) -> int {
    if m_l < -l {
        -l
    } else if m_l > l {
        l
    } else {
        m_l
    }
}

/// Clamp a requested magnetic quantum number into the range a given l
/// admits; the result always satisfies |r| <= l.
pub fn clamp_magnetic(m_l: i32, l: u32) -> (r: i32)
    ensures
        r as int == spec_clamp_magnetic(m_l as int, l as int),
        -(l as int) <= r as int <= l as int,
{
    let li: i64 = l as i64;
    let mi: i64 = m_l as i64;
    let c: i64 = if mi < -li {
        -li
    } else if mi > li {
        li
    } else {
        mi
    };
    c as i32
}

/// i as a natural number, with negative values clipped to zero.
pub open spec fn clip_nonneg(i: int) -> nat {
    if i >= 0 {
        i as nat
    } else {
        0
    }
}

} // verus!
