//! Fixed-point decimal amounts.
//!
//! Balances are stored with exactly six fractional decimal digits, as integer
//! counts of `10^-6` units ("micro units").  A caller-supplied amount arrives
//! as a decimal number `mantissa / 10^scale`; it is accepted only when it fits
//! the six-digit grid, so no precision is ever lost silently.

use vstd::prelude::*;

verus! {

/// Number of fractional decimal digits kept by the store's numeric columns.
pub const STORAGE_SCALE: u32 = 6;

/// Largest scale a caller-supplied decimal can carry: the decimal
/// representation handed to the library never exceeds 28 fractional digits.
pub const MAX_INPUT_SCALE: u32 = 28;

/// Ten to the power `n`.
pub open spec fn pow10(n: nat) -> int
    decreases n,
{
    if n == 0 {
        1
    } else {
        10 * pow10((n - 1) as nat)
    }
}

/// Absolute value on mathematical integers.
pub open spec fn abs_int(x: int) -> int {
    if x < 0 {
        -x
    } else {
        x
    }
}

pub proof fn lemma_pow10_pos(n: nat)
    ensures
        pow10(n) >= 1,
    decreases n,
{
    if n > 0 {
        lemma_pow10_pos((n - 1) as nat);
    }
}

pub proof fn lemma_pow10_mono(i: nat, j: nat)
    requires
        i <= j,
    ensures
        pow10(i) <= pow10(j),
    decreases j,
{
    if i < j {
        lemma_pow10_mono(i, (j - 1) as nat);
        lemma_pow10_pos((j - 1) as nat);
    }
}

pub proof fn lemma_pow10_storage()
    ensures
        pow10(STORAGE_SCALE as nat) == 1000000,
{
    reveal_with_fuel(pow10, 7);
}

pub proof fn lemma_pow10_max_input()
    ensures
        pow10(MAX_INPUT_SCALE as nat) == 10000000000000000000000000000,
{
    reveal_with_fuel(pow10, 29);
}

/// A decimal amount as supplied by a caller: the integer `mantissa` scaled
/// down by `10^scale`.  `mantissa = 1123456, scale = 6` is `1.123456`.
#[derive(Clone, Copy, Debug, PartialEq, Eq, Structural)]
pub struct RawAmount {
    pub mantissa: i64,
    pub scale: u32,
}

impl RawAmount {
    /// The decimal representation handed to the library never carries more
    /// than [`MAX_INPUT_SCALE`] fractional digits.
    pub open spec fn wf(self) -> bool {
        self.scale <= MAX_INPUT_SCALE
    }

    /// `|amount|` brought to the store's six-digit fixed-point grid,
    /// truncating toward zero, in micro units.
    pub open spec fn magnitude_micro(self) -> int {
        if self.scale <= STORAGE_SCALE {
            abs_int(self.mantissa as int) * pow10((STORAGE_SCALE - self.scale) as nat)
        } else {
            abs_int(self.mantissa as int) / pow10((self.scale - STORAGE_SCALE) as nat)
        }
    }

    /// Whether the amount is at least `0.000001`, the smallest positive value
    /// the store can represent.
    pub open spec fn at_least_min(self) -> bool {
        self.mantissa * pow10(STORAGE_SCALE as nat) >= pow10(self.scale as nat)
    }

    /// Whether the amount fits the storage grid exactly, that is, carries at
    /// most six fractional digits.
    pub open spec fn fits_storage_scale(self) -> bool {
        self.scale <= STORAGE_SCALE
    }
}

/// Ten to the power `n`, executable.
pub fn pow10_i128(n: u32) -> (r: i128)
    requires
        n <= MAX_INPUT_SCALE,
    ensures
        r == pow10(n as nat),
        r >= 1,
{
    proof {
        lemma_pow10_pos(n as nat);
    }
    let mut acc: i128 = 1;
    let mut i: u32 = 0;
    while i < n
        invariant
            i <= n,
            n <= MAX_INPUT_SCALE,
            acc == pow10(i as nat),
        decreases n - i,
    {
        proof {
            lemma_pow10_mono((i + 1) as nat, MAX_INPUT_SCALE as nat);
            lemma_pow10_max_input();
            lemma_pow10_pos(i as nat);
        }
        acc = acc * 10;
        i = i + 1;
    }
    acc
}

/// `|amount|` truncated to the six-digit grid, in micro units.
pub fn magnitude_micro_i128(a: RawAmount) -> (r: i128)
    requires
        a.wf(),
    ensures
        r == a.magnitude_micro(),
        0 <= r < 10000000000000000000000000,
{
    let abs_m: i128 = if a.mantissa < 0 {
        -(a.mantissa as i128)
    } else {
        a.mantissa as i128
    };
    if a.scale <= STORAGE_SCALE {
        let f = pow10_i128(STORAGE_SCALE - a.scale);
        proof {
            lemma_pow10_mono((STORAGE_SCALE - a.scale) as nat, STORAGE_SCALE as nat);
            lemma_pow10_storage();
            assert(abs_m * f < 10000000000000000000000000) by (nonlinear_arith)
                requires
                    0 <= abs_m < 10000000000000000000,
                    1 <= f <= 1000000,
            ;
            assert(abs_m * f >= 0) by (nonlinear_arith)
                requires
                    0 <= abs_m,
                    1 <= f,
            ;
        }
        abs_m * f
    } else {
        let d = pow10_i128(a.scale - STORAGE_SCALE);
        abs_m / d
    }
}

/// Whether the amount is at least `0.000001`, executable.
pub fn at_least_min_i128(a: RawAmount) -> (r: bool)
    requires
        a.wf(),
    ensures
        r == a.at_least_min(),
{
    proof {
        lemma_pow10_storage();
    }
    let lhs: i128 = (a.mantissa as i128) * 1000000;
    let rhs: i128 = pow10_i128(a.scale);
    lhs >= rhs
}

} // verus!
