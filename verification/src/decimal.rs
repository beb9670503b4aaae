use vstd::prelude::*;

verus! {

/// One whole unit of a `Decimal`, in atomics: 10^18.
pub const DECIMAL_FRACTIONAL: u128 = 1_000_000_000_000_000_000;

/// 2^64, and below it 2^128, 2^192 and 2^256.
pub open spec fn pow2_64() -> nat {
    0x1_0000_0000_0000_0000nat
}

pub open spec fn pow2_128() -> nat {
    0x1_0000_0000_0000_0000_0000_0000_0000_0000nat
}

pub open spec fn pow2_192() -> nat {
    0x1_0000_0000_0000_0000_0000_0000_0000_0000_0000_0000_0000_0000nat
}

pub open spec fn pow2_256() -> nat {
    0x1_0000_0000_0000_0000_0000_0000_0000_0000_0000_0000_0000_0000_0000_0000_0000_0000nat
}

/// An unsigned 256-bit integer as four 64-bit words, least significant first.
#[derive(Clone, Copy, Debug, PartialEq, Eq)]
pub struct Wide {
    pub limbs: [u64; 4],
}

impl Wide {
    /// The number that the four words spell.
    pub open spec fn value(&self) -> nat {
        self.limbs[0] as nat + self.limbs[1] as nat * pow2_64() + self.limbs[2] as nat
            * pow2_128() + self.limbs[3] as nat * pow2_192()
    }

    /// The number that the lower two words spell.
    pub open spec fn low_value(&self) -> nat {
        self.limbs[0] as nat + self.limbs[1] as nat * pow2_64()
    }

    /// The number that the upper two words spell.
    pub open spec fn high_value(&self) -> nat {
        self.limbs[2] as nat + self.limbs[3] as nat * pow2_64()
    }

    /// `x` in the lower two words.
    pub fn from_u128(x: u128) -> (w: Wide)
        ensures
            w.value() == x,
    {
        let lo: u64 = (x % 0x1_0000_0000_0000_0000) as u64;
        let hi: u64 = (x / 0x1_0000_0000_0000_0000) as u64;
        Wide { limbs: [lo, hi, 0, 0] }
    }

    /// The lower two words as one number.
    pub fn low(&self) -> (r: u128)
        ensures
            r == self.low_value(),
    {
        self.limbs[0] as u128 + self.limbs[1] as u128 * 0x1_0000_0000_0000_0000
    }

    /// The upper two words as one number.
    pub fn high(&self) -> (r: u128)
        ensures
            r == self.high_value(),
    {
        self.limbs[2] as u128 + self.limbs[3] as u128 * 0x1_0000_0000_0000_0000
    }

    /// Whether all four words are zero.
    pub fn is_zero(&self) -> (r: bool)
        ensures
            r == (self.value() == 0),
    {
        self.limbs[0] == 0 && self.limbs[1] == 0 && self.limbs[2] == 0 && self.limbs[3] == 0
    }
}

/// An unsigned fixed-point number with 18 fractional digits: `atomics` counts
/// units of 10^-18.
#[derive(Clone, Copy, Debug, PartialEq, Eq)]
pub struct Decimal {
    pub atomics: Wide,
}

impl Decimal {
    /// The decimal whose numerator over 10^18 is `atomics`.
    pub fn from_atomics(atomics: u128) -> (d: Decimal)
        ensures
            d.atomics.value() == atomics,
    {
        Decimal { atomics: Wide::from_u128(atomics) }
    }

    /// Whether this is the decimal 0.
    pub fn is_zero(&self) -> (r: bool)
        ensures
            r == (self.atomics.value() == 0),
    {
        self.atomics.is_zero()
    }
}

/// The product of two 128-bit numbers as its upper and lower 128 bits.
pub fn mul_wide(x: u128, y: u128) -> (r: (u128, u128))
    ensures
        r.0 * pow2_128() + r.1 == x * y,
{
    let base: u128 = 0x1_0000_0000_0000_0000;
    let x0: u128 = x % base;
    let x1: u128 = x / base;
    let y0: u128 = y % base;
    let y1: u128 = y / base;
    proof {
        lemma_half_product_fits(x0, y0);
        lemma_half_product_fits(x0, y1);
        lemma_half_product_fits(x1, y0);
        lemma_half_product_fits(x1, y1);
        lemma_split_product(x0 as int, x1 as int, y0 as int, y1 as int);
    }
    let p00: u128 = x0 * y0;
    let p01: u128 = x0 * y1;
    let p10: u128 = x1 * y0;
    let p11: u128 = x1 * y1;
    let mid: u128 = p01 + p00 / base;
    let mid2: u128 = p10 + mid % base;
    let lo: u128 = (mid2 % base) * base + p00 % base;
    proof {
        lemma_product_below_square(x, y);
    }
    let hi: u128 = p11 + mid / base + mid2 / base;
    (hi, lo)
}

proof fn lemma_half_product_fits(a: u128, b: u128)
    by (nonlinear_arith)
    requires
        a < 0x1_0000_0000_0000_0000,
        b < 0x1_0000_0000_0000_0000,
    ensures
        a * b <= 0xffff_ffff_ffff_fffe_0000_0000_0000_0001,
{
}

proof fn lemma_split_product(x0: int, x1: int, y0: int, y1: int)
    by (nonlinear_arith)
    ensures
        (x1 * 0x1_0000_0000_0000_0000 + x0) * (y1 * 0x1_0000_0000_0000_0000 + y0) == (x1 * y1)
            * 0x1_0000_0000_0000_0000_0000_0000_0000_0000 + (x0 * y1 + x1 * y0)
            * 0x1_0000_0000_0000_0000 + x0 * y0,
{
}

proof fn lemma_product_below_square(x: u128, y: u128)
    by (nonlinear_arith)
    ensures
        x * y < 0x1_0000_0000_0000_0000_0000_0000_0000_0000
            * 0x1_0000_0000_0000_0000_0000_0000_0000_0000,
{
}

} // verus!
