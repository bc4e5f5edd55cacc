//! Single-precision numbers carried as their IEEE-754 bit patterns.
//!
//! The parameters that the shaders read are 32-bit floating-point numbers.
//! This library never computes with them in floating point: it stores each one
//! as the 32 bits that represent it, hands those bits on unchanged, and where
//! it needs the number's value it decodes the bits exactly, in integers.

use vstd::prelude::*;
use vstd::arithmetic::power2::{
    pow2,
    lemma_pow2_pos,
    lemma_pow2_adds,
    lemma_pow2_strictly_increases,
    lemma2_to64,
    lemma2_to64_rest,
};
use vstd::arithmetic::div_mod::{
    lemma_basic_div,
    lemma_div_by_multiple,
    lemma_div_is_ordered,
    lemma_div_multiples_vanish_quotient,
};
use vstd::arithmetic::mul::{
    lemma_mul_inequality,
    lemma_mul_is_associative,
    lemma_mul_is_commutative,
    lemma_mul_nonnegative,
};
use vstd::bits::{lemma_u64_shl_is_mul, lemma_u64_shr_is_div};

verus! {

/// The smallest positive single-precision number is `2^-149`, so the
/// magnitude of every finite one is a whole number of such units.
pub open spec fn unit_exponent() -> nat {
    149
}

/// A single-precision number, held as its bit pattern: one sign bit, eight
/// bits of biased exponent, twenty-three bits of fraction.
#[derive(Clone, Copy, Debug, PartialEq, Eq, Structural)]
pub struct Scalar {
    pub bits: u32,
}

impl Scalar {
    /// The sign bit is set (this includes negative zero).
    pub open spec fn is_negative(self) -> bool {
        self.bits >= 0x8000_0000
    }

    /// The eight exponent bits, as a number.
    pub open spec fn exponent_field(self) -> nat {
        ((self.bits as nat) / 0x80_0000) % 0x100
    }

    /// The twenty-three fraction bits, as a number.
    pub open spec fn fraction(self) -> nat {
        (self.bits as nat) % 0x80_0000
    }

    /// Not a number: all exponent bits set and a fraction other than zero.
    pub open spec fn is_nan(self) -> bool {
        self.exponent_field() == 0xff && self.fraction() != 0
    }

    /// Positive or negative infinity.
    pub open spec fn is_infinite(self) -> bool {
        self.exponent_field() == 0xff && self.fraction() == 0
    }

    /// Positive or negative zero.
    pub open spec fn is_zero(self) -> bool {
        (self.bits as nat) % 0x8000_0000 == 0
    }

    /// The significand as a whole number: the fraction, with the implicit
    /// leading one unless the number is subnormal.
    pub open spec fn significand(self) -> nat {
        if self.exponent_field() == 0 {
            self.fraction()
        } else {
            self.fraction() + 0x80_0000
        }
    }

    /// The power of two by which the significand is multiplied to give the
    /// magnitude in units.
    pub open spec fn unit_shift(self) -> nat {
        if self.exponent_field() == 0 {
            0
        } else {
            (self.exponent_field() - 1) as nat
        }
    }

    /// The magnitude of a finite number, counted in units of
    /// `2^-149`. The number's value is this count divided by
    /// `2^149`, negated where the sign bit is set.
    pub open spec fn units(self) -> nat {
        self.significand() * pow2(self.unit_shift())
    }

    /// `floor(n * value)` for a finite number that is not negative: the
    /// product counted in units, divided by the number of units in 1.
    pub open spec fn exact_floor_product(self, n: nat) -> nat {
        (n * self.units()) / pow2(unit_exponent())
    }

    /// `floor(n * value)` as an unsigned 32-bit number, saturating: zero where
    /// the product is negative or not a number, `u32::MAX` where it is too
    /// large.
    pub open spec fn floor_product(self, n: nat) -> nat {
        if self.is_nan() || self.is_negative() {
            0
        } else if self.is_infinite() {
            if n == 0 {
                0
            } else {
                u32::MAX as nat
            }
        } else if self.exact_floor_product(n) > u32::MAX {
            u32::MAX as nat
        } else {
            self.exact_floor_product(n)
        }
    }

    /// The number is finite and not negative.
    pub open spec fn is_magnitude(self) -> bool {
        !self.is_negative() && self.exponent_field() < 0xff
    }

    /// The number is finite and not negative, and `n` times it is at most
    /// `m`.
    pub open spec fn product_at_most(self, n: nat, m: nat) -> bool {
        self.is_magnitude() && n * self.units() <= m * pow2(unit_exponent())
    }

    /// The number is the greatest single-precision number whose product with
    /// `n` is at most `m`.
    pub open spec fn is_greatest_within(self, n: nat, m: nat) -> bool {
        &&& self.product_at_most(n, m)
        &&& forall|s: Scalar| #[trigger] s.product_at_most(n, m) ==> s.bits <= self.bits
    }

    /// The greatest single-precision number whose product with `n` is at
    /// most `m`: the quotient of `m` by `n`, rounded down.
    pub open spec fn greatest_within(n: nat, m: nat) -> Scalar {
        choose|r: Scalar| r.is_greatest_within(n, m)
    }

    /// The whole number `n` as a single-precision number, rounded down where
    /// it has more significant bits than such a number holds.
    pub open spec fn rounded_down(n: nat) -> Scalar {
        Scalar::greatest_within(1, n)
    }

    /// Equality of the two numbers as IEEE-754 defines it: a NaN equals
    /// nothing, not even itself, and the two zeros are equal.
    pub open spec fn same_number(self, other: Scalar) -> bool {
        &&& !self.is_nan()
        &&& !other.is_nan()
        &&& (self.bits == other.bits || (self.is_zero() && other.is_zero()))
    }

    /// The four bytes of the bit pattern, least significant first.
    pub open spec fn le_bytes(self) -> Seq<u8> {
        word_le_bytes(self.bits)
    }

    /// The number with the given bit pattern.
    pub fn from_bits(bits: u32) -> (s: Scalar)
        ensures
            s.bits == bits,
    {
        Scalar { bits }
    }

    /// The bit pattern of the number.
    pub fn to_bits(self) -> (bits: u32)
        ensures
            bits == self.bits,
    {
        self.bits
    }

    /// Whether the bit pattern stands for no number.
    pub fn nan(self) -> (r: bool)
        ensures
            r == self.is_nan(),
    {
        let b: u32 = self.bits;
        assert(((b & 0x7fff_ffff) > 0x7f80_0000) == (((b / 0x80_0000) % 0x100 == 0xff) && (b
            % 0x80_0000 != 0))) by (bit_vector);
        (b & 0x7fff_ffff) > 0x7f80_0000
    }

    /// Whether the two numbers are equal as IEEE-754 defines it.
    pub fn ieee_eq(self, other: Scalar) -> (r: bool)
        ensures
            r == self.same_number(other),
    {
        let a: u32 = self.bits;
        let b: u32 = other.bits;
        assert(((a & 0x7fff_ffff) == 0) == (a % 0x8000_0000 == 0)) by (bit_vector);
        assert(((b & 0x7fff_ffff) == 0) == (b % 0x8000_0000 == 0)) by (bit_vector);
        !self.nan() && !other.nan() && (a == b || ((a & 0x7fff_ffff) == 0 && (b & 0x7fff_ffff)
            == 0))
    }

    /// `floor(n * value)`, saturating at both ends of the unsigned 32-bit
    /// range; exact, with no rounding of the product.
    pub fn floor_times(self, n: u32) -> (r: u32)
        ensures
            r == self.floor_product(n as nat),
    {
        let b: u32 = self.bits;
        let field: u32 = (b >> 23) & 0xff;
        let frac: u32 = b & 0x7f_ffff;
        assert(((b >> 23) & 0xff) == (b / 0x80_0000) % 0x100) by (bit_vector);
        assert((b & 0x7f_ffff) == b % 0x80_0000) by (bit_vector);
        if b >= 0x8000_0000 {
            return 0;
        }
        if field == 0xff {
            if frac != 0 || n == 0 {
                return 0;
            }
            return u32::MAX;
        }
        let sig: u64 = if field == 0 {
            frac as u64
        } else {
            frac as u64 + 0x80_0000
        };
        let shift: u32 = if field == 0 {
            0
        } else {
            field - 1
        };
        assert(sig == self.significand());
        assert(shift == self.unit_shift());
        assert(sig < 0x100_0000);
        assert((n as u64) * sig < 0x100_0000_0000_0000) by (nonlinear_arith)
            requires
                n <= 0xffff_ffff,
                sig < 0x100_0000,
        ;
        let product: u64 = (n as u64) * sig;
        proof {
            lemma_pow2_pos(unit_exponent());
            lemma_pow2_pos(shift as nat);
            lemma_mul_is_associative(n as int, sig as int, pow2(shift as nat) as int);
            assert(n as nat * self.units() == product as nat * pow2(shift as nat));
        }
        if shift >= 149 {
            let up: u32 = shift - 149;
            proof {
                lemma_pow2_adds(up as nat, unit_exponent());
                lemma_pow2_pos(up as nat);
                lemma_mul_is_associative(
                    product as int,
                    pow2(up as nat) as int,
                    pow2(unit_exponent()) as int,
                );
                lemma_mul_nonnegative(product as int, pow2(up as nat) as int);
                lemma_div_by_multiple(
                    product as int * pow2(up as nat) as int,
                    pow2(unit_exponent()) as int,
                );
                assert((n as nat * self.units()) / pow2(unit_exponent()) == product as nat * pow2(
                    up as nat,
                ));
            }
            if product == 0 {
                assert(product as nat * pow2(up as nat) == 0) by (nonlinear_arith)
                    requires
                        product == 0,
                ;
                0
            } else if up >= 32 || product > 0xffff_ffff {
                proof {
                    lemma2_to64();
                    if up > 32 {
                        lemma_pow2_strictly_increases(32, up as nat);
                    }
                    assert(product as nat * pow2(up as nat) > u32::MAX) by (nonlinear_arith)
                        requires
                            product >= 1,
                            pow2(up as nat) >= 1,
                            pow2(up as nat) >= 0x1_0000_0000 || product > 0xffff_ffff,
                    ;
                }
                u32::MAX
            } else {
                proof {
                    lemma2_to64();
                    if up < 31 {
                        lemma_pow2_strictly_increases(up as nat, 31);
                    }
                    assert(product * pow2(up as nat) <= u64::MAX) by (nonlinear_arith)
                        requires
                            product <= 0xffff_ffff,
                            pow2(up as nat) <= 0x8000_0000,
                    ;
                    lemma_u64_shl_is_mul(product, up as u64);
                }
                let wide: u64 = product << (up as u64);
                if wide > 0xffff_ffff {
                    u32::MAX
                } else {
                    wide as u32
                }
            }
        } else {
            let down: u32 = 149 - shift;
            proof {
                lemma_pow2_adds(shift as nat, down as nat);
                lemma_pow2_pos(down as nat);
                lemma_mul_is_commutative(product as int, pow2(shift as nat) as int);
                lemma_div_multiples_vanish_quotient(
                    pow2(shift as nat) as int,
                    product as int,
                    pow2(down as nat) as int,
                );
                assert((n as nat * self.units()) / pow2(unit_exponent()) == product as nat / pow2(
                    down as nat,
                ));
            }
            if down >= 64 {
                proof {
                    lemma2_to64_rest();
                    lemma2_to64();
                    if down > 64 {
                        lemma_pow2_strictly_increases(64, down as nat);
                    }
                    lemma_basic_div(product as int, pow2(down as nat) as int);
                }
                0
            } else {
                proof {
                    lemma_u64_shr_is_div(product, down as u64);
                }
                let narrow: u64 = product >> (down as u64);
                if narrow > 0xffff_ffff {
                    u32::MAX
                } else {
                    narrow as u32
                }
            }
        }
    }

    /// Whether the number is finite and not negative.
    pub fn magnitude(self) -> (r: bool)
        ensures
            r == self.is_magnitude(),
    {
        let b: u32 = self.bits;
        assert((b < 0x7f80_0000) == (b < 0x8000_0000 && (b / 0x80_0000) % 0x100 < 0xff))
            by (bit_vector);
        b < 0x7f80_0000
    }

    /// How `n` times the number compares with `m`: 0 where the product is
    /// less, 1 where the two are equal, 2 where it is greater.
    fn compare_product(self, n: u32, m: u32) -> (c: u8)
        requires
            self.is_magnitude(),
        ensures
            c == 0 || c == 1 || c == 2,
            (c == 0) == (n * self.units() < m * pow2(unit_exponent())),
            (c == 1) == (n * self.units() == m * pow2(unit_exponent())),
    {
        let b: u32 = self.bits;
        let field: u32 = (b >> 23) & 0xff;
        let frac: u32 = b & 0x7f_ffff;
        assert(((b >> 23) & 0xff) == (b / 0x80_0000) % 0x100) by (bit_vector);
        assert((b & 0x7f_ffff) == b % 0x80_0000) by (bit_vector);
        let sig: u64 = if field == 0 {
            frac as u64
        } else {
            frac as u64 + 0x80_0000
        };
        let shift: u32 = if field == 0 {
            0
        } else {
            field - 1
        };
        assert(sig == self.significand());
        assert(shift == self.unit_shift());
        assert((n as u64) * sig < 0x100_0000_0000_0000) by (nonlinear_arith)
            requires
                n <= 0xffff_ffff,
                sig < 0x100_0000,
        ;
        let product: u64 = (n as u64) * sig;
        let ghost unit = pow2(unit_exponent()) as int;
        let ghost lhs = n * self.units();
        proof {
            lemma_pow2_pos(unit_exponent());
            lemma_pow2_pos(shift as nat);
            lemma_mul_is_associative(n as int, sig as int, pow2(shift as nat) as int);
            assert(lhs == product * pow2(shift as nat));
        }
        if shift >= 149 {
            let up: u32 = shift - 149;
            let ghost scaled = product * pow2(up as nat);
            proof {
                lemma_pow2_adds(up as nat, unit_exponent());
                lemma_pow2_pos(up as nat);
                lemma_mul_is_associative(product as int, pow2(up as nat) as int, unit);
                assert(lhs == scaled * unit);
                assert((scaled * unit < m * unit) == (scaled < m) && (scaled * unit == m * unit)
                    == (scaled == m)) by (nonlinear_arith)
                    requires
                        unit > 0,
                ;
            }
            if product == 0 {
                assert(scaled == 0) by (nonlinear_arith)
                    requires
                        scaled == product * pow2(up as nat),
                        product == 0,
                ;
                if m == 0 {
                    1
                } else {
                    0
                }
            } else if up >= 32 || product > 0xffff_ffff {
                proof {
                    lemma2_to64();
                    if up > 32 {
                        lemma_pow2_strictly_increases(32, up as nat);
                    }
                    assert(scaled > u32::MAX) by (nonlinear_arith)
                        requires
                            scaled == product * pow2(up as nat),
                            product >= 1,
                            pow2(up as nat) >= 1,
                            pow2(up as nat) >= 0x1_0000_0000 || product > 0xffff_ffff,
                    ;
                }
                2
            } else {
                proof {
                    lemma2_to64();
                    if up < 31 {
                        lemma_pow2_strictly_increases(up as nat, 31);
                    }
                    assert(product * pow2(up as nat) <= u64::MAX) by (nonlinear_arith)
                        requires
                            product <= 0xffff_ffff,
                            pow2(up as nat) <= 0x8000_0000,
                    ;
                    lemma_u64_shl_is_mul(product, up as u64);
                }
                let wide: u64 = product << (up as u64);
                if wide < m as u64 {
                    0
                } else if wide == m as u64 {
                    1
                } else {
                    2
                }
            }
        } else {
            let down: u32 = 149 - shift;
            let ghost low = pow2(shift as nat) as int;
            let ghost high = pow2(down as nat) as int;
            proof {
                lemma_pow2_adds(down as nat, shift as nat);
                lemma_pow2_pos(down as nat);
                lemma_mul_is_associative(m as int, high, low);
                assert(m * unit == (m * high) * low);
                assert((product * low < (m * high) * low) == (product < m * high) && (product * low
                    == (m * high) * low) == (product == m * high)) by (nonlinear_arith)
                    requires
                        low > 0,
                ;
            }
            if down >= 56 {
                proof {
                    lemma2_to64_rest();
                    if down > 56 {
                        lemma_pow2_strictly_increases(56, down as nat);
                    }
                    assert(m >= 1 ==> m * high >= high) by (nonlinear_arith)
                        requires
                            high > 0,
                    ;
                    assert(m == 0 ==> m * high == 0) by (nonlinear_arith);
                }
                if m == 0 {
                    if product == 0 {
                        1
                    } else {
                        2
                    }
                } else {
                    0
                }
            } else {
                proof {
                    lemma2_to64_rest();
                    lemma2_to64();
                    lemma_pow2_strictly_increases(down as nat, 56);
                    lemma_u64_shl_is_mul(1, down as u64);
                }
                let divisor: u64 = 1u64 << (down as u64);
                assert(divisor == high);
                assert((m as u128) * (divisor as u128) < 0x1_0000_0000_0000_0000_0000_0000)
                    by (nonlinear_arith)
                    requires
                        m <= 0xffff_ffff,
                        divisor < 0x100_0000_0000_0000,
                ;
                let bound: u128 = (m as u128) * (divisor as u128);
                let wide: u128 = product as u128;
                if wide < bound {
                    0
                } else if wide == bound {
                    1
                } else {
                    2
                }
            }
        }
    }

    /// Whether the number is finite and not negative and `n` times it is at
    /// most `m`.
    pub fn at_most(self, n: u32, m: u32) -> (r: bool)
        ensures
            r == self.product_at_most(n as nat, m as nat),
    {
        self.magnitude() && self.compare_product(n, m) != 2
    }

    /// The greatest single-precision number whose product with `n` is at
    /// most `m`.
    pub fn greatest_within_of(n: u32, m: u32) -> (r: Scalar)
        ensures
            r.is_greatest_within(n as nat, m as nat),
            r == Scalar::greatest_within(n as nat, m as nat),
    {
        let mut low: u32 = 0;
        let mut high: u32 = 0x7f80_0000;
        proof {
            lemma_search_bounds(n as nat, m as nat);
        }
        while high - low > 1
            invariant
                low < high <= 0x7f80_0000,
                (Scalar { bits: low }).product_at_most(n as nat, m as nat),
                forall|s: Scalar| #[trigger] s.product_at_most(n as nat, m as nat) ==> s.bits < high,
            decreases high - low,
        {
            let middle: u32 = low + (high - low) / 2;
            if (Scalar { bits: middle }).at_most(n, m) {
                low = middle;
            } else {
                proof {
                    lemma_search_excludes(n as nat, m as nat, middle);
                }
                high = middle;
            }
        }
        let r = Scalar { bits: low };
        proof {
            lemma_greatest_within_is_unique(r, n as nat, m as nat);
        }
        r
    }

    /// The whole number `n` as a single-precision number, rounded down.
    pub fn from_u32(n: u32) -> (r: Scalar)
        ensures
            r == Scalar::rounded_down(n as nat),
            r.is_greatest_within(1, n as nat),
    {
        Scalar::greatest_within_of(1, n)
    }
}

/// Of two finite numbers that are not negative, the one that counts no more
/// units gives no greater a floor of the product with `n`.
pub proof fn lemma_floor_product_monotone(a: Scalar, b: Scalar, n: nat)
    requires
        !a.is_negative(),
        !b.is_negative(),
        a.exponent_field() < 0xff,
        b.exponent_field() < 0xff,
        a.units() <= b.units(),
    ensures
        a.floor_product(n) <= b.floor_product(n),
{
    lemma_pow2_pos(unit_exponent());
    lemma_mul_inequality(a.units() as int, b.units() as int, n as int);
    lemma_mul_is_commutative(a.units() as int, n as int);
    lemma_mul_is_commutative(b.units() as int, n as int);
    lemma_div_is_ordered(
        (n * a.units()) as int,
        (n * b.units()) as int,
        pow2(unit_exponent()) as int,
    );
}

/// Among finite numbers that are not negative, the order of the bit
/// patterns is the order of the values.
pub proof fn lemma_units_follow_bits(a: Scalar, b: Scalar)
    requires
        !b.is_negative(),
        b.exponent_field() < 0xff,
        a.bits <= b.bits,
    ensures
        !a.is_negative(),
        a.exponent_field() < 0xff,
        a.units() <= b.units(),
{
    let ea = a.exponent_field();
    let eb = b.exponent_field();
    let x: u32 = a.bits;
    let y: u32 = b.bits;
    assert(x < 0x8000_0000 ==> x == ((x / 0x80_0000) % 0x100) * 0x80_0000 + x % 0x80_0000)
        by (bit_vector);
    assert(y < 0x8000_0000 ==> y == ((y / 0x80_0000) % 0x100) * 0x80_0000 + y % 0x80_0000)
        by (bit_vector);
    assert(ea <= eb);
    lemma_pow2_pos(a.unit_shift());
    lemma_pow2_pos(b.unit_shift());
    lemma2_to64();
    if ea == eb {
        lemma_mul_inequality(
            a.significand() as int,
            b.significand() as int,
            pow2(a.unit_shift()) as int,
        );
    } else if ea == 0 {
        assert(a.units() == a.fraction() * pow2(0));
        assert(a.units() < 0x80_0000);
        assert(b.units() >= 0x80_0000) by (nonlinear_arith)
            requires
                b.units() == b.significand() * pow2(b.unit_shift()),
                b.significand() >= 0x80_0000,
                pow2(b.unit_shift()) >= 1,
        ;
    } else {
        let low = pow2(a.unit_shift());
        let high = pow2(b.unit_shift());
        if b.unit_shift() > a.unit_shift() + 1 {
            lemma_pow2_strictly_increases((a.unit_shift() + 1) as nat, b.unit_shift());
        }
        lemma_pow2_adds(1, a.unit_shift());
        assert(high >= 2 * low);
        assert(a.units() <= b.units()) by (nonlinear_arith)
            requires
                a.units() == a.significand() * low,
                b.units() == b.significand() * high,
                a.significand() < 0x100_0000,
                b.significand() >= 0x80_0000,
                high >= 2 * low,
                low >= 1,
        ;
    }
}

/// Where `n` times a finite number that is not negative is at most `m`, so
/// is `n` times every number whose bit pattern is no greater.
pub proof fn lemma_product_at_most_follows_bits(a: Scalar, b: Scalar, n: nat, m: nat)
    requires
        b.product_at_most(n, m),
        a.bits <= b.bits,
    ensures
        a.product_at_most(n, m),
{
    lemma_units_follow_bits(a, b);
    lemma_mul_inequality(a.units() as int, b.units() as int, n as int);
    lemma_mul_is_commutative(a.units() as int, n as int);
    lemma_mul_is_commutative(b.units() as int, n as int);
}

/// Zero is within every bound, and every number within a bound is finite
/// and not negative.
pub proof fn lemma_search_bounds(n: nat, m: nat)
    ensures
        (Scalar { bits: 0 }).product_at_most(n, m),
        forall|s: Scalar| #[trigger] s.product_at_most(n, m) ==> s.bits < 0x7f80_0000,
{
    let zero = Scalar { bits: 0 };
    assert(zero.exponent_field() == 0 && zero.fraction() == 0);
    assert(zero.units() == 0) by (nonlinear_arith)
        requires
            zero.units() == zero.significand() * pow2(zero.unit_shift()),
            zero.significand() == 0,
    ;
    assert(n * zero.units() == 0) by (nonlinear_arith)
        requires
            zero.units() == 0,
    ;
    lemma_pow2_pos(unit_exponent());
    assert(m * pow2(unit_exponent()) >= 0) by (nonlinear_arith)
        requires
            pow2(unit_exponent()) > 0,
    ;
    assert forall|s: Scalar| #[trigger] s.product_at_most(n, m) implies s.bits < 0x7f80_0000 by {
        let b: u32 = s.bits;
        assert((b < 0x8000_0000 && (b / 0x80_0000) % 0x100 < 0xff) ==> b < 0x7f80_0000)
            by (bit_vector);
    }
}

/// Where the number with bit pattern `middle` is not within the bound, no
/// number with that or a greater bit pattern is.
pub proof fn lemma_search_excludes(n: nat, m: nat, middle: u32)
    requires
        !(Scalar { bits: middle }).product_at_most(n, m),
    ensures
        forall|s: Scalar| #[trigger] s.product_at_most(n, m) ==> s.bits < middle,
{
    assert forall|s: Scalar| #[trigger] s.product_at_most(n, m) implies s.bits < middle by {
        if s.bits >= middle {
            lemma_product_at_most_follows_bits(Scalar { bits: middle }, s, n, m);
        }
    }
}

/// There is one greatest number within a bound.
pub proof fn lemma_greatest_within_is_unique(r: Scalar, n: nat, m: nat)
    requires
        r.is_greatest_within(n, m),
    ensures
        Scalar::greatest_within(n, m) == r,
{
    let chosen = Scalar::greatest_within(n, m);
    assert(chosen.is_greatest_within(n, m));
    assert(chosen.bits == r.bits);
}

/// Between a number within the bound and a bit pattern above every such
/// number lies the greatest of them.
proof fn lemma_greatest_within_between(n: nat, m: nat, low: u32, high: u32)
    requires
        low < high <= 0x7f80_0000,
        (Scalar { bits: low }).product_at_most(n, m),
        forall|s: Scalar| #[trigger] s.product_at_most(n, m) ==> s.bits < high,
    ensures
        Scalar::greatest_within(n, m).is_greatest_within(n, m),
    decreases high - low,
{
    if high - low == 1 {
        lemma_greatest_within_is_unique(Scalar { bits: low }, n, m);
    } else {
        let middle: u32 = (low + (high - low) / 2) as u32;
        if (Scalar { bits: middle }).product_at_most(n, m) {
            lemma_greatest_within_between(n, m, middle, high);
        } else {
            lemma_search_excludes(n, m, middle);
            lemma_greatest_within_between(n, m, low, middle);
        }
    }
}

/// Every bound has a greatest number within it.
pub proof fn lemma_greatest_within_exists(n: nat, m: nat)
    ensures
        Scalar::greatest_within(n, m).is_greatest_within(n, m),
{
    lemma_search_bounds(n, m);
    lemma_greatest_within_between(n, m, 0, 0x7f80_0000);
}

/// The number 1 counts as many units as make up 1.
pub proof fn lemma_units_of_one()
    ensures
        (Scalar { bits: 0x3f80_0000 }).is_magnitude(),
        (Scalar { bits: 0x3f80_0000 }).units() == pow2(unit_exponent()),
{
    let one = Scalar { bits: 0x3f80_0000 };
    assert(one.exponent_field() == 127);
    assert(one.fraction() == 0);
    lemma2_to64();
    lemma_pow2_adds(23, 126);
}

/// The number 1 leaves every size as it is.
pub proof fn lemma_one_is_identity(n: u32)
    ensures
        (Scalar { bits: 0x3f80_0000 }).floor_product(n as nat) == n,
{
    let one = Scalar { bits: 0x3f80_0000 };
    assert(one.exponent_field() == 127);
    assert(one.fraction() == 0);
    lemma2_to64();
    lemma_pow2_adds(23, 126);
    assert(one.units() == pow2(unit_exponent()));
    lemma_pow2_pos(unit_exponent());
    lemma_div_by_multiple(n as int, pow2(unit_exponent()) as int);
}

/// The number one half halves every size, rounding down.
pub proof fn lemma_half_halves(n: u32)
    ensures
        (Scalar { bits: 0x3f00_0000 }).floor_product(n as nat) == n / 2,
{
    let half = Scalar { bits: 0x3f00_0000 };
    assert(half.exponent_field() == 126);
    assert(half.fraction() == 0);
    lemma2_to64();
    lemma_pow2_adds(23, 125);
    lemma_pow2_adds(148, 1);
    assert(half.units() == pow2(148));
    lemma_pow2_pos(148);
    lemma_mul_is_commutative(n as int, pow2(148) as int);
    lemma_div_multiples_vanish_quotient(pow2(148) as int, n as int, 2);
    assert(pow2(unit_exponent()) == pow2(148) * 2);
}

/// The bytes of a sequence of words hold the bytes of the word at index `i`
/// at offset `4 * i`.
pub proof fn lemma_word_at_offset(words: Seq<u32>, i: int)
    requires
        0 <= i < words.len(),
    ensures
        words_le_bytes(words).len() == 4 * words.len(),
        words_le_bytes(words).subrange(4 * i, 4 * i + 4) == word_le_bytes(words[i]),
{
    let bytes = words_le_bytes(words);
    let part = bytes.subrange(4 * i, 4 * i + 4);
    assert forall|j: int| 0 <= j < 4 implies part[j] == word_le_bytes(words[i])[j] by {
        assert((4 * i + j) / 4 == i);
        assert((4 * i + j) % 4 == j);
    }
    assert(part =~= word_le_bytes(words[i]));
}

/// The four bytes of a 32-bit word, least significant first.
pub open spec fn word_le_bytes(word: u32) -> Seq<u8> {
    seq![
        (word as nat % 0x100) as u8,
        ((word as nat / 0x100) % 0x100) as u8,
        ((word as nat / 0x1_0000) % 0x100) as u8,
        ((word as nat / 0x100_0000) % 0x100) as u8,
    ]
}

/// The bytes of a sequence of 32-bit words, each least significant byte
/// first, one word after the other.
pub open spec fn words_le_bytes(words: Seq<u32>) -> Seq<u8> {
    Seq::new(4 * words.len(), |i: int| word_le_bytes(words[i / 4])[i % 4])
}

/// Appends the four bytes of `word` to `buffer`, least significant first.
pub fn push_word(buffer: &mut Vec<u8>, word: u32)
    ensures
        final(buffer)@ == old(buffer)@ + word_le_bytes(word),
{
    assert((word & 0xff) == word % 0x100) by (bit_vector);
    assert(((word >> 8) & 0xff) == (word / 0x100) % 0x100) by (bit_vector);
    assert(((word >> 16) & 0xff) == (word / 0x1_0000) % 0x100) by (bit_vector);
    assert(((word >> 24) & 0xff) == (word / 0x100_0000) % 0x100) by (bit_vector);
    buffer.push((word & 0xff) as u8);
    buffer.push(((word >> 8) & 0xff) as u8);
    buffer.push(((word >> 16) & 0xff) as u8);
    buffer.push(((word >> 24) & 0xff) as u8);
    assert(buffer@ =~= old(buffer)@ + word_le_bytes(word));
}

/// The bytes of `words`, each word least significant byte first.
pub fn encode_words(words: &Vec<u32>) -> (bytes: Vec<u8>)
    ensures
        bytes@ == words_le_bytes(words@),
{
    let mut bytes: Vec<u8> = Vec::new();
    let mut i: usize = 0;
    while i < words.len()
        invariant
            i <= words.len(),
            bytes@ == words_le_bytes(words@.take(i as int)),
        decreases words.len() - i,
    {
        let ghost before = bytes@;
        push_word(&mut bytes, words[i]);
        proof {
            let longer = words@.take(i + 1);
            assert forall|j: int| 0 <= j < 4 * (i + 1) implies #[trigger] bytes@[j]
                == words_le_bytes(longer)[j] by {
                if j < 4 * i {
                    assert(words@.take(i as int)[j / 4] == longer[j / 4]);
                } else {
                    assert(j / 4 == i);
                    assert(j % 4 == j - 4 * i);
                }
            }
            assert(bytes@ =~= words_le_bytes(longer));
        }
        i = i + 1;
    }
    assert(words@.take(words.len() as int) =~= words@);
    bytes
}

} // verus!
