//! Fixed-point scalars with 12 fractional bits, and a 2D vector over them.
//!
//! Every operation reproduces the bit pattern of the engine's integer path:
//! sums wrap, products are widened, shifted right by 12 and truncated, and
//! sine and square root come from lookup tables.
use vstd::prelude::*;

use crate::tables::{root_entry, root_lookup, sine_entry, sine_lookup};

verus! {

/// A 16-bit fixed-point number with 12 fractional bits.
#[derive(Debug, Clone, Copy, PartialEq, Eq, Hash, PartialOrd, Ord, Structural)]
pub struct Fixed16(pub i16);

/// An unsigned 16-bit fixed-point number with 12 fractional bits.
#[derive(Debug, Clone, Copy, PartialEq, Eq, Hash, PartialOrd, Ord, Structural)]
pub struct UFixed16(pub u16);

/// A 32-bit fixed-point number with 12 fractional bits.
#[derive(Debug, Clone, Copy, PartialEq, Eq, Hash, PartialOrd, Ord, Structural)]
pub struct Fixed32(pub i32);

/// The absolute value, wrapping at the most negative value as two's complement does.
pub open spec fn wrapping_abs_i16(v: i16) -> i16 {
    (if v < 0 { -v } else { v as int }) as i16
}

/// The absolute value, wrapping at the most negative value as two's complement does.
pub open spec fn wrapping_abs_i32(v: i32) -> i32 {
    (if v < 0 { -v } else { v as int }) as i32
}

/// Rust's integer division, which rounds toward zero.
pub open spec fn trunc_div(a: int, b: int) -> int {
    let q = abs_int(a) / abs_int(b);
    if (a < 0) == (b < 0) {
        q
    } else {
        -q
    }
}

pub open spec fn abs_int(a: int) -> int {
    if a < 0 {
        -a
    } else {
        a
    }
}

/// Truncating division of machine integers, on operands whose quotient is defined.
fn div_toward_zero(a: i64, b: i64) -> (r: i64)
    requires
        b != 0,
        -0x8000_0000_0000 <= a <= 0x8000_0000_0000,
        -0x8000_0000_0000 <= b <= 0x8000_0000_0000,
    ensures
        r == trunc_div(a as int, b as int),
{
    let ua: u64 = if a < 0 { (-a) as u64 } else { a as u64 };
    let ub: u64 = if b < 0 { (-b) as u64 } else { b as u64 };
    let q: u64 = ua / ub;
    assert(q <= ua) by (nonlinear_arith)
        requires
            q == ua / ub,
            ub >= 1,
    ;
    if (a < 0) == (b < 0) {
        q as i64
    } else {
        -(q as i64)
    }
}

impl Fixed16 {
    /// The absolute value; the most negative value stays as it is.
    pub fn abs(&self) -> (r: Self)
        ensures
            r.0 == wrapping_abs_i16(self.0),
    {
        Fixed16((if self.0 < 0 { -(self.0 as i32) } else { self.0 as i32 }) as i16)
    }

    /// The magnitude as an unsigned value, which always fits.
    pub fn unsigned_abs(&self) -> (r: UFixed16)
        ensures
            r.0 as int == abs_int(self.0 as int),
    {
        UFixed16((if self.0 < 0 { -(self.0 as i32) } else { self.0 as i32 }) as u16)
    }

    /// Widens to 32 bits, keeping the value.
    pub fn to_32(&self) -> (r: Fixed32)
        ensures
            r.0 == self.0 as i32,
    {
        Fixed32(self.0 as i32)
    }

    pub fn is_zero(&self) -> (r: bool)
        ensures
            r == (self.0 == 0),
    {
        self.0 == 0
    }

    pub fn is_positive(&self) -> (r: bool)
        ensures
            r == (self.0 > 0),
    {
        self.0 > 0
    }

    pub fn is_negative(&self) -> (r: bool)
        ensures
            r == (self.0 < 0),
    {
        self.0 < 0
    }

    /// Wrapping sum.
    pub fn add(self, rhs: Self) -> (r: Self)
        ensures
            r.0 == (self.0 + rhs.0) as i16,
    {
        Fixed16((self.0 as i32 + rhs.0 as i32) as i16)
    }

    /// Wrapping difference.
    pub fn sub(self, rhs: Self) -> (r: Self)
        ensures
            r.0 == (self.0 - rhs.0) as i16,
    {
        Fixed16((self.0 as i32 - rhs.0 as i32) as i16)
    }

    /// Wrapping negation.
    pub fn neg(self) -> (r: Self)
        ensures
            r.0 == (-self.0) as i16,
    {
        Fixed16((-(self.0 as i32)) as i16)
    }

    /// Fixed-point product: widened, shifted right by 12, truncated to 16 bits.
    pub fn mul(self, rhs: Self) -> (r: Self)
        ensures
            r.0 == ((((self.0 as i64) * (rhs.0 as i64)) as i64) >> 12u64) as i16,
    {
        let a: i64 = self.0 as i64;
        let b: i64 = rhs.0 as i64;
        assert(-0x4000_0000 <= a * b <= 0x4000_0000) by (nonlinear_arith)
            requires
                -0x8000 <= a <= 0x8000,
                -0x8000 <= b <= 0x8000,
        ;
        let p: i64 = a * b;
        Fixed16((p >> 12u64) as i16)
    }

    /// Fixed-point quotient: the dividend shifted left by 12 in 16 bits, then divided.
    pub fn div(self, rhs: Self) -> (r: Self)
        requires
            rhs.0 != 0,
            !((self.0 << 12u32) == i16::MIN && rhs.0 == -1),
        ensures
            r.0 == trunc_div((self.0 << 12u32) as int, rhs.0 as int) as i16,
    {
        let shifted: i16 = self.0 << 12u32;
        Fixed16(div_toward_zero(shifted as i64, rhs.0 as i64) as i16)
    }

    /// Raw bit shift left (not scaled).
    pub fn shl(self, rhs: i32) -> (r: Self)
        requires
            0 <= rhs < 16,
        ensures
            r.0 == self.0 << (rhs as u32),
    {
        Fixed16(self.0 << (rhs as u32))
    }

    /// Raw arithmetic shift right (not scaled).
    pub fn shr(self, rhs: i32) -> (r: Self)
        requires
            0 <= rhs < 16,
        ensures
            r.0 == self.0 >> (rhs as u32),
    {
        Fixed16(self.0 >> (rhs as u32))
    }

    /// Adds an unsigned value, wrapping to 16 bits.
    pub fn add_unsigned(self, rhs: UFixed16) -> (r: Self)
        ensures
            r.0 == (self.0 + rhs.0) as i16,
    {
        Fixed16((self.0 as i32 + rhs.0 as i32) as i16)
    }

    /// Subtracts an unsigned value, wrapping to 16 bits.
    pub fn sub_unsigned(self, rhs: UFixed16) -> (r: Self)
        ensures
            r.0 == (self.0 - rhs.0) as i16,
    {
        Fixed16((self.0 as i32 - rhs.0 as i32) as i16)
    }

    /// Equality with an unsigned value: a negative value equals no unsigned one.
    pub fn eq_unsigned(&self, other: &UFixed16) -> (r: bool)
        ensures
            r == (self.0 as int == other.0 as int),
    {
        if self.0 < 0 {
            return false;
        }
        self.0 as u16 == other.0
    }

    /// Order against an unsigned value: a negative value is below every unsigned one.
    pub fn lt_unsigned(&self, other: &UFixed16) -> (r: bool)
        ensures
            r == ((self.0 as int) < other.0 as int),
    {
        if self.0 < 0 {
            return true;
        }
        (self.0 as u16) < other.0
    }
}

impl UFixed16 {
    /// Widens to 32 bits, keeping the value.
    pub fn to_32(&self) -> (r: Fixed32)
        ensures
            r.0 == self.0 as i32,
    {
        Fixed32(self.0 as i32)
    }

    /// Wrapping sum.
    pub fn add(self, rhs: Self) -> (r: Self)
        ensures
            r.0 == (self.0 + rhs.0) as u16,
    {
        UFixed16((self.0 as u32 + rhs.0 as u32) as u16)
    }

    /// Wrapping difference.
    pub fn sub(self, rhs: Self) -> (r: Self)
        ensures
            r.0 == (self.0 - rhs.0) as u16,
    {
        UFixed16((self.0 as i32 - rhs.0 as i32) as u16)
    }

    /// Negation into the signed type, wrapping to 16 bits.
    pub fn neg(self) -> (r: Fixed16)
        ensures
            r.0 == (-(self.0 as i16)) as i16,
    {
        Fixed16((-((self.0 as i16) as i32)) as i16)
    }

    /// Fixed-point product: widened, shifted right by 12, truncated to 16 bits.
    pub fn mul(self, rhs: Self) -> (r: Self)
        ensures
            r.0 == ((((self.0 as u64) * (rhs.0 as u64)) as u64) >> 12u64) as u16,
    {
        let a: u64 = self.0 as u64;
        let b: u64 = rhs.0 as u64;
        assert(a * b <= 0x1_0000_0000) by (nonlinear_arith)
            requires
                a <= 0x10000,
                b <= 0x10000,
        ;
        let p: u64 = a * b;
        UFixed16((p >> 12u64) as u16)
    }

    /// Fixed-point quotient: the dividend shifted left by 12 in 16 bits, then divided.
    pub fn div(self, rhs: Self) -> (r: Self)
        requires
            rhs.0 != 0,
        ensures
            r.0 == ((self.0 << 12u32) / rhs.0) as u16,
    {
        UFixed16((self.0 << 12u32) / rhs.0)
    }

    /// Raw bit shift left (not scaled).
    pub fn shl(self, rhs: i32) -> (r: Self)
        requires
            0 <= rhs < 16,
        ensures
            r.0 == self.0 << (rhs as u32),
    {
        UFixed16(self.0 << (rhs as u32))
    }

    /// Raw bit shift right (not scaled).
    pub fn shr(self, rhs: i32) -> (r: Self)
        requires
            0 <= rhs < 16,
        ensures
            r.0 == self.0 >> (rhs as u32),
    {
        UFixed16(self.0 >> (rhs as u32))
    }
}

/// The number of significant bits of `v`.
pub open spec fn bit_len(v: u32) -> nat
    decreases v,
{
    if v == 0 {
        0
    } else {
        if v >> 1u32 < v {
            1 + bit_len(v >> 1u32)
        } else {
            0
        }
    }
}

/// The leading zero count of a 32-bit word, rounded down to an even number.
pub open spec fn even_leading_zeros(v: u32) -> int {
    let z = 32 - bit_len(v);
    z - z % 2
}

/// The table index for a positive `v`: the top seven or eight significant bits.
pub open spec fn root_index(v: u32) -> int {
    let z = even_leading_zeros(v);
    if z < 24 {
        ((v as u64) >> ((24 - z) as u64)) as int
    } else {
        ((v as u64) << ((z - 24) as u64)) as int
    }
}

/// Table-driven square root of a value that was shifted left by 12 beforehand.
/// Zero and -1 give zero.
pub open spec fn table_sqrt(val: i32) -> u32 {
    if val == 0 || val == -1 {
        0
    } else {
        let v = val as u32;
        let z = even_leading_zeros(v);
        let entry = if root_index(v) > 255 { 0 } else { root_entry(root_index(v) as u16) };
        (entry << (((31 - z) / 2) as u32)) >> 12u32
    }
}

fn bit_length(v: u32) -> (r: u32)
    ensures
        r == bit_len(v),
        r <= 32,
        v != 0 ==> r >= 1,
{
    let mut w: u32 = v;
    let mut n: u32 = 0;
    assert(v <= (0xffff_ffffu32 >> 0u32)) by (bit_vector);
    while w != 0
        invariant
            n + bit_len(w) == bit_len(v),
            n <= 32,
            w <= (0xffff_ffffu32 >> n),
            v != 0 ==> (n >= 1 || w == v),
        decreases w,
    {
        assert(w >> 1u32 < w) by (bit_vector)
            requires
                w != 0,
        ;
        assert(n < 32 && (w >> 1u32) <= (0xffff_ffffu32 >> ((n + 1) as u32))) by (bit_vector)
            requires
                w != 0,
                n <= 32,
                w <= (0xffff_ffffu32 >> n),
        ;
        assert(bit_len(w) == 1 + bit_len(w >> 1u32));
        w = w >> 1u32;
        n = n + 1;
    }
    n
}

/// Square root of a value that was shifted left by 12 beforehand, by table lookup on
/// the leading significant bits.
pub fn sqrt(val: i32) -> (r: u32)
    requires
        val >= -1,
    ensures
        r == table_sqrt(val),
{
    if val == 0 || val == -1 {
        return 0;
    }
    let v: u32 = val as u32;
    let len: u32 = bit_length(v);
    let lz: u32 = 32 - len;
    let zeros: u32 = lz - lz % 2;
    let index: u64 = if zeros < 24 {
        (v as u64) >> ((24 - zeros) as u64)
    } else {
        (v as u64) << ((zeros - 24) as u64)
    };
    let entry: u32 = if index > 255 { 0 } else { root_lookup(index as u16) };
    proof {
        assert(zeros <= 31);
    }
    (entry << ((31 - zeros) / 2)) >> 12u32
}

/// The sine of a 12-bit circular angle (0x400 is a quarter turn), from the table.
pub open spec fn table_sin(a: i32) -> i32 {
    let v = a & 0x7ff;
    let index = if v < 0x400 { v as int } else { 0x800 - v };
    let m = sine_entry(index as u16);
    if a & 0x800 != 0 {
        (-m) as i32
    } else {
        m
    }
}

impl Fixed32 {
    /// The absolute value; the most negative value stays as it is.
    pub fn abs(&self) -> (r: Self)
        ensures
            r.0 == wrapping_abs_i32(self.0),
    {
        Fixed32((if self.0 < 0 { -(self.0 as i64) } else { self.0 as i64 }) as i32)
    }

    /// The next raw value, wrapping.
    pub fn inc(&self) -> (r: Self)
        ensures
            r.0 == (self.0 + 1) as i32,
    {
        Fixed32((self.0 as i64 + 1) as i32)
    }

    /// The previous raw value, wrapping.
    pub fn dec(&self) -> (r: Self)
        ensures
            r.0 == (self.0 - 1) as i32,
    {
        Fixed32((self.0 as i64 - 1) as i32)
    }

    /// Fixed-point square root: the raw value is shifted left by 12 (wrapping) and
    /// passed to the table root, which needs the shifted value to be non-negative.
    pub fn sqrt(&self) -> (r: Self)
        requires
            (self.0 << 12u32) >= 0,
        ensures
            r.0 == table_sqrt(self.0 << 12u32) as i32,
    {
        Fixed32(sqrt(self.0 << 12u32) as i32)
    }

    /// Table sine of the angle in the low 12 bits (0x400 is a quarter turn).
    pub fn sin(&self) -> (r: Self)
        ensures
            r.0 == table_sin(self.0),
            -4096 <= r.0 <= 4096,
    {
        let raw: i32 = self.0;
        let val: i32 = raw & 0x7ff;
        assert(0 <= val <= 0x7ff) by (bit_vector)
            requires
                val == raw & 0x7ff,
        ;
        let index: u16 = if val < 0x400 { val as u16 } else { (0x800 - val) as u16 };
        let m: i32 = sine_lookup(index);
        if (self.0 & 0x800) != 0 {
            Fixed32(-m)
        } else {
            Fixed32(m)
        }
    }

    /// Table cosine: the sine a quarter turn later.
    pub fn cos(&self) -> (r: Self)
        ensures
            r.0 == table_sin((self.0 + 0x400) as i32),
            -4096 <= r.0 <= 4096,
    {
        Fixed32((self.0 as i64 + 0x400) as i32).sin()
    }

    pub fn is_zero(&self) -> (r: bool)
        ensures
            r == (self.0 == 0),
    {
        self.0 == 0
    }

    pub fn is_positive(&self) -> (r: bool)
        ensures
            r == (self.0 > 0),
    {
        self.0 > 0
    }

    pub fn is_negative(&self) -> (r: bool)
        ensures
            r == (self.0 < 0),
    {
        self.0 < 0
    }

    /// Wrapping sum.
    pub fn add(self, rhs: Self) -> (r: Self)
        ensures
            r.0 == (self.0 + rhs.0) as i32,
    {
        Fixed32((self.0 as i64 + rhs.0 as i64) as i32)
    }

    /// Wrapping difference.
    pub fn sub(self, rhs: Self) -> (r: Self)
        ensures
            r.0 == (self.0 - rhs.0) as i32,
    {
        Fixed32((self.0 as i64 - rhs.0 as i64) as i32)
    }

    /// Wrapping negation.
    pub fn neg(self) -> (r: Self)
        ensures
            r.0 == (-self.0) as i32,
    {
        Fixed32((-(self.0 as i64)) as i32)
    }

    /// The fixed-point product of two values.
    pub open spec fn mul_spec(self, rhs: Self) -> Self {
        Fixed32(((((self.0 as i64) * (rhs.0 as i64)) as i64) >> 12u64) as i32)
    }

    /// Fixed-point product: widened, shifted right by 12, truncated to 32 bits.
    pub fn mul(self, rhs: Self) -> (r: Self)
        ensures
            r == self.mul_spec(rhs),
    {
        let a: i64 = self.0 as i64;
        let b: i64 = rhs.0 as i64;
        assert(-0x4000_0000_0000_0000 <= a * b <= 0x4000_0000_0000_0000) by (nonlinear_arith)
            requires
                -0x8000_0000 <= a <= 0x8000_0000,
                -0x8000_0000 <= b <= 0x8000_0000,
        ;
        let p: i64 = a * b;
        Fixed32((p >> 12u64) as i32)
    }

    /// Fixed-point quotient: the dividend shifted left by 12 in 32 bits, then divided.
    pub fn div(self, rhs: Self) -> (r: Self)
        requires
            rhs.0 != 0,
            !((self.0 << 12u32) == i32::MIN && rhs.0 == -1),
        ensures
            r.0 == trunc_div((self.0 << 12u32) as int, rhs.0 as int) as i32,
    {
        let shifted: i32 = self.0 << 12u32;
        Fixed32(div_toward_zero(shifted as i64, rhs.0 as i64) as i32)
    }

    /// Raw bit shift left (not scaled).
    pub fn shl(self, rhs: i32) -> (r: Self)
        requires
            0 <= rhs < 32,
        ensures
            r.0 == self.0 << (rhs as u32),
    {
        Fixed32(self.0 << (rhs as u32))
    }

    /// Raw arithmetic shift right (not scaled).
    pub fn shr(self, rhs: i32) -> (r: Self)
        requires
            0 <= rhs < 32,
        ensures
            r.0 == self.0 >> (rhs as u32),
    {
        Fixed32(self.0 >> (rhs as u32))
    }

    /// Bitwise and of the raw values.
    pub fn bitand(self, rhs: Self) -> (r: Self)
        ensures
            r.0 == self.0 & rhs.0,
    {
        Fixed32(self.0 & rhs.0)
    }
}

/// A 2D vector of fixed-point numbers, usually the x and z coordinates of a point on the
/// ground plane.
#[derive(Debug, Clone, Copy, PartialEq, Eq, Hash, Structural)]
pub struct Vec2 {
    pub x: Fixed32,
    pub z: Fixed32,
}

/// The length of `(x, z)`: the table root of `x*x + z*z`, or the largest value when a
/// square or the sum leaves 32 bits.
pub open spec fn length_of(x: i32, z: i32) -> i32 {
    if x * x > i32::MAX || z * z > i32::MAX || x * x + z * z > i32::MAX {
        i32::MAX
    } else {
        table_sqrt((x * x + z * z) as i32) as i32
    }
}

/// The result of rotating `(x, z)` about the vertical axis by the table sine and cosine
/// of `angle`, wrapping to 32 bits before the shift by 12.
pub open spec fn rotated(x: i32, z: i32, angle: i32) -> (i32, i32) {
    let c = table_sin((angle + 0x400) as i32) as int;
    let s = table_sin(angle) as int;
    (((s * z + c * x) as i32) >> 12u32, ((c * z - s * x) as i32) >> 12u32)
}

/// The 12-bit heading from one point to another, given the arctangent of the slope
/// `dz / dx` (which only matters when the points differ in x).
pub open spec fn heading(from: Vec2, to: Vec2, atan_of_slope: i32) -> i32 {
    let dx = (to.x.0 - from.x.0) as i32;
    let dz = (to.z.0 - from.z.0) as i32;
    if dx != 0 {
        ((-(atan_of_slope + (if dx < 0 { 0x800int } else { 0 }))) as i32) & 0xfff
    } else {
        if dz > 0 { 0xc00 } else { 0x400 }
    }
}

impl Vec2 {
    pub fn new(x: Fixed32, z: Fixed32) -> (r: Self)
        ensures
            r == (Vec2 { x, z }),
    {
        Vec2 { x, z }
    }

    pub fn zero() -> (r: Self)
        ensures
            r.x.0 == 0 && r.z.0 == 0,
    {
        Vec2 { x: Fixed32(0), z: Fixed32(0) }
    }

    /// A vector of two 16-bit values, widened.
    pub fn from_16(x: Fixed16, z: Fixed16) -> (r: Self)
        ensures
            r.x.0 == x.0 as i32 && r.z.0 == z.0 as i32,
    {
        Vec2 { x: x.to_32(), z: z.to_32() }
    }

    /// A vector of two unsigned 16-bit values, widened.
    pub fn from_unsigned_16(x: UFixed16, z: UFixed16) -> (r: Self)
        ensures
            r.x.0 == x.0 as i32 && r.z.0 == z.0 as i32,
    {
        Vec2 { x: x.to_32(), z: z.to_32() }
    }

    /// The length, with the largest value standing in for one that overflows.
    pub fn len(&self) -> (r: Fixed32)
        ensures
            r.0 == length_of(self.x.0, self.z.0),
    {
        let x: i64 = self.x.0 as i64;
        let z: i64 = self.z.0 as i64;
        assert(0 <= x * x <= 0x4000_0000_0000_0000 && 0 <= z * z <= 0x4000_0000_0000_0000)
            by (nonlinear_arith)
            requires
                -0x8000_0000 <= x <= 0x8000_0000,
                -0x8000_0000 <= z <= 0x8000_0000,
        ;
        let xx: i64 = x * x;
        let zz: i64 = z * z;
        if xx > i32::MAX as i64 || zz > i32::MAX as i64 || xx + zz > i32::MAX as i64 {
            return Fixed32(i32::MAX);
        }
        Fixed32(sqrt((xx + zz) as i32) as i32)
    }

    /// Rotation about the vertical axis by a 12-bit angle.
    pub fn rotate_y(&self, angle: Fixed32) -> (r: Self)
        ensures
            (r.x.0, r.z.0) == rotated(self.x.0, self.z.0, angle.0),
    {
        let x: i64 = self.x.0 as i64;
        let z: i64 = self.z.0 as i64;
        let c: i64 = angle.cos().0 as i64;
        let s: i64 = angle.sin().0 as i64;
        assert(-0x1000_0000_0000 <= s * z <= 0x1000_0000_0000 && -0x1000_0000_0000 <= c * x
            <= 0x1000_0000_0000 && -0x1000_0000_0000 <= c * z <= 0x1000_0000_0000
            && -0x1000_0000_0000 <= s * x <= 0x1000_0000_0000) by (nonlinear_arith)
            requires
                -0x8000_0000 <= x <= 0x8000_0000,
                -0x8000_0000 <= z <= 0x8000_0000,
                -4096 <= c <= 4096,
                -4096 <= s <= 4096,
        ;
        let out_x: i64 = s * z + c * x;
        let out_z: i64 = c * z - s * x;
        Vec2 { x: Fixed32((out_x as i32) >> 12u32), z: Fixed32((out_z as i32) >> 12u32) }
    }

    /// The slope `dz / dx` from this point to `other`, whose arctangent gives the heading;
    /// `None` when both points have the same x.
    pub fn slope_to(&self, other: &Self) -> (r: Option<Fixed32>)
        requires
            !((((other.z.0 - self.z.0) as i32) << 12u32) == i32::MIN && (other.x.0 - self.x.0)
                as i32 == -1),
        ensures
            r matches Some(s) ==> (other.x.0 - self.x.0) as i32 != 0 && s.0 == trunc_div(
                (((other.z.0 - self.z.0) as i32) << 12u32) as int,
                (other.x.0 - self.x.0) as i32 as int,
            ) as i32,
            r is None <==> (other.x.0 - self.x.0) as i32 == 0,
    {
        let dx = other.x.sub(self.x);
        let dz = other.z.sub(self.z);
        if dx.is_zero() {
            None
        } else {
            Some(dz.div(dx))
        }
    }

    /// The 12-bit heading from this point to `other` (0x400 is a quarter turn), given the
    /// arctangent of `slope_to(other)` in the same angle units.
    pub fn heading_from_atan(&self, other: &Self, atan_of_slope: Fixed32) -> (r: Fixed32)
        ensures
            r.0 == heading(*self, *other, atan_of_slope.0),
    {
        let dx = other.x.sub(self.x);
        let dz = other.z.sub(self.z);
        if !dx.is_zero() {
            let turn: i64 = if dx.is_negative() { 0x800 } else { 0 };
            Fixed32(((-(atan_of_slope.0 as i64 + turn)) as i32) & 0xfff)
        } else {
            Fixed32(0x400 + if dz.is_positive() { 0x800i32 } else { 0 })
        }
    }

    /// Component-wise difference, saturating at the bounds of 32 bits.
    pub fn saturating_sub(&self, rhs: Self) -> (r: Self)
        ensures
            r.x.0 == (if self.x.0 - rhs.x.0 > i32::MAX { i32::MAX as int } else if self.x.0
                - rhs.x.0 < i32::MIN { i32::MIN as int } else { self.x.0 - rhs.x.0 }),
            r.z.0 == (if self.z.0 - rhs.z.0 > i32::MAX { i32::MAX as int } else if self.z.0
                - rhs.z.0 < i32::MIN { i32::MIN as int } else { self.z.0 - rhs.z.0 }),
    {
        let dx: i64 = self.x.0 as i64 - rhs.x.0 as i64;
        let dz: i64 = self.z.0 as i64 - rhs.z.0 as i64;
        let x: i32 = if dx > i32::MAX as i64 {
            i32::MAX
        } else if dx < i32::MIN as i64 {
            i32::MIN
        } else {
            dx as i32
        };
        let z: i32 = if dz > i32::MAX as i64 {
            i32::MAX
        } else if dz < i32::MIN as i64 {
            i32::MIN
        } else {
            dz as i32
        };
        Vec2 { x: Fixed32(x), z: Fixed32(z) }
    }

    pub fn is_zero(&self) -> (r: bool)
        ensures
            r == (self.x.0 == 0 && self.z.0 == 0),
    {
        self.x.is_zero() && self.z.is_zero()
    }

    /// Component-wise wrapping sum.
    pub fn add(self, rhs: Self) -> (r: Self)
        ensures
            r.x.0 == (self.x.0 + rhs.x.0) as i32 && r.z.0 == (self.z.0 + rhs.z.0) as i32,
    {
        Vec2 { x: self.x.add(rhs.x), z: self.z.add(rhs.z) }
    }

    /// Component-wise wrapping difference.
    pub fn sub(self, rhs: Self) -> (r: Self)
        ensures
            r.x.0 == (self.x.0 - rhs.x.0) as i32 && r.z.0 == (self.z.0 - rhs.z.0) as i32,
    {
        Vec2 { x: self.x.sub(rhs.x), z: self.z.sub(rhs.z) }
    }

    /// Component-wise wrapping negation.
    pub fn neg(self) -> (r: Self)
        ensures
            r.x.0 == (-self.x.0) as i32 && r.z.0 == (-self.z.0) as i32,
    {
        Vec2 { x: self.x.neg(), z: self.z.neg() }
    }

    /// Scales both components by a fixed-point factor.
    pub fn mul(self, rhs: Fixed32) -> (r: Self)
        ensures
            r.x == self.x.mul_spec(rhs) && r.z == self.z.mul_spec(rhs),
    {
        Vec2 { x: self.x.mul(rhs), z: self.z.mul(rhs) }
    }

    /// Raw shift left of both components.
    pub fn shl(self, rhs: i32) -> (r: Self)
        requires
            0 <= rhs < 32,
        ensures
            r.x.0 == self.x.0 << (rhs as u32) && r.z.0 == self.z.0 << (rhs as u32),
    {
        Vec2 { x: self.x.shl(rhs), z: self.z.shl(rhs) }
    }

    /// Raw arithmetic shift right of both components.
    pub fn shr(self, rhs: i32) -> (r: Self)
        requires
            0 <= rhs < 32,
        ensures
            r.x.0 == self.x.0 >> (rhs as u32) && r.z.0 == self.z.0 >> (rhs as u32),
    {
        Vec2 { x: self.x.shr(rhs), z: self.z.shr(rhs) }
    }
}

} // verus!
