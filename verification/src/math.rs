//! Plain-value carriers for the numbers behind a transform.
//!
//! Every scalar is stored as the bit pattern of an IEEE 754 single-precision
//! number. The easing state machine never does arithmetic on a scalar: it
//! copies values and compares them, and comparison of two bit patterns is
//! defined here exactly as the comparison of the numbers they encode.

use vstd::prelude::*;
use vstd::std_specs::cmp::PartialEqSpecImpl;

verus! {

/// Mask that clears the sign bit of a single-precision bit pattern.
pub const MAGNITUDE_MASK: u32 = 0x7fff_ffff;

/// Bit pattern of positive infinity; every magnitude above it encodes a NaN.
pub const INFINITY_BITS: u32 = 0x7f80_0000;

/// Bit pattern of the number one.
pub const ONE_BITS: u32 = 0x3f80_0000;

/// The bit pattern encodes a NaN: all exponent bits set, mantissa non-zero.
pub open spec fn is_nan_bits(a: u32) -> bool {
    (a & MAGNITUDE_MASK) > INFINITY_BITS
}

/// The bit pattern encodes positive or negative zero.
pub open spec fn is_zero_bits(a: u32) -> bool {
    (a & MAGNITUDE_MASK) == 0
}

/// Numeric equality of the two encoded numbers: a NaN equals nothing, the two
/// zeros equal each other, and every other number equals only its own
/// pattern.
pub open spec fn scalar_eq_spec(a: u32, b: u32) -> bool {
    &&& !is_nan_bits(a)
    &&& !is_nan_bits(b)
    &&& (a == b || (is_zero_bits(a) && is_zero_bits(b)))
}

/// Compares two single-precision bit patterns as numbers.
pub fn scalar_eq(a: u32, b: u32) -> (r: bool)
    ensures
        r == scalar_eq_spec(a, b),
{
    let ma: u32 = a & MAGNITUDE_MASK;
    let mb: u32 = b & MAGNITUDE_MASK;
    ma <= INFINITY_BITS && mb <= INFINITY_BITS && (a == b || (ma == 0 && mb == 0))
}

/// The sign bit of a single-precision bit pattern.
pub const SIGN_BIT: u32 = 0x8000_0000;

/// The place of a number on the number line, counted in steps of its
/// encoding: the magnitude of the pattern, negated where the sign bit is
/// set. Both zeros have the place zero, and of two numbers that are not NaN
/// the smaller one has the smaller place.
pub open spec fn scalar_place(a: u32) -> int {
    if a >= SIGN_BIT {
        -(a - SIGN_BIT)
    } else {
        a as int
    }
}

/// The first encoded number is less than the second. A NaN is neither less
/// nor greater than anything.
pub open spec fn scalar_lt_spec(a: u32, b: u32) -> bool {
    &&& !is_nan_bits(a)
    &&& !is_nan_bits(b)
    &&& scalar_place(a) < scalar_place(b)
}

/// Clearing the sign bit leaves the magnitude: the pattern itself, less the
/// sign bit where it is set.
proof fn magnitude_of(a: u32)
    ensures
        (a & MAGNITUDE_MASK) == if a >= SIGN_BIT {
            (a - SIGN_BIT) as u32
        } else {
            a
        },
{
    assert((a & 0x7fff_ffffu32) == if a >= 0x8000_0000u32 {
        (a - 0x8000_0000u32) as u32
    } else {
        a
    }) by (bit_vector);
}

/// Tells whether the first of two single-precision bit patterns encodes the
/// smaller number.
pub fn scalar_lt(a: u32, b: u32) -> (r: bool)
    ensures
        r == scalar_lt_spec(a, b),
{
    proof {
        magnitude_of(a);
        magnitude_of(b);
    }
    let ma: u32 = a & MAGNITUDE_MASK;
    let mb: u32 = b & MAGNITUDE_MASK;
    if ma > INFINITY_BITS || mb > INFINITY_BITS {
        return false;
    }
    if a >= SIGN_BIT {
        if b >= SIGN_BIT {
            mb < ma
        } else {
            ma > 0 || mb > 0
        }
    } else {
        b < SIGN_BIT && ma < mb
    }
}

/// A fraction held between zero and one: zero for a number below zero, one
/// for a number above one, and the number itself otherwise. A NaN stays what
/// it is.
pub open spec fn clamped_to_unit(t: u32) -> u32 {
    if scalar_lt_spec(t, 0) {
        0
    } else if scalar_lt_spec(ONE_BITS, t) {
        ONE_BITS
    } else {
        t
    }
}

/// Holds the fraction of a step that has elapsed between zero and one, so
/// that no blend runs past either of its snapshots.
pub fn clamp_to_unit(t: u32) -> (clamped: u32)
    ensures
        clamped == clamped_to_unit(t),
        !is_nan_bits(t) ==> !scalar_lt_spec(clamped, 0) && !scalar_lt_spec(ONE_BITS, clamped),
        !scalar_lt_spec(t, 0) && !scalar_lt_spec(ONE_BITS, t) ==> clamped == t,
{
    proof {
        magnitude_of(0);
        magnitude_of(ONE_BITS);
        magnitude_of(t);
    }
    if scalar_lt(t, 0) {
        0
    } else if scalar_lt(ONE_BITS, t) {
        ONE_BITS
    } else {
        t
    }
}

/// A three-component vector of single-precision bit patterns.
#[derive(Clone, Copy, Debug)]
pub struct Vec3 {
    pub x: u32,
    pub y: u32,
    pub z: u32,
}

impl Vec3 {
    /// Builds a vector from the bit patterns of its components.
    pub fn from_bits(x: u32, y: u32, z: u32) -> (v: Vec3)
        ensures
            v == (Vec3 { x, y, z }),
    {
        Vec3 { x, y, z }
    }

    /// The vector whose components are all positive zero.
    pub open spec fn zero_spec() -> Vec3 {
        Vec3 { x: 0, y: 0, z: 0 }
    }

    /// The vector whose components are all one.
    pub open spec fn one_spec() -> Vec3 {
        Vec3 { x: ONE_BITS, y: ONE_BITS, z: ONE_BITS }
    }

    /// Returns the vector whose components are all positive zero.
    pub fn zero() -> (v: Vec3)
        ensures
            v == Vec3::zero_spec(),
    {
        Vec3 { x: 0, y: 0, z: 0 }
    }

    /// Returns the vector whose components are all one.
    pub fn one() -> (v: Vec3)
        ensures
            v == Vec3::one_spec(),
    {
        Vec3 { x: ONE_BITS, y: ONE_BITS, z: ONE_BITS }
    }

    /// Componentwise numeric equality.
    pub open spec fn same_as(&self, other: &Vec3) -> bool {
        &&& scalar_eq_spec(self.x, other.x)
        &&& scalar_eq_spec(self.y, other.y)
        &&& scalar_eq_spec(self.z, other.z)
    }

}

impl PartialEq for Vec3 {
    fn eq(&self, other: &Vec3) -> (r: bool) {
        scalar_eq(self.x, other.x) && scalar_eq(self.y, other.y) && scalar_eq(self.z, other.z)
    }
}

impl PartialEqSpecImpl for Vec3 {
    open spec fn obeys_eq_spec() -> bool {
        true
    }

    open spec fn eq_spec(&self, other: &Vec3) -> bool {
        self.same_as(other)
    }
}

/// A quaternion of single-precision bit patterns, in the order x, y, z, w.
#[derive(Clone, Copy, Debug)]
pub struct Quat {
    pub x: u32,
    pub y: u32,
    pub z: u32,
    pub w: u32,
}

impl Quat {
    /// Builds a quaternion from the bit patterns of its components.
    pub fn from_bits(x: u32, y: u32, z: u32, w: u32) -> (q: Quat)
        ensures
            q == (Quat { x, y, z, w }),
    {
        Quat { x, y, z, w }
    }

    /// The rotation that turns nothing: (0, 0, 0, 1).
    pub open spec fn identity_spec() -> Quat {
        Quat { x: 0, y: 0, z: 0, w: ONE_BITS }
    }

    /// Returns the rotation that turns nothing.
    pub fn identity() -> (q: Quat)
        ensures
            q == Quat::identity_spec(),
    {
        Quat { x: 0, y: 0, z: 0, w: ONE_BITS }
    }

    /// Componentwise numeric equality. A quaternion and its negation encode
    /// the same rotation but are not the same value.
    pub open spec fn same_as(&self, other: &Quat) -> bool {
        &&& scalar_eq_spec(self.x, other.x)
        &&& scalar_eq_spec(self.y, other.y)
        &&& scalar_eq_spec(self.z, other.z)
        &&& scalar_eq_spec(self.w, other.w)
    }

}

impl PartialEq for Quat {
    fn eq(&self, other: &Quat) -> (r: bool) {
        scalar_eq(self.x, other.x) && scalar_eq(self.y, other.y) && scalar_eq(self.z, other.z)
            && scalar_eq(self.w, other.w)
    }
}

impl PartialEqSpecImpl for Quat {
    open spec fn obeys_eq_spec() -> bool {
        true
    }

    open spec fn eq_spec(&self, other: &Quat) -> bool {
        self.same_as(other)
    }
}

/// Translation, rotation and scale of one object.
#[derive(Clone, Copy, Debug, PartialEq)]
pub struct Transform {
    pub translation: Vec3,
    pub rotation: Quat,
    pub scale: Vec3,
}

impl Transform {
    /// No translation, no rotation, unit scale.
    pub open spec fn identity_spec() -> Transform {
        Transform {
            translation: Vec3::zero_spec(),
            rotation: Quat::identity_spec(),
            scale: Vec3::one_spec(),
        }
    }

    /// Returns the transform that changes nothing.
    pub fn identity() -> (t: Transform)
        ensures
            t == Transform::identity_spec(),
    {
        Transform { translation: Vec3::zero(), rotation: Quat::identity(), scale: Vec3::one() }
    }

    /// Builds a transform that only translates.
    pub fn from_translation(translation: Vec3) -> (t: Transform)
        ensures
            t == (Transform { translation, ..Transform::identity_spec() }),
    {
        Transform { translation, rotation: Quat::identity(), scale: Vec3::one() }
    }
}

/// Numeric equality is reflexive exactly on the patterns that are not NaN.
pub proof fn scalar_eq_reflexive(a: u32)
    ensures
        scalar_eq_spec(a, a) == !is_nan_bits(a),
{
}

/// Numeric equality is symmetric.
pub proof fn scalar_eq_symmetric(a: u32, b: u32)
    ensures
        scalar_eq_spec(a, b) == scalar_eq_spec(b, a),
{
}

/// Numeric equality is transitive.
pub proof fn scalar_eq_transitive(a: u32, b: u32, c: u32)
    requires
        scalar_eq_spec(a, b),
        scalar_eq_spec(b, c),
    ensures
        scalar_eq_spec(a, c),
{
}

/// The order of the encoded numbers is strict: nothing is less than itself,
/// and of two numbers at most one is less than the other. Two numbers of
/// which neither is a NaN and neither is less than the other are equal.
pub proof fn scalar_order_is_strict(a: u32, b: u32)
    ensures
        !scalar_lt_spec(a, a),
        !(scalar_lt_spec(a, b) && scalar_lt_spec(b, a)),
        !is_nan_bits(a) && !is_nan_bits(b) && !scalar_lt_spec(a, b) && !scalar_lt_spec(b, a)
            ==> scalar_eq_spec(a, b),
{
    magnitude_of(a);
    magnitude_of(b);
}

} // verus!
