//! Integer vectors, planar rotations and exact rational vectors.
//!
//! Every quantity is a whole number or a quotient of whole numbers, so that
//! rotating and projecting lose nothing: a rotation is a planar quaternion
//! with integer parts, and what it yields is a pair of numerators over a
//! common denominator.

use vstd::prelude::*;

verus! {

/// A vector of the plane with whole-number coordinates.
#[derive(Clone, Copy, Debug, PartialEq, Eq, Structural)]
pub struct Vec2 {
    pub x: i32,
    pub y: i32,
}

/// A point of space with whole-number coordinates.
#[derive(Clone, Copy, Debug, PartialEq, Eq, Structural)]
pub struct Vec3 {
    pub x: i32,
    pub y: i32,
    pub z: i32,
}

/// A scalar quotient `num / den`.
#[derive(Clone, Copy, Debug, PartialEq, Eq, Structural)]
pub struct Ratio {
    pub num: i32,
    pub den: i32,
}

/// The mathematical vector `(x / den, y / den)`.
pub struct Rat2 {
    pub x: int,
    pub y: int,
    pub den: int,
}

/// An exact vector of the plane: the numerators `x` and `y` over the common
/// denominator `den`.
#[derive(Clone, Copy, Debug, PartialEq, Eq, Structural)]
pub struct RatVec2 {
    pub x: i128,
    pub y: i128,
    pub den: i128,
}

/// The mathematical planar quaternion `w + z k`, which turns the plane by
/// twice the angle of `(w, z)`.
pub struct PlanarQuat {
    pub z: int,
    pub w: int,
}

/// A rotation of the plane: a planar quaternion with integer parts, not both
/// zero. It need not be normalised.
#[derive(Clone, Copy, Debug, PartialEq, Eq, Structural)]
pub struct Quat {
    z: i16,
    w: i16,
}

/// Position and orientation of a body.
#[derive(Clone, Copy, Debug, PartialEq, Eq, Structural)]
pub struct Transform {
    pub translation: Vec3,
    pub rotation: Quat,
}

impl Rat2 {
    /// The numerator of the dot product with `v`, over `self.den`.
    pub open spec fn dot_num(self, v: Vec2) -> int {
        v.x * self.x + v.y * self.y
    }

    /// This vector times the whole number `k`.
    pub open spec fn scale(self, k: int) -> Rat2 {
        Rat2 { x: k * self.x, y: k * self.y, den: self.den }
    }

    /// The numerator of the squared length, over `self.den * self.den`.
    pub open spec fn norm_sq_num(self) -> int {
        self.x * self.x + self.y * self.y
    }

    /// Both coordinates are zero.
    pub open spec fn is_zero(self) -> bool {
        self.x == 0 && self.y == 0
    }

    /// The cross product's numerator: zero exactly when the two are parallel
    /// or one of them is zero.
    pub open spec fn cross_num(self, other: Rat2) -> int {
        self.x * other.y - self.y * other.x
    }
}

impl PlanarQuat {
    /// The squared norm, the denominator of everything this rotation yields.
    pub open spec fn norm_sq(self) -> int {
        self.z * self.z + self.w * self.w
    }

    /// The cosine of the rotation's angle, times `norm_sq`.
    pub open spec fn cos_num(self) -> int {
        self.w * self.w - self.z * self.z
    }

    /// The sine of the rotation's angle, times `norm_sq`.
    pub open spec fn sin_num(self) -> int {
        2 * self.w * self.z
    }

    /// The vector `v` turned by this rotation.
    pub open spec fn rotate(self, v: Vec2) -> Rat2 {
        Rat2 {
            x: v.x * self.cos_num() - v.y * self.sin_num(),
            y: v.x * self.sin_num() + v.y * self.cos_num(),
            den: self.norm_sq(),
        }
    }

    /// The rotation turns something: its parts are not both zero.
    pub open spec fn is_rotation(self) -> bool {
        self.z != 0 || self.w != 0
    }

    /// Both parts fit in sixteen bits.
    pub open spec fn in_range(self) -> bool {
        &&& -0x8000 <= self.z <= 0x7fff
        &&& -0x8000 <= self.w <= 0x7fff
    }
}

impl View for RatVec2 {
    type V = Rat2;

    open spec fn view(&self) -> Rat2 {
        Rat2 { x: self.x as int, y: self.y as int, den: self.den as int }
    }
}

impl View for Quat {
    type V = PlanarQuat;

    closed spec fn view(&self) -> PlanarQuat {
        PlanarQuat { z: self.z as int, w: self.w as int }
    }
}

/// A product is bounded by the product of the bounds.
pub proof fn lemma_mul_bound(a: int, b: int, ba: int, bb: int)
    requires
        -ba <= a <= ba,
        -bb <= b <= bb,
    ensures
        -(ba * bb) <= a * b <= ba * bb,
{
    assert(-(ba * bb) <= a * b <= ba * bb) by (nonlinear_arith)
        requires
            -ba <= a <= ba,
            -bb <= b <= bb,
    ;
}

/// What a rotation with sixteen-bit parts can yield: a positive denominator
/// and numerators within thirty-two bits.
pub proof fn lemma_quat_bounds(q: PlanarQuat)
    requires
        q.in_range(),
    ensures
        0 <= q.norm_sq() <= 0x8000_0000,
        -0x4000_0000 <= q.cos_num() <= 0x4000_0000,
        -0x8000_0000 <= q.sin_num() <= 0x8000_0000,
        q.is_rotation() ==> q.norm_sq() > 0,
{
    lemma_mul_bound(q.z, q.z, 0x8000, 0x8000);
    lemma_mul_bound(q.w, q.w, 0x8000, 0x8000);
    lemma_mul_bound(q.w, q.z, 0x8000, 0x8000);
    assert(q.z * q.z >= 0) by (nonlinear_arith);
    assert(q.w * q.w >= 0) by (nonlinear_arith);
    assert(q.z != 0 ==> q.z * q.z > 0) by (nonlinear_arith);
    assert(q.w != 0 ==> q.w * q.w > 0) by (nonlinear_arith);
    assert(2 * q.w * q.z == 2 * (q.w * q.z)) by (nonlinear_arith);
}

impl Vec2 {
    /// The vector `(x, y)`.
    pub fn new(x: i32, y: i32) -> (v: Vec2)
        ensures
            v == (Vec2 { x, y }),
    {
        Vec2 { x, y }
    }

    /// The zero vector.
    pub fn zero() -> (v: Vec2)
        ensures
            v == (Vec2 { x: 0, y: 0 }),
    {
        Vec2 { x: 0, y: 0 }
    }
}

impl Vec3 {
    /// The point `(x, y, z)`.
    pub fn new(x: i32, y: i32, z: i32) -> (v: Vec3)
        ensures
            v == (Vec3 { x, y, z }),
    {
        Vec3 { x, y, z }
    }

    /// The first two coordinates.
    pub fn truncate(&self) -> (v: Vec2)
        ensures
            v == (Vec2 { x: self.x, y: self.y }),
    {
        Vec2 { x: self.x, y: self.y }
    }
}

impl RatVec2 {
    /// The zero vector, over the denominator one.
    pub fn zero() -> (v: RatVec2)
        ensures
            v == (RatVec2 { x: 0, y: 0, den: 1 }),
    {
        RatVec2 { x: 0, y: 0, den: 1 }
    }
}

impl Quat {
    #[verifier::type_invariant]
    closed spec fn parts_not_both_zero(self) -> bool {
        self.z != 0 || self.w != 0
    }

    /// The rotation with the parts `z` and `w`, unless both are zero.
    pub fn new(z: i16, w: i16) -> (q: Option<Quat>)
        ensures
            q is Some <==> (z != 0 || w != 0),
            q matches Some(r) ==> r@ == (PlanarQuat { z: z as int, w: w as int }),
    {
        if z == 0 && w == 0 {
            None
        } else {
            Some(Quat { z, w })
        }
    }

    /// The rotation that turns nothing, for use in contracts.
    pub closed spec fn spec_identity() -> Quat {
        Quat { z: 0, w: 1 }
    }

    /// The rotation that turns nothing.
    #[verifier::when_used_as_spec(spec_identity)]
    pub fn identity() -> (q: Quat)
        ensures
            q == Quat::spec_identity(),
            q@ == (PlanarQuat { z: 0, w: 1 }),
    {
        Quat { z: 0, w: 1 }
    }

    /// The parts of the rotation that turns nothing.
    pub proof fn lemma_identity_view()
        ensures
            Quat::spec_identity()@ == (PlanarQuat { z: 0, w: 1 }),
    {
    }

    /// Two rotations with the same parts are the same value.
    pub proof fn lemma_view_injective(a: Quat, b: Quat)
        requires
            a@ == b@,
        ensures
            a == b,
    {
    }

    /// The part along the axis of rotation.
    pub fn z(&self) -> (z: i16)
        ensures
            z == self@.z,
    {
        self.z
    }

    /// The scalar part.
    pub fn w(&self) -> (w: i16)
        ensures
            w == self@.w,
    {
        self.w
    }

    /// Turns `v` by this rotation.
    pub fn rotate(&self, v: Vec2) -> (r: RatVec2)
        ensures
            r@ == self@.rotate(v),
            r.den > 0,
            self@.in_range(),
            self@.is_rotation(),
    {
        proof {
            use_type_invariant(self);
            lemma_quat_bounds(self@);
            lemma_mul_bound(self.w as int, self.w as int, 0x8000, 0x8000);
            lemma_mul_bound(self.z as int, self.z as int, 0x8000, 0x8000);
            lemma_mul_bound(self.w as int, self.z as int, 0x8000, 0x8000);
            assert(2 * self.w * self.z == 2 * (self.w * self.z)) by (nonlinear_arith);
        }
        let z: i128 = self.z as i128;
        let w: i128 = self.w as i128;
        let den: i128 = z * z + w * w;
        let cos: i128 = w * w - z * z;
        let sin: i128 = 2 * (w * z);
        let vx: i128 = v.x as i128;
        let vy: i128 = v.y as i128;
        proof {
            lemma_mul_bound(vx as int, cos as int, 0x8000_0000, 0x4000_0000);
            lemma_mul_bound(vy as int, sin as int, 0x8000_0000, 0x8000_0000);
            lemma_mul_bound(vx as int, sin as int, 0x8000_0000, 0x8000_0000);
            lemma_mul_bound(vy as int, cos as int, 0x8000_0000, 0x4000_0000);
        }
        RatVec2 { x: vx * cos - vy * sin, y: vx * sin + vy * cos, den }
    }
}

impl Default for Transform {
    /// The pose at the origin that turns nothing.
    fn default() -> (t: Transform)
        ensures
            t == Transform::spec_from_xyz(0, 0, 0),
            t.rotation@ == (PlanarQuat { z: 0, w: 1 }),
    {
        Transform::from_xyz(0, 0, 0)
    }
}

impl Transform {
    /// The pose at `(x, y, z)` that turns nothing, for use in contracts.
    pub open spec fn spec_from_xyz(x: i32, y: i32, z: i32) -> Transform {
        Transform { translation: Vec3 { x, y, z }, rotation: Quat::spec_identity() }
    }

    /// The pose at `(x, y, z)` that turns nothing.
    #[verifier::when_used_as_spec(spec_from_xyz)]
    pub fn from_xyz(x: i32, y: i32, z: i32) -> (t: Transform)
        ensures
            t == Transform::spec_from_xyz(x, y, z),
            t.rotation@ == (PlanarQuat { z: 0, w: 1 }),
    {
        Transform { translation: Vec3 { x, y, z }, rotation: Quat::identity() }
    }

    /// The body's own downward axis in the world.
    pub fn down(&self) -> (d: RatVec2)
        ensures
            d@ == self.rotation@.rotate(Vec2 { x: 0, y: -1i32 }),
            d.den > 0,
            self.rotation@.in_range(),
            self.rotation@.is_rotation(),
    {
        self.rotation.rotate(Vec2 { x: 0, y: -1 })
    }
}

} // verus!
