//! What holds of the force model whatever the wheel does.

use vstd::prelude::*;
use crate::control::{
    below_max_speed, drive_force, facing, steer_torque_of, steered, wheel_force, Input,
    DRIVE_FORCE, MAX_SPEED, STEER_TORQUE,
};
use crate::math::{PlanarQuat, Quat, Rat2, Vec2};
use crate::vehicle::{
    lateral_friction, wheel_joint, Car, Entity, ExternalForce, Wheel, FRICTION_DEN, FRICTION_GAIN,
    FRICTION_NUM, TICK_RATE,
};
use crate::world::{same_mount, WheelEntity, World};

verus! {

/// The sideways axis of a body turned by `q`: its own downward axis in the
/// world.
pub open spec fn lateral_axis(q: PlanarQuat) -> Rat2 {
    q.rotate(Vec2 { x: 0, y: -1i32 })
}

/// A rotation keeps every length: the squared length of what it yields is
/// that of what it was given.
pub proof fn lemma_rotation_keeps_length(q: PlanarQuat, v: Vec2)
    ensures
        q.rotate(v).norm_sq_num() == (v.x * v.x + v.y * v.y) * (q.rotate(v).den * q.rotate(v).den),
{
    let c = q.cos_num();
    let s = q.sin_num();
    let n = q.norm_sq();
    let z = q.z;
    let w = q.w;
    assert(c * c + s * s == n * n) by (nonlinear_arith)
        requires
            c == w * w - z * z,
            s == 2 * w * z,
            n == z * z + w * w,
    ;
    let x = v.x as int;
    let y = v.y as int;
    let a = x * c;
    let b = y * s;
    let d = x * s;
    let e = y * c;
    assert(a * b == d * e) by (nonlinear_arith)
        requires
            a == x * c,
            b == y * s,
            d == x * s,
            e == y * c,
    ;
    assert((a - b) * (a - b) + (d + e) * (d + e) == a * a + d * d + (b * b + e * e)) by (nonlinear_arith)
        requires
            a * b == d * e,
    ;
    assert(a * a + d * d == x * x * (n * n)) by (nonlinear_arith)
        requires
            a == x * c,
            d == x * s,
            c * c + s * s == n * n,
    ;
    assert(b * b + e * e == y * y * (n * n)) by (nonlinear_arith)
        requires
            b == y * s,
            e == y * c,
            c * c + s * s == n * n,
    ;
    assert(x * x * (n * n) + y * y * (n * n) == (x * x + y * y) * (n * n)) by (nonlinear_arith);
}

/// The heading has length one under every rotation, and a body that is not
/// turned heads along the first axis.
pub proof fn lemma_facing_is_unit(q: PlanarQuat)
    ensures
        q.is_rotation() ==> facing(q).den > 0,
        facing(q).norm_sq_num() == facing(q).den * facing(q).den,
        facing(Quat::spec_identity()@) == (Rat2 { x: 1, y: 0, den: 1 }),
{
    lemma_rotation_keeps_length(q, Vec2 { x: 1, y: 0 });
    assert(q.z != 0 ==> q.z * q.z > 0) by (nonlinear_arith);
    assert(q.w != 0 ==> q.w * q.w > 0) by (nonlinear_arith);
    assert(q.z * q.z >= 0) by (nonlinear_arith);
    assert(q.w * q.w >= 0) by (nonlinear_arith);
    Quat::lemma_identity_view();
}

/// The heading and the sideways axis stand at right angles.
pub proof fn lemma_axes_are_orthogonal(q: PlanarQuat)
    ensures
        facing(q).x * lateral_axis(q).x + facing(q).y * lateral_axis(q).y == 0,
{
    let c = q.cos_num();
    let s = q.sin_num();
    assert(c * s + s * (-c) == 0) by (nonlinear_arith);
}

/// Lateral friction lies along the sideways axis of the wheel, against the
/// sideways part of its velocity. Its length is the length of that part times
/// the tick rate, the mass and the friction coefficient. Where the velocity
/// has no sideways part, there is no friction at all.
pub proof fn lemma_friction_cancels_slip(q: PlanarQuat, v: Vec2, mass: int)
    requires
        mass >= 0,
    ensures
        q.is_rotation() ==> lateral_friction(q, v, mass).den > 0,
        lateral_friction(q, v, mass).cross_num(lateral_axis(q)) == 0,
        ({
            let slip = lateral_axis(q).dot_num(v);
            let reach = FRICTION_GAIN * mass * slip;
            &&& lateral_friction(q, v, mass).norm_sq_num() == reach * reach * lateral_friction(
                q,
                v,
                mass,
            ).den
            &&& lateral_friction(q, v, mass).dot_num(v) <= 0
            &&& slip == 0 ==> lateral_friction(q, v, mass).is_zero()
        }),
{
    let axis = lateral_axis(q);
    let slip = axis.dot_num(v);
    let reach = FRICTION_GAIN * mass * slip;
    let n = axis.den;
    let f = lateral_friction(q, v, mass);
    lemma_rotation_keeps_length(q, Vec2 { x: 0, y: -1i32 });
    assert(axis.x * axis.x + axis.y * axis.y == n * n);
    assert(q.z != 0 ==> q.z * q.z > 0) by (nonlinear_arith);
    assert(q.w != 0 ==> q.w * q.w > 0) by (nonlinear_arith);
    assert(q.z * q.z >= 0) by (nonlinear_arith);
    assert(q.w * q.w >= 0) by (nonlinear_arith);
    assert(n > 0 ==> n * n > 0) by (nonlinear_arith);
    assert(f.x == -(reach * axis.x));
    assert(f.y == -(reach * axis.y));
    assert((-(reach * axis.x)) * axis.y - (-(reach * axis.y)) * axis.x == 0) by (nonlinear_arith);
    assert((-(reach * axis.x)) * (-(reach * axis.x)) + (-(reach * axis.y)) * (-(reach * axis.y))
        == reach * reach * (axis.x * axis.x + axis.y * axis.y)) by (nonlinear_arith);
    assert(v.x * (-(reach * axis.x)) + v.y * (-(reach * axis.y)) == -(reach * slip)) by (nonlinear_arith)
        requires
            slip == v.x * axis.x + v.y * axis.y,
    ;
    assert(reach * slip >= 0) by (nonlinear_arith)
        requires
            reach == 36 * mass * slip,
            mass >= 0,
    ;
    if slip == 0 {
        assert(reach == 0) by (nonlinear_arith)
            requires
                reach == FRICTION_GAIN * mass * slip,
                slip == 0,
        ;
        assert(reach * axis.x == 0 && reach * axis.y == 0) by (nonlinear_arith)
            requires
                reach == 0,
        ;
    }
}

/// Held for one tick on a body of the given mass, lateral friction takes away
/// the sideways part of the velocity, times the friction coefficient: the
/// force is that part, times the tick rate, the mass and the coefficient,
/// turned about.
pub proof fn lemma_friction_takes_slip_in_one_tick(q: PlanarQuat, v: Vec2, mass: int)
    ensures
        FRICTION_GAIN * FRICTION_DEN == TICK_RATE * FRICTION_NUM,
        ({
            let axis = lateral_axis(q);
            let slip = axis.dot_num(v);
            let friction = lateral_friction(q, v, mass);
            &&& friction.den == axis.den * axis.den
            &&& FRICTION_DEN * friction.x == -(TICK_RATE * FRICTION_NUM * mass) * (slip * axis.x)
            &&& FRICTION_DEN * friction.y == -(TICK_RATE * FRICTION_NUM * mass) * (slip * axis.y)
        }),
{
    let axis = lateral_axis(q);
    let slip = axis.dot_num(v);
    assert(5 * (-(36 * mass * slip * axis.x)) == -(60 * 3 * mass) * (slip * axis.x))
        by (nonlinear_arith);
    assert(5 * (-(36 * mass * slip * axis.y)) == -(60 * 3 * mass) * (slip * axis.y))
        by (nonlinear_arith);
}

/// With the forward key held under the cap, a wheel is driven forwards along
/// its heading, whether or not the backward key is held too.
pub proof fn lemma_forward_wins(keys: Input, q: PlanarQuat, v: Vec2)
    requires
        keys.forward,
        below_max_speed(q, v),
    ensures
        drive_force(keys, q, v) == facing(q).scale(DRIVE_FORCE as int),
{
}

/// With the backward key alone held under the cap, a wheel is driven
/// backwards along its heading.
pub proof fn lemma_backward_alone(keys: Input, q: PlanarQuat, v: Vec2)
    requires
        !keys.forward,
        keys.backward,
        below_max_speed(q, v),
    ensures
        drive_force(keys, q, v) == facing(q).scale(-DRIVE_FORCE),
{
}

/// At the cap and above it nothing drives a wheel, whatever is held, and
/// what is left of the force is the lateral friction.
pub proof fn lemma_speed_cap(keys: Input, q: PlanarQuat, v: Vec2, mass: int)
    requires
        facing(q).dot_num(v) >= MAX_SPEED * facing(q).den,
    ensures
        drive_force(keys, q, v).is_zero(),
        wheel_force(keys, q, v, mass) == lateral_friction(q, v, mass),
{
    let heading = facing(q);
    assert(0 * heading.x == 0 && 0 * heading.y == 0);
    assert(0 * heading.den == 0);
}

/// The force on a wheel is the sum of its drive force and its lateral
/// friction, as quotients.
pub proof fn lemma_force_is_drive_plus_friction(keys: Input, q: PlanarQuat, v: Vec2, mass: int)
    ensures
        ({
            let drive = drive_force(keys, q, v);
            let friction = lateral_friction(q, v, mass);
            let total = wheel_force(keys, q, v, mass);
            &&& total.x * (drive.den * friction.den) == (drive.x * friction.den + friction.x
                * drive.den) * total.den
            &&& total.y * (drive.den * friction.den) == (drive.y * friction.den + friction.y
                * drive.den) * total.den
        }),
{
    let drive = drive_force(keys, q, v);
    let friction = lateral_friction(q, v, mass);
    let n = q.norm_sq();
    assert(drive.den == n);
    assert(friction.den == n * n);
    assert((drive.x * n + friction.x) * (n * (n * n)) == (drive.x * (n * n) + friction.x * n) * (n
        * n)) by (nonlinear_arith);
    assert((drive.y * n + friction.y) * (n * (n * n)) == (drive.y * (n * n) + friction.y * n) * (n
        * n)) by (nonlinear_arith);
}

/// Steering turns steerable wheels only: to the left with the left key,
/// whether or not the right key is held too, to the right with the right key
/// alone, and not at all with neither.
pub proof fn lemma_steer_gating(keys: Input)
    ensures
        steer_torque_of(keys, false) == 0,
        keys.steer_left ==> steer_torque_of(keys, true) == STEER_TORQUE,
        !keys.steer_left && keys.steer_right ==> steer_torque_of(keys, true) == -STEER_TORQUE,
        !keys.steer_left && !keys.steer_right ==> steer_torque_of(keys, true) == 0,
{
}

/// A tick overwrites: what it gives a wheel does not depend on the force and
/// torque that the wheel had before.
pub proof fn lemma_force_is_overwritten(
    before: WheelEntity,
    stale: ExternalForce,
    after: WheelEntity,
    keys: Input,
)
    requires
        steered(before, after, keys),
    ensures
        steered(
            WheelEntity { wheel: Wheel { ext_force: stale, ..before.wheel }, ..before },
            after,
            keys,
        ),
{
}

/// The rig of a chassis is four wheels at the four corners, each joined to
/// that chassis at its corner and at its own origin, and the front pair,
/// whose anchors lie ahead of the chassis' centre, is the steerable one.
pub proof fn lemma_rig_shape(car: Entity)
    ensures
        Car::rig(car).len() == 4,
        Car::rig(car)[0].wheel.joint.data.anchor1() == (Vec2 { x: 60, y: 25 }),
        Car::rig(car)[1].wheel.joint.data.anchor1() == (Vec2 { x: 60, y: -25i32 }),
        Car::rig(car)[2].wheel.joint.data.anchor1() == (Vec2 { x: -60i32, y: 25 }),
        Car::rig(car)[3].wheel.joint.data.anchor1() == (Vec2 { x: -60i32, y: -25i32 }),
        forall|i: int|
            0 <= i < 4 ==> {
                let entity = #[trigger] Car::rig(car)[i];
                &&& entity.wheel.joint.parent == car
                &&& entity.wheel.joint.data.anchor2() == (Vec2 { x: 0, y: 0 })
                &&& (entity.steerable is Some <==> entity.wheel.joint.data.anchor1().x > 0)
                &&& (entity.steerable is Some <==> i < 2)
            },
{
}

/// The joint of a steerable wheel turns through sixty degrees to either side
/// and no further; any other wheel's joint does not turn.
pub proof fn lemma_joint_limits(parent: Entity, parent_anchor: Vec2, steerable: bool)
    ensures
        wheel_joint(parent, parent_anchor, steerable).data.angular_range() == (if steerable {
            (-60int, 60int)
        } else {
            (0int, 0int)
        }),
        wheel_joint(parent, parent_anchor, steerable).data.anchor1() == parent_anchor,
        wheel_joint(parent, parent_anchor, steerable).data.anchor2() == (Vec2 { x: 0, y: 0 }),
{
}

/// In a rigged world every marked wheel turns through sixty degrees to
/// either side, every other wheel not at all, every wheel hangs on a chassis
/// that exists, and of the four wheels of a chassis two are marked.
pub proof fn lemma_rigged_world(world: World, i: int)
    requires
        world.rigged(),
        0 <= i < world.wheels@.len(),
    ensures
        world.wheels@[i].wheel.joint.parent.index < world.cars@.len(),
        world.wheels@[i].wheel.joint.parent.index == i / 4,
        world.wheels@[i].steerable is Some <==> i % 4 < 2,
        world.wheels@[i].steerable is Some ==> world.wheels@[i].wheel.joint.data.angular_range() == (
            -60int,
            60int,
        ),
        world.wheels@[i].steerable is None ==> world.wheels@[i].wheel.joint.data.angular_range()
            == (0int, 0int),
        world.wheels@[i].wheel.joint.data.anchor2() == (Vec2 { x: 0, y: 0 }),
        ({
            let anchor = world.wheels@[i].wheel.joint.data.anchor1();
            &&& (anchor.x == 60 || anchor.x == -60)
            &&& (anchor.y == 25 || anchor.y == -25)
        }),
{
    let car = world.wheels@[i].wheel.joint.parent;
    lemma_rig_shape(car);
    assert(same_mount(world.wheels@[i], Car::rig(car)[i % 4]));
    assert(0 <= i % 4 < 4);
}

} // verus!
