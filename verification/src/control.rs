//! What happens every tick: the force and torque on each wheel, and the
//! camera that follows the chassis.

use vstd::prelude::*;
use crate::math::{lemma_mul_bound, lemma_quat_bounds, PlanarQuat, Quat, Rat2, RatVec2, Transform, Vec2, Vec3};
use crate::vehicle::{
    lateral_friction, lemma_friction_bounds, mass_of, AdditionalMassProperties, Car, Entity,
    ExternalForce, Handle, Velocity, Wheel,
};
use crate::world::{Camera, WheelEntity, World};

verus! {

/// The force that drives a wheel along its heading.
pub const DRIVE_FORCE: i128 = 16000;

/// The forward speed from which on a wheel is driven no more.
pub const MAX_SPEED: i128 = 1000;

/// The torque that turns a steerable wheel.
pub const STEER_TORQUE: i32 = 1;

/// The keys that are held during a tick.
#[derive(Clone, Copy, Debug, PartialEq, Eq, Structural)]
pub struct Input {
    pub forward: bool,
    pub backward: bool,
    pub steer_left: bool,
    pub steer_right: bool,
}

/// The heading of a body turned by `q`: its own forward axis in the world.
pub open spec fn facing(q: PlanarQuat) -> Rat2 {
    q.rotate(Vec2 { x: 1, y: 0 })
}

/// The speed along the heading is under the cap. The cap itself is not.
pub open spec fn below_max_speed(q: PlanarQuat, v: Vec2) -> bool {
    facing(q).dot_num(v) < MAX_SPEED * facing(q).den
}

/// By how much the heading is scaled to give the drive force: forwards with
/// the forward key, backwards with the backward key alone, and nothing at or
/// above the cap, which is one and the same for both.
pub open spec fn drive_gain_of(keys: Input, below_cap: bool) -> int {
    if keys.forward && below_cap {
        DRIVE_FORCE as int
    } else if keys.backward && below_cap {
        -DRIVE_FORCE
    } else {
        0
    }
}

/// The drive force on a wheel turned by `q` that moves with `v`.
pub open spec fn drive_force(keys: Input, q: PlanarQuat, v: Vec2) -> Rat2 {
    facing(q).scale(drive_gain_of(keys, below_max_speed(q, v)))
}

/// The torque on a wheel: none unless it is steerable; then to the left with
/// the left key, to the right with the right key alone.
pub open spec fn steer_torque_of(keys: Input, steerable: bool) -> int {
    if !steerable {
        0
    } else if keys.steer_left {
        STEER_TORQUE as int
    } else if keys.steer_right {
        -STEER_TORQUE
    } else {
        0
    }
}

/// Drive force plus lateral friction, over the denominator of the friction.
pub open spec fn wheel_force(keys: Input, q: PlanarQuat, v: Vec2, mass: int) -> Rat2 {
    let drive = drive_force(keys, q, v);
    let friction = lateral_friction(q, v, mass);
    Rat2 {
        x: drive.x * drive.den + friction.x,
        y: drive.y * drive.den + friction.y,
        den: friction.den,
    }
}

/// The tick has given `after` its force and torque and left the rest of
/// `before` as it was.
pub open spec fn steered(before: WheelEntity, after: WheelEntity, keys: Input) -> bool {
    &&& after.steerable == before.steerable
    &&& after.wheel == (Wheel { ext_force: after.wheel.ext_force, ..before.wheel })
    &&& after.wheel.ext_force.force@ == wheel_force(
        keys,
        before.wheel.transform.rotation@,
        before.wheel.velocity.linvel,
        mass_of(before.wheel.mass) as int,
    )
    &&& after.wheel.ext_force.torque == steer_torque_of(keys, before.steerable is Some)
}

/// The camera `before`, moved over `target` in the plane, at its own height.
pub open spec fn following(before: Camera, target: Transform) -> Camera {
    Camera {
        transform: Transform {
            translation: Vec3 {
                x: target.translation.x,
                y: target.translation.y,
                z: before.transform.translation.z,
            },
            rotation: before.transform.rotation,
        },
    }
}

/// The heading of a body with the given rotation.
pub fn get_facing(rotation: &Quat) -> (heading: RatVec2)
    ensures
        heading@ == facing(rotation@),
        heading.den > 0,
        rotation@.in_range(),
        rotation@.is_rotation(),
{
    rotation.rotate(Vec2 { x: 1, y: 0 })
}

/// By how much the heading is scaled to give the drive force.
pub fn drive_gain(keys: &Input, below_cap: bool) -> (gain: i128)
    ensures
        gain == drive_gain_of(*keys, below_cap),
{
    if keys.forward && below_cap {
        DRIVE_FORCE
    } else if keys.backward && below_cap {
        -DRIVE_FORCE
    } else {
        0
    }
}

/// The torque on a wheel.
pub fn steer_torque(keys: &Input, steerable: bool) -> (torque: i32)
    ensures
        torque == steer_torque_of(*keys, steerable),
{
    if !steerable {
        return 0;
    }
    if keys.steer_left {
        STEER_TORQUE
    } else if keys.steer_right {
        -STEER_TORQUE
    } else {
        0
    }
}

/// The force and torque that one tick puts on a wheel.
pub fn wheel_forces(
    transform: &Transform,
    velocity: &Velocity,
    mass_properties: &AdditionalMassProperties,
    steerable: bool,
    keys: &Input,
) -> (ext_force: ExternalForce)
    ensures
        ext_force.force@ == wheel_force(
            *keys,
            transform.rotation@,
            velocity.linvel,
            mass_of(*mass_properties) as int,
        ),
        ext_force.force.den > 0,
        ext_force.torque == steer_torque_of(*keys, steerable),
        transform.rotation@.is_rotation(),
{
    let lateral_friction = Wheel::get_lateral_friction(transform, velocity, mass_properties);
    let heading = get_facing(&transform.rotation);
    let vx: i128 = velocity.linvel.x as i128;
    let vy: i128 = velocity.linvel.y as i128;
    proof {
        let q = transform.rotation@;
        lemma_quat_bounds(q);
        lemma_friction_bounds(q, velocity.linvel, mass_of(*mass_properties) as int);
        lemma_mul_bound(vx as int, heading.x as int, 0x8000_0000, 0x4000_0000);
        lemma_mul_bound(vy as int, heading.y as int, 0x8000_0000, 0x8000_0000);
    }
    let forward_speed: i128 = vx * heading.x + vy * heading.y;
    let below_cap = forward_speed < MAX_SPEED * heading.den;
    let gain = drive_gain(keys, below_cap);
    proof {
        lemma_mul_bound(gain as int, heading.x as int, 16000, 0x4000_0000);
        lemma_mul_bound(gain as int, heading.y as int, 16000, 0x8000_0000);
        lemma_mul_bound(gain * heading.x, heading.den as int, (16000 * 0x4000_0000) as int, 0x8000_0000);
        lemma_mul_bound(gain * heading.y, heading.den as int, (16000 * 0x8000_0000) as int, 0x8000_0000);
    }
    let drive = RatVec2 { x: gain * heading.x, y: gain * heading.y, den: heading.den };
    let force = RatVec2 {
        x: drive.x * drive.den + lateral_friction.x,
        y: drive.y * drive.den + lateral_friction.y,
        den: lateral_friction.den,
    };
    ExternalForce { force, torque: steer_torque(keys, steerable) }
}

/// Gives every wheel of the world the force and torque of this tick. What a
/// wheel had from the tick before is overwritten.
pub fn steer(world: &mut World, keys: &Input)
    ensures
        final(world).gravity == old(world).gravity,
        final(world).cameras@ == old(world).cameras@,
        final(world).cars@ == old(world).cars@,
        final(world).wheels@.len() == old(world).wheels@.len(),
        forall|i: int|
            0 <= i < old(world).wheels@.len() ==> steered(
                old(world).wheels@[i],
                #[trigger] final(world).wheels@[i],
                *keys,
            ),
        forall|i: int|
            0 <= i < old(world).wheels@.len()
                ==> (#[trigger] final(world).wheels@[i]).wheel.ext_force.force.den > 0,
        old(world).rigged() ==> final(world).rigged(),
{
    let count = world.wheels.len();
    let mut i: usize = 0;
    while i < count
        invariant
            i <= count,
            count == world.wheels@.len(),
            count == old(world).wheels@.len(),
            world.gravity == old(world).gravity,
            world.cameras@ == old(world).cameras@,
            world.cars@ == old(world).cars@,
            forall|j: int| 0 <= j < i ==> steered(old(world).wheels@[j], #[trigger] world.wheels@[j], *keys),
            forall|j: int| 0 <= j < i ==> (#[trigger] world.wheels@[j]).wheel.ext_force.force.den > 0,
            forall|j: int| i <= j < count ==> #[trigger] world.wheels@[j] == old(world).wheels@[j],
        decreases count - i,
    {
        let entity = world.wheels[i];
        let ext_force = wheel_forces(
            &entity.wheel.transform,
            &entity.wheel.velocity,
            &entity.wheel.mass,
            entity.steerable.is_some(),
            keys,
        );
        let wheel = Wheel { ext_force, ..entity.wheel };
        world.wheels.set(i, WheelEntity { wheel, steerable: entity.steerable });
        i += 1;
    }
}

impl Camera {
    /// This camera moved over `target` in the plane. Its height and its
    /// rotation stay.
    pub fn follow(&self, target: &Transform) -> (camera: Camera)
        ensures
            camera == following(*self, *target),
    {
        Camera {
            transform: Transform {
                translation: Vec3 {
                    x: target.translation.x,
                    y: target.translation.y,
                    z: self.transform.translation.z,
                },
                rotation: self.transform.rotation,
            },
        }
    }
}

/// Moves the one camera over the one chassis. The camera keeps its height and
/// its rotation.
pub fn follow_car(world: &mut World)
    requires
        old(world).cameras@.len() == 1,
        old(world).cars@.len() == 1,
    ensures
        final(world).gravity == old(world).gravity,
        final(world).cars@ == old(world).cars@,
        final(world).wheels@ == old(world).wheels@,
        final(world).cameras@ == seq![following(old(world).cameras@[0], old(world).cars@[0].transform)],
        old(world).rigged() ==> final(world).rigged(),
{
    let car_transform = world.cars[0].transform;
    let camera = world.cameras[0].follow(&car_transform);
    world.cameras.set(0, camera);
    assert(world.cameras@ =~= seq![following(old(world).cameras@[0], old(world).cars@[0].transform)]);
}

/// Makes the world ready: a camera at the origin, no gravity, and one car.
pub fn setup(world: &mut World, texture: Handle)
    ensures
        final(world).gravity == (Vec2 { x: 0, y: 0 }),
        final(world).cameras@ == old(world).cameras@.push(
            Camera { transform: Transform::spec_from_xyz(0, 0, 0) },
        ),
        final(world).cars@ == old(world).cars@.push(Car::spec_new(texture)),
        final(world).wheels@ == old(world).wheels@ + Car::rig(
            Entity { index: old(world).cars@.len() as usize },
        ),
        old(world).rigged() ==> final(world).rigged(),
{
    world.spawn_camera(Camera { transform: Transform::default() });
    world.gravity = Vec2::new(0, 0);
    Car::spawn(world, texture);
}

} // verus!
