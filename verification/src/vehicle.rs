//! The rig: a chassis, four wheels and the joints that hold them.

use vstd::prelude::*;
use crate::math::{lemma_mul_bound, lemma_quat_bounds, PlanarQuat, Rat2, RatVec2, Ratio, Transform, Vec2};
use crate::world::{same_mount, WheelEntity, World};

verus! {

/// How many ticks make a second.
pub const TICK_RATE: i128 = 60;

/// The friction coefficient is `FRICTION_NUM / FRICTION_DEN`, three fifths.
pub const FRICTION_NUM: i128 = 3;

/// See `FRICTION_NUM`.
pub const FRICTION_DEN: i128 = 5;

/// What friction makes of a sideways speed, for a body of unit mass: the tick
/// rate times the friction coefficient.
pub const FRICTION_GAIN: i128 = 36;

/// The mass of every wheel.
pub const WHEEL_MASS: u16 = 10;

/// The density of the chassis.
pub const CHASSIS_DENSITY: u16 = 10;

/// How far a steerable wheel may turn to either side, in degrees.
pub const STEER_LIMIT_DEG: i16 = 60;

/// Marks a wheel that steering acts on.
#[derive(Clone, Copy, Debug, PartialEq, Eq, Structural)]
pub struct Steerable;

/// The place of a chassis in the world.
#[derive(Clone, Copy, Debug, PartialEq, Eq, Structural)]
pub struct Entity {
    pub index: usize,
}

/// A picture, known by its number only.
#[derive(Clone, Copy, Debug, PartialEq, Eq, Structural)]
pub struct Handle {
    pub id: u64,
}

/// How a body takes part in the simulation.
#[derive(Clone, Copy, Debug, PartialEq, Eq, Structural)]
pub enum RigidBody {
    Dynamic,
    Fixed,
}

/// The shape that collides.
#[derive(Clone, Copy, Debug, PartialEq, Eq, Structural)]
pub enum Collider {
    Cuboid { half_x: i32, half_y: i32 },
}

/// Where a collider's mass comes from.
#[derive(Clone, Copy, Debug, PartialEq, Eq, Structural)]
pub enum ColliderMassProperties {
    Density(u16),
}

/// Mass, its centre and the inertia about it.
#[derive(Clone, Copy, Debug, PartialEq, Eq, Structural)]
pub struct MassProperties {
    pub local_center_of_mass: Vec2,
    pub mass: u16,
    pub principal_inertia: Ratio,
}

/// Mass given to a body that has no collider to take it from.
#[derive(Clone, Copy, Debug, PartialEq, Eq, Structural)]
pub enum AdditionalMassProperties {
    Mass(u16),
    MassProperties(MassProperties),
}

/// Force and torque to apply during the coming tick.
#[derive(Clone, Copy, Debug, PartialEq, Eq, Structural)]
pub struct ExternalForce {
    pub force: RatVec2,
    pub torque: i32,
}

/// How fast a body moves and turns.
#[derive(Clone, Copy, Debug, PartialEq, Eq, Structural)]
pub struct Velocity {
    pub linvel: Vec2,
    pub angvel: i32,
}

/// What a joint leaves free between the two bodies it holds.
#[derive(Clone, Copy, Debug, PartialEq, Eq, Structural)]
pub enum JointData {
    /// The second body turns about the anchor, between the two limits.
    Revolute { local_anchor1: Vec2, local_anchor2: Vec2, lower_deg: i16, upper_deg: i16 },
    /// The second body does not move against the first.
    Fixed { local_anchor1: Vec2, local_anchor2: Vec2 },
}

/// A joint between a body and its parent.
#[derive(Clone, Copy, Debug, PartialEq, Eq, Structural)]
pub struct ImpulseJoint {
    pub parent: Entity,
    pub data: JointData,
}

/// The chassis.
#[derive(Clone, Copy, Debug, PartialEq, Eq, Structural)]
pub struct Car {
    pub transform: Transform,
    pub body: RigidBody,
    pub collider: Collider,
    pub mass: ColliderMassProperties,
    pub texture: Handle,
}

/// One wheel.
#[derive(Clone, Copy, Debug, PartialEq, Eq, Structural)]
pub struct Wheel {
    pub transform: Transform,
    pub body: RigidBody,
    pub ext_force: ExternalForce,
    pub velocity: Velocity,
    pub mass: AdditionalMassProperties,
    pub joint: ImpulseJoint,
}

impl Default for ExternalForce {
    /// No force and no torque.
    fn default() -> (f: ExternalForce)
        ensures
            f == ExternalForce::spec_zero(),
    {
        ExternalForce { force: RatVec2::zero(), torque: 0 }
    }
}

impl ExternalForce {
    /// No force and no torque.
    pub open spec fn spec_zero() -> ExternalForce {
        ExternalForce { force: RatVec2 { x: 0, y: 0, den: 1 }, torque: 0 }
    }
}

impl Default for Velocity {
    /// At rest.
    fn default() -> (v: Velocity)
        ensures
            v == Velocity::spec_zero(),
    {
        Velocity { linvel: Vec2::zero(), angvel: 0 }
    }
}

impl Velocity {
    /// At rest.
    pub open spec fn spec_zero() -> Velocity {
        Velocity { linvel: Vec2 { x: 0, y: 0 }, angvel: 0 }
    }
}

impl Collider {
    /// A rectangle with the given half extents.
    pub fn cuboid(half_x: i32, half_y: i32) -> (c: Collider)
        ensures
            c == (Collider::Cuboid { half_x, half_y }),
    {
        Collider::Cuboid { half_x, half_y }
    }
}

impl JointData {
    /// The anchor on the parent's side.
    pub open spec fn anchor1(self) -> Vec2 {
        match self {
            JointData::Revolute { local_anchor1, .. } => local_anchor1,
            JointData::Fixed { local_anchor1, .. } => local_anchor1,
        }
    }

    /// The anchor on the side of the body that the joint holds.
    pub open spec fn anchor2(self) -> Vec2 {
        match self {
            JointData::Revolute { local_anchor2, .. } => local_anchor2,
            JointData::Fixed { local_anchor2, .. } => local_anchor2,
        }
    }

    /// The angles, in degrees, through which the held body may turn against
    /// its parent: from the first to the second.
    pub open spec fn angular_range(self) -> (int, int) {
        match self {
            JointData::Revolute { lower_deg, upper_deg, .. } => (lower_deg as int, upper_deg as int),
            JointData::Fixed { .. } => (0, 0),
        }
    }
}

/// The joint of a wheel at `parent_anchor` on the chassis `parent`: one that
/// turns within the steering limit for a steerable wheel, a rigid one for any
/// other. On the wheel's side the anchor is the wheel's own origin.
pub open spec fn wheel_joint(parent: Entity, parent_anchor: Vec2, steerable: bool) -> ImpulseJoint {
    ImpulseJoint {
        parent,
        data: if steerable {
            JointData::Revolute {
                local_anchor1: parent_anchor,
                local_anchor2: Vec2 { x: 0, y: 0 },
                lower_deg: (-STEER_LIMIT_DEG) as i16,
                upper_deg: STEER_LIMIT_DEG,
            }
        } else {
            JointData::Fixed { local_anchor1: parent_anchor, local_anchor2: Vec2 { x: 0, y: 0 } }
        },
    }
}

/// The mass that `mass_properties` gives.
pub open spec fn mass_of(mass_properties: AdditionalMassProperties) -> u16 {
    match mass_properties {
        AdditionalMassProperties::Mass(mass) => mass,
        AdditionalMassProperties::MassProperties(properties) => properties.mass,
    }
}

/// The force that, held for one tick, takes from a wheel of the given mass
/// the part of its velocity `v` that lies across its heading, scaled by the
/// friction coefficient. The wheel is turned by `q`; its sideways axis is its
/// own downward axis.
pub open spec fn lateral_friction(q: PlanarQuat, v: Vec2, mass: int) -> Rat2 {
    let normal = q.rotate(Vec2 { x: 0, y: -1i32 });
    let slip = normal.dot_num(v);
    Rat2 {
        x: -(FRICTION_GAIN * mass * slip * normal.x),
        y: -(FRICTION_GAIN * mass * slip * normal.y),
        den: normal.den * normal.den,
    }
}

/// How large a lateral friction can get.
pub proof fn lemma_friction_bounds(q: PlanarQuat, v: Vec2, mass: int)
    requires
        q.in_range(),
        0 <= mass <= 0xffff,
    ensures
        -0x10_0000_0000_0000_0000_0000_0000_0000 <= lateral_friction(q, v, mass).x
            <= 0x10_0000_0000_0000_0000_0000_0000_0000,
        -0x10_0000_0000_0000_0000_0000_0000_0000 <= lateral_friction(q, v, mass).y
            <= 0x10_0000_0000_0000_0000_0000_0000_0000,
        0 <= lateral_friction(q, v, mass).den <= 0x4000_0000_0000_0000,
{
    let normal = q.rotate(Vec2 { x: 0, y: -1i32 });
    let slip = normal.dot_num(v);
    lemma_quat_bounds(q);
    lemma_mul_bound(v.x as int, normal.x, 0x8000_0000, 0x8000_0000);
    lemma_mul_bound(v.y as int, normal.y, 0x8000_0000, 0x8000_0000);
    let gain = FRICTION_GAIN * mass;
    lemma_mul_bound(gain, slip, 0x40_0000, 0x8000_0000_0000_0000);
    lemma_mul_bound(gain * slip, normal.x, (0x40_0000 * 0x8000_0000_0000_0000) as int, 0x8000_0000);
    lemma_mul_bound(gain * slip, normal.y, (0x40_0000 * 0x8000_0000_0000_0000) as int, 0x8000_0000);
    lemma_mul_bound(normal.den, normal.den, 0x8000_0000, 0x8000_0000);
    assert(normal.den * normal.den >= 0) by (nonlinear_arith);
}

/// The mass that `mass_properties` gives.
pub fn get_mass(mass_properties: &AdditionalMassProperties) -> (mass: u16)
    ensures
        mass == mass_of(*mass_properties),
{
    match mass_properties {
        AdditionalMassProperties::Mass(mass) => *mass,
        AdditionalMassProperties::MassProperties(properties) => properties.mass,
    }
}

impl Wheel {
    /// The wheel that `new` makes.
    pub open spec fn spec_new(parent: Entity, parent_anchor: Vec2, steerable: bool) -> Wheel {
        Wheel {
            transform: Transform::spec_from_xyz(0, 0, 0),
            body: RigidBody::Dynamic,
            ext_force: ExternalForce::spec_zero(),
            velocity: Velocity::spec_zero(),
            mass: AdditionalMassProperties::MassProperties(
                MassProperties {
                    local_center_of_mass: Vec2 { x: 0, y: 0 },
                    mass: WHEEL_MASS,
                    principal_inertia: Ratio { num: 3, den: 2 },
                },
            ),
            joint: wheel_joint(parent, parent_anchor, steerable),
        }
    }

    /// A wheel at rest at the origin, joined to the chassis `parent` at
    /// `parent_anchor`.
    pub fn new(parent: Entity, parent_anchor: Vec2, steerable: bool) -> (wheel: Wheel)
        ensures
            wheel == Wheel::spec_new(parent, parent_anchor, steerable),
            wheel.transform.rotation@ == (PlanarQuat { z: 0, w: 1 }),
    {
        let joint = if steerable {
            ImpulseJoint {
                parent,
                data: JointData::Revolute {
                    local_anchor1: parent_anchor,
                    local_anchor2: Vec2::zero(),
                    lower_deg: -STEER_LIMIT_DEG,
                    upper_deg: STEER_LIMIT_DEG,
                },
            }
        } else {
            ImpulseJoint {
                parent,
                data: JointData::Fixed { local_anchor1: parent_anchor, local_anchor2: Vec2::zero() },
            }
        };
        let mass = MassProperties {
            local_center_of_mass: Vec2::zero(),
            mass: WHEEL_MASS,
            principal_inertia: Ratio { num: 3, den: 2 },
        };
        Wheel {
            transform: Transform::default(),
            body: RigidBody::Dynamic,
            ext_force: ExternalForce::default(),
            velocity: Velocity::default(),
            mass: AdditionalMassProperties::MassProperties(mass),
            joint,
        }
    }

    /// Kills the sideways motion of a wheel: the force that stops, within one
    /// tick, the part of `velocity` that lies across the wheel's heading.
    pub fn get_lateral_friction(
        transform: &Transform,
        velocity: &Velocity,
        mass_properties: &AdditionalMassProperties,
    ) -> (force: RatVec2)
        ensures
            force@ == lateral_friction(
                transform.rotation@,
                velocity.linvel,
                mass_of(*mass_properties) as int,
            ),
            force.den > 0,
            transform.rotation@.is_rotation(),
    {
        let lateral_normal = transform.down();
        let vx: i128 = velocity.linvel.x as i128;
        let vy: i128 = velocity.linvel.y as i128;
        let mass: i128 = get_mass(mass_properties) as i128;
        proof {
            let q = transform.rotation@;
            lemma_quat_bounds(q);
            lemma_mul_bound(vx as int, lateral_normal.x as int, 0x8000_0000, 0x8000_0000);
            lemma_mul_bound(vy as int, lateral_normal.y as int, 0x8000_0000, 0x8000_0000);
        }
        let slip: i128 = vx * lateral_normal.x + vy * lateral_normal.y;
        let gain: i128 = FRICTION_GAIN * mass;
        proof {
            lemma_mul_bound(gain as int, slip as int, 0x40_0000, 0x8000_0000_0000_0000);
            lemma_mul_bound(
                gain * slip,
                lateral_normal.x as int,
                (0x40_0000 * 0x8000_0000_0000_0000) as int,
                0x8000_0000,
            );
            lemma_mul_bound(
                gain * slip,
                lateral_normal.y as int,
                (0x40_0000 * 0x8000_0000_0000_0000) as int,
                0x8000_0000,
            );
            lemma_mul_bound(lateral_normal.den as int, lateral_normal.den as int, 0x8000_0000, 0x8000_0000);
            assert(lateral_normal.den * lateral_normal.den > 0) by (nonlinear_arith)
                requires
                    lateral_normal.den > 0,
            ;
        }
        let pull: i128 = gain * slip;
        RatVec2 {
            x: -(pull * lateral_normal.x),
            y: -(pull * lateral_normal.y),
            den: lateral_normal.den * lateral_normal.den,
        }
    }
}

impl Car {
    /// The chassis that `spawn` puts into the world.
    pub open spec fn spec_new(texture: Handle) -> Car {
        Car {
            transform: Transform::spec_from_xyz(0, 0, 10),
            body: RigidBody::Dynamic,
            collider: Collider::Cuboid { half_x: 64, half_y: 32 },
            mass: ColliderMassProperties::Density(CHASSIS_DENSITY),
            texture,
        }
    }

    fn new(texture: Handle) -> (car: Car)
        ensures
            car == Car::spec_new(texture),
    {
        Car {
            transform: Transform::from_xyz(0, 0, 10),
            body: RigidBody::Dynamic,
            collider: Collider::cuboid(64, 32),
            mass: ColliderMassProperties::Density(CHASSIS_DENSITY),
            texture,
        }
    }

    /// The four wheels of the chassis `car`, front left, front right, back
    /// left, back right, as `spawn` puts them into the world: the front pair
    /// steerable and marked so.
    pub open spec fn rig(car: Entity) -> Seq<WheelEntity> {
        seq![
            WheelEntity {
                wheel: Wheel::spec_new(car, Vec2 { x: 60, y: 25 }, true),
                steerable: Some(Steerable),
            },
            WheelEntity {
                wheel: Wheel::spec_new(car, Vec2 { x: 60, y: -25i32 }, true),
                steerable: Some(Steerable),
            },
            WheelEntity {
                wheel: Wheel::spec_new(car, Vec2 { x: -60i32, y: 25 }, false),
                steerable: None,
            },
            WheelEntity {
                wheel: Wheel::spec_new(car, Vec2 { x: -60i32, y: -25i32 }, false),
                steerable: None,
            },
        ]
    }

    /// Puts a chassis and its four wheels into the world.
    pub fn spawn(world: &mut World, texture: Handle)
        ensures
            final(world).gravity == old(world).gravity,
            final(world).cameras@ == old(world).cameras@,
            final(world).cars@ == old(world).cars@.push(Car::spec_new(texture)),
            final(world).wheels@ == old(world).wheels@ + Car::rig(
                Entity { index: old(world).cars@.len() as usize },
            ),
            old(world).rigged() ==> final(world).rigged(),
    {
        let car = world.spawn_car(Car::new(texture));

        let front_left_anchor = Vec2::new(60, 25);
        world.spawn_wheel(Wheel::new(car, front_left_anchor, true), Some(Steerable));

        let front_right_anchor = Vec2::new(60, -25);
        world.spawn_wheel(Wheel::new(car, front_right_anchor, true), Some(Steerable));

        let back_left_anchor = Vec2::new(-60, 25);
        world.spawn_wheel(Wheel::new(car, back_left_anchor, false), None);

        let back_right_anchor = Vec2::new(-60, -25);
        world.spawn_wheel(Wheel::new(car, back_right_anchor, false), None);
        proof {
            let before = old(world).wheels@;
            let rig = Car::rig(car);
            assert(world.wheels@ =~= before + rig);
            if old(world).rigged() {
                assert forall|i: int| 0 <= i < world.wheels@.len() implies ({
                    let entity = #[trigger] world.wheels@[i];
                    &&& entity.wheel.joint.parent.index == i / 4
                    &&& same_mount(entity, Car::rig(entity.wheel.joint.parent)[i % 4])
                }) by {
                    if i < before.len() {
                        assert(world.wheels@[i] == before[i]);
                    } else {
                        assert(i / 4 == car.index);
                        assert(world.wheels@[i] == rig[i % 4]);
                    }
                }
            }
        }
    }
}

} // verus!
