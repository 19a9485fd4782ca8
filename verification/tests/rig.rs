use car_rig::control::{follow_car, setup, steer, Input};
use car_rig::math::{Quat, RatVec2, Ratio, Transform, Vec2, Vec3};
use car_rig::vehicle::{
    AdditionalMassProperties, Car, Collider, ColliderMassProperties, Entity, ExternalForce, Handle,
    ImpulseJoint, JointData, MassProperties, RigidBody, Steerable, Velocity, Wheel,
};
use car_rig::world::{Camera, WheelEntity, World};

fn anchor_of(wheel: &Wheel) -> Vec2 {
    match wheel.joint.data {
        JointData::Revolute { local_anchor1, .. } => local_anchor1,
        JointData::Fixed { local_anchor1, .. } => local_anchor1,
    }
}

fn ready_world() -> World {
    let mut world = World::new(Vec2::new(0, -98));
    setup(&mut world, Handle { id: 1 });
    world
}

#[test]
fn new_world_is_empty() {
    let world = World::new(Vec2::new(0, -98));
    assert_eq!(world.gravity, Vec2::new(0, -98));
    assert!(world.cameras.is_empty());
    assert!(world.cars.is_empty());
    assert!(world.wheels.is_empty());
}

#[test]
fn steerable_wheel_has_a_limited_revolute_joint() {
    let wheel = Wheel::new(Entity { index: 3 }, Vec2::new(60, 25), true);
    assert_eq!(
        wheel.joint,
        ImpulseJoint {
            parent: Entity { index: 3 },
            data: JointData::Revolute {
                local_anchor1: Vec2::new(60, 25),
                local_anchor2: Vec2::new(0, 0),
                lower_deg: -60,
                upper_deg: 60,
            },
        }
    );
}

#[test]
fn fixed_wheel_has_a_rigid_joint() {
    let wheel = Wheel::new(Entity { index: 0 }, Vec2::new(-60, -25), false);
    assert_eq!(
        wheel.joint,
        ImpulseJoint {
            parent: Entity { index: 0 },
            data: JointData::Fixed {
                local_anchor1: Vec2::new(-60, -25),
                local_anchor2: Vec2::new(0, 0),
            },
        }
    );
}

#[test]
fn new_wheel_is_at_rest_with_fixed_mass() {
    for steerable in [false, true] {
        let wheel = Wheel::new(Entity { index: 0 }, Vec2::new(1, 2), steerable);
        assert_eq!(wheel.transform, Transform::from_xyz(0, 0, 0));
        assert_eq!(wheel.transform.rotation, Quat::identity());
        assert_eq!(wheel.body, RigidBody::Dynamic);
        assert_eq!(wheel.ext_force, ExternalForce { force: RatVec2 { x: 0, y: 0, den: 1 }, torque: 0 });
        assert_eq!(wheel.velocity, Velocity { linvel: Vec2::new(0, 0), angvel: 0 });
        assert_eq!(
            wheel.mass,
            AdditionalMassProperties::MassProperties(MassProperties {
                local_center_of_mass: Vec2::new(0, 0),
                mass: 10,
                principal_inertia: Ratio { num: 3, den: 2 },
            })
        );
    }
}

#[test]
fn defaults_are_zero() {
    assert_eq!(ExternalForce::default(), ExternalForce { force: RatVec2::zero(), torque: 0 });
    assert_eq!(Velocity::default(), Velocity { linvel: Vec2::zero(), angvel: 0 });
    assert_eq!(Transform::default().translation, Vec3::new(0, 0, 0));
    assert_eq!(Vec3::new(4, 5, 6).truncate(), Vec2::new(4, 5));
    assert_eq!(Collider::cuboid(64, 32), Collider::Cuboid { half_x: 64, half_y: 32 });
}

#[test]
fn spawn_makes_a_chassis_and_four_wheels() {
    let mut world = World::new(Vec2::zero());
    Car::spawn(&mut world, Handle { id: 9 });
    assert_eq!(world.cars.len(), 1);
    assert_eq!(world.wheels.len(), 4);
    assert!(world.cameras.is_empty());
    let car = world.cars[0];
    assert_eq!(car.transform.translation, Vec3::new(0, 0, 10));
    assert_eq!(car.transform.rotation, Quat::identity());
    assert_eq!(car.body, RigidBody::Dynamic);
    assert_eq!(car.collider, Collider::Cuboid { half_x: 64, half_y: 32 });
    assert_eq!(car.mass, ColliderMassProperties::Density(10));
    assert_eq!(car.texture, Handle { id: 9 });
}

#[test]
fn rig_has_the_four_corners_and_steers_in_front() {
    let mut world = World::new(Vec2::zero());
    Car::spawn(&mut world, Handle { id: 9 });
    let anchors: Vec<Vec2> = world.wheels.iter().map(|e| anchor_of(&e.wheel)).collect();
    assert_eq!(
        anchors,
        vec![Vec2::new(60, 25), Vec2::new(60, -25), Vec2::new(-60, 25), Vec2::new(-60, -25)]
    );
    let marks: Vec<bool> = world.wheels.iter().map(|e| e.steerable.is_some()).collect();
    assert_eq!(marks, vec![true, true, false, false]);
    for entity in world.wheels.iter() {
        assert_eq!(entity.wheel.joint.parent, Entity { index: 0 });
        assert_eq!(entity.steerable.is_some(), anchor_of(&entity.wheel).x > 0);
        assert_eq!(
            entity.wheel,
            Wheel::new(Entity { index: 0 }, anchor_of(&entity.wheel), entity.steerable.is_some())
        );
    }
}

#[test]
fn joint_limits_follow_the_mark() {
    let world = ready_world();
    for entity in world.wheels.iter() {
        match entity.wheel.joint.data {
            JointData::Revolute { local_anchor2, lower_deg, upper_deg, .. } => {
                assert_eq!(entity.steerable, Some(Steerable));
                assert_eq!((lower_deg, upper_deg), (-60, 60));
                assert_eq!(local_anchor2, Vec2::zero());
            }
            JointData::Fixed { local_anchor2, .. } => {
                assert_eq!(entity.steerable, None);
                assert_eq!(local_anchor2, Vec2::zero());
            }
        }
    }
}

#[test]
fn second_car_gets_its_own_wheels() {
    let mut world = ready_world();
    Car::spawn(&mut world, Handle { id: 2 });
    assert_eq!(world.cars.len(), 2);
    assert_eq!(world.wheels.len(), 8);
    assert_eq!(world.cameras.len(), 1);
    for (i, entity) in world.wheels.iter().enumerate() {
        assert_eq!(entity.wheel.joint.parent.index, i / 4);
        assert_eq!(entity.steerable.is_some(), i % 4 < 2);
    }
    assert_eq!(world.cars[1].texture, Handle { id: 2 });
    let mut moved = world.wheels[0].wheel;
    moved.joint.parent = Entity { index: 1 };
    assert_eq!(world.wheels[4].wheel, moved);
}

#[test]
fn setup_gives_one_camera_no_gravity_and_one_car() {
    let world = ready_world();
    assert_eq!(world.gravity, Vec2::new(0, 0));
    assert_eq!(world.cameras, vec![Camera { transform: Transform::from_xyz(0, 0, 0) }]);
    assert_eq!(world.cars.len(), 1);
    assert_eq!(world.wheels.len(), 4);
}

#[test]
fn one_tick_forward_from_rest() {
    let mut world = ready_world();
    let held = Input { forward: true, backward: false, steer_left: false, steer_right: false };
    steer(&mut world, &held);
    assert_eq!(world.wheels.len(), 4);
    for entity in world.wheels.iter() {
        assert_eq!(
            entity.wheel.ext_force,
            ExternalForce { force: RatVec2 { x: 16000, y: 0, den: 1 }, torque: 0 }
        );
    }
}

#[test]
fn one_tick_steering_left_turns_the_front_pair() {
    let mut world = ready_world();
    let held = Input { forward: true, backward: false, steer_left: true, steer_right: false };
    steer(&mut world, &held);
    let torques: Vec<i32> = world.wheels.iter().map(|e| e.wheel.ext_force.torque).collect();
    assert_eq!(torques, vec![1, 1, 0, 0]);
    let held = Input { forward: false, backward: false, steer_left: false, steer_right: true };
    steer(&mut world, &held);
    let torques: Vec<i32> = world.wheels.iter().map(|e| e.wheel.ext_force.torque).collect();
    assert_eq!(torques, vec![-1, -1, 0, 0]);
}

#[test]
fn steer_overwrites_and_keeps_the_rest() {
    let mut world = ready_world();
    world.wheels[2].wheel.velocity = Velocity { linvel: Vec2::new(50, -2), angvel: 4 };
    world.wheels[2].wheel.transform.translation = Vec3::new(7, 8, 9);
    let before: Vec<WheelEntity> = world.wheels.clone();
    let cars = world.cars.clone();
    let forward = Input { forward: true, backward: false, steer_left: false, steer_right: false };
    steer(&mut world, &forward);
    assert_eq!(
        world.wheels[2].wheel.ext_force,
        ExternalForce { force: RatVec2 { x: 16000, y: 720, den: 1 }, torque: 0 }
    );
    let nothing = Input { forward: false, backward: false, steer_left: false, steer_right: false };
    steer(&mut world, &nothing);
    assert_eq!(
        world.wheels[2].wheel.ext_force,
        ExternalForce { force: RatVec2 { x: 0, y: 720, den: 1 }, torque: 0 }
    );
    assert_eq!(
        world.wheels[0].wheel.ext_force,
        ExternalForce { force: RatVec2 { x: 0, y: 0, den: 1 }, torque: 0 }
    );
    for (old, new) in before.iter().zip(world.wheels.iter()) {
        assert_eq!(old.steerable, new.steerable);
        assert_eq!(old.wheel.transform, new.wheel.transform);
        assert_eq!(old.wheel.velocity, new.wheel.velocity);
        assert_eq!(old.wheel.mass, new.wheel.mass);
        assert_eq!(old.wheel.joint, new.wheel.joint);
        assert_eq!(old.wheel.body, new.wheel.body);
    }
    assert_eq!(world.cars, cars);
    assert_eq!(world.cameras.len(), 1);
}

#[test]
fn steer_on_an_empty_world_does_nothing() {
    let mut world = World::new(Vec2::new(1, 2));
    let held = Input { forward: true, backward: true, steer_left: true, steer_right: true };
    steer(&mut world, &held);
    assert!(world.wheels.is_empty());
    assert!(world.cars.is_empty());
    assert_eq!(world.gravity, Vec2::new(1, 2));
}

#[test]
fn camera_follows_in_the_plane_only() {
    let mut world = ready_world();
    world.cameras[0].transform =
        Transform { translation: Vec3::new(1, 2, 999), rotation: Quat::new(1, 3).unwrap() };
    world.cars[0].transform =
        Transform { translation: Vec3::new(-340, 75, 10), rotation: Quat::new(1, 1).unwrap() };
    let wheels = world.wheels.clone();
    let cars = world.cars.clone();
    follow_car(&mut world);
    assert_eq!(
        world.cameras,
        vec![Camera {
            transform: Transform {
                translation: Vec3::new(-340, 75, 999),
                rotation: Quat::new(1, 3).unwrap(),
            },
        }]
    );
    assert_eq!(world.cars, cars);
    assert_eq!(world.wheels, wheels);
}

#[test]
fn camera_already_over_the_car_stays() {
    let mut world = ready_world();
    follow_car(&mut world);
    assert_eq!(world.cameras[0].transform.translation, Vec3::new(0, 0, 0));
}
