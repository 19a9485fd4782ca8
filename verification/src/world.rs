//! The world: the cameras, chassis and wheels that exist.

use vstd::prelude::*;
use crate::math::{Transform, Vec2};
use crate::vehicle::{Car, Entity, Steerable, Wheel};

verus! {

/// A camera that looks at the plane.
#[derive(Clone, Copy, Debug, PartialEq, Eq, Structural)]
pub struct Camera {
    pub transform: Transform,
}

/// A wheel in the world, with its mark if steering acts on it.
#[derive(Clone, Copy, Debug, PartialEq, Eq)]
pub struct WheelEntity {
    pub wheel: Wheel,
    pub steerable: Option<Steerable>,
}

/// Everything that exists.
#[derive(Debug)]
pub struct World {
    pub gravity: Vec2,
    pub cameras: Vec<Camera>,
    pub cars: Vec<Car>,
    pub wheels: Vec<WheelEntity>,
}

/// The two wheels are mounted alike: the same mark, joint, mass and kind of
/// body. Where they are and how they move may differ.
pub open spec fn same_mount(a: WheelEntity, b: WheelEntity) -> bool {
    &&& a.steerable == b.steerable
    &&& a.wheel.joint == b.wheel.joint
    &&& a.wheel.mass == b.wheel.mass
    &&& a.wheel.body == b.wheel.body
}

impl World {
    /// Every chassis has its four wheels and there is no other wheel: the
    /// wheels of the chassis at `k` stand at `4 * k` and the three places
    /// after it, mounted as the rig of that chassis.
    pub open spec fn rigged(&self) -> bool {
        &&& self.wheels@.len() == 4 * self.cars@.len()
        &&& forall|i: int|
            0 <= i < self.wheels@.len() ==> {
                let entity = #[trigger] self.wheels@[i];
                &&& entity.wheel.joint.parent.index == i / 4
                &&& same_mount(entity, Car::rig(entity.wheel.joint.parent)[i % 4])
            }
    }

    /// The world with nothing in it, under the given gravity.
    pub fn new(gravity: Vec2) -> (world: World)
        ensures
            world.gravity == gravity,
            world.cameras@ == Seq::<Camera>::empty(),
            world.cars@ == Seq::<Car>::empty(),
            world.wheels@ == Seq::<WheelEntity>::empty(),
            world.rigged(),
    {
        World {
            gravity,
            cameras: Vec::new(),
            cars: Vec::new(),
            wheels: Vec::new(),
        }
    }

    /// Adds a camera.
    pub fn spawn_camera(&mut self, camera: Camera)
        ensures
            final(self).gravity == old(self).gravity,
            final(self).cameras@ == old(self).cameras@.push(camera),
            final(self).cars@ == old(self).cars@,
            final(self).wheels@ == old(self).wheels@,
    {
        self.cameras.push(camera);
    }

    /// Adds a chassis and says where it stands.
    pub fn spawn_car(&mut self, car: Car) -> (id: Entity)
        ensures
            id.index == old(self).cars@.len(),
            final(self).gravity == old(self).gravity,
            final(self).cameras@ == old(self).cameras@,
            final(self).cars@ == old(self).cars@.push(car),
            final(self).wheels@ == old(self).wheels@,
    {
        let id = Entity { index: self.cars.len() };
        self.cars.push(car);
        id
    }

    /// Adds a wheel, marked or not.
    pub fn spawn_wheel(&mut self, wheel: Wheel, steerable: Option<Steerable>)
        ensures
            final(self).gravity == old(self).gravity,
            final(self).cameras@ == old(self).cameras@,
            final(self).cars@ == old(self).cars@,
            final(self).wheels@ == old(self).wheels@.push(WheelEntity { wheel, steerable }),
    {
        self.wheels.push(WheelEntity { wheel, steerable });
    }
}

} // verus!
