//! The fixed-timestep physics layer.
//!
//! A [`PhysicsWorld`] owns global parameters (gravity, the fixed time step)
//! and a residual-time accumulator that turns variable frame times into whole
//! physics steps: each `update` runs exactly `(residual + delta) / step`
//! steps and keeps the remainder, so the residual never reaches a full step.
//! A [`RigidBody`] carries per-body mass, velocity, acceleration and material
//! state, with frame-local force accumulation and semi-implicit Euler
//! integration under linear damping.

use vstd::prelude::*;
use vstd::arithmetic::div_mod::lemma_fundamental_div_mod_converse;
use crate::fixed::{Fx, FX_SCALE, fx_div_value, fx_mul_value, in_i64};
use crate::collision::{spec_intersects, AABB, CollisionDetection};

verus! {

/// Default gravity, in millionths of a unit per squared second: `-9.8`.
pub const DEFAULT_GRAVITY_RAW: i64 = -9_800_000;

/// Default fixed time step, in millionths of a second: the closest
/// representable value to one sixtieth of a second.
pub const DEFAULT_TIME_STEP_RAW: i64 = 16_667;

/// Global physics state: gravity, the fixed time step, the residual-time
/// accumulator, and a collision-detection service instance.
pub struct PhysicsWorld {
    gravity: Fx,
    collision_detector: CollisionDetection,
    time_step: Fx,
    accumulator: Fx,
}

impl PhysicsWorld {
    pub closed spec fn spec_gravity(self) -> int {
        self.gravity@
    }

    pub closed spec fn spec_time_step(self) -> int {
        self.time_step@
    }

    /// Residual simulation time not yet consumed by a whole step.
    pub closed spec fn spec_accumulator(self) -> int {
        self.accumulator@
    }

    /// The step is positive and the residual always stays below one step.
    pub open spec fn wf(self) -> bool {
        &&& self.spec_time_step() > 0
        &&& 0 <= self.spec_accumulator() < self.spec_time_step()
    }

    pub fn new() -> (r: PhysicsWorld)
        ensures
            r.wf(),
            r.spec_gravity() == DEFAULT_GRAVITY_RAW,
            r.spec_time_step() == DEFAULT_TIME_STEP_RAW,
            r.spec_accumulator() == 0,
    {
        PhysicsWorld {
            gravity: Fx::from_raw(DEFAULT_GRAVITY_RAW),
            collision_detector: CollisionDetection::new(),
            time_step: Fx::from_raw(DEFAULT_TIME_STEP_RAW),
            accumulator: Fx::zero(),
        }
    }

    pub fn new_with_gravity(gravity: Fx) -> (r: PhysicsWorld)
        ensures
            r.wf(),
            r.spec_gravity() == gravity@,
            r.spec_time_step() == DEFAULT_TIME_STEP_RAW,
            r.spec_accumulator() == 0,
    {
        PhysicsWorld {
            gravity,
            collision_detector: CollisionDetection::new(),
            time_step: Fx::from_raw(DEFAULT_TIME_STEP_RAW),
            accumulator: Fx::zero(),
        }
    }

    /// Adds the elapsed time to the residual and runs one physics step per
    /// whole fixed step contained in it, keeping the remainder for the next
    /// call. Returns how many steps ran: exactly the quotient of the
    /// accumulated time by the fixed step.
    pub fn update(&mut self, delta_time: Fx) -> (steps: u64)
        requires
            old(self).wf(),
            0 <= delta_time@,
            old(self).spec_accumulator() + delta_time@ <= i64::MAX,
        ensures
            final(self).wf(),
            final(self).spec_gravity() == old(self).spec_gravity(),
            final(self).spec_time_step() == old(self).spec_time_step(),
            final(self).spec_accumulator() == (old(self).spec_accumulator() + delta_time@) % old(
                self,
            ).spec_time_step(),
            steps == (old(self).spec_accumulator() + delta_time@) / old(self).spec_time_step(),
    {
        let ghost total: int = self.accumulator@ + delta_time@;
        let mut acc: i64 = self.accumulator.to_raw() + delta_time.to_raw();
        let step: i64 = self.time_step.to_raw();
        let mut steps: u64 = 0;
        while acc >= step
            invariant
                step == self.spec_time_step(),
                self.gravity == old(self).gravity,
                self.time_step == old(self).time_step,
                step > 0,
                0 <= acc,
                steps * step + acc == total,
                steps <= total,
                total <= i64::MAX,
            decreases acc,
        {
            let ghost steps0: int = steps as int;
            let ghost acc0: int = acc as int;
            let ts = self.time_step;
            self.physics_step(ts);
            acc = acc - step;
            steps = steps + 1;
            proof {
                assert((steps0 + 1) * step + (acc0 - step) == steps0 * step + acc0)
                    by (nonlinear_arith);
                assert(steps0 + 1 <= steps0 * step + acc0) by (nonlinear_arith)
                    requires
                        steps0 >= 0,
                        step >= 1,
                        acc0 >= step,
                ;
            }
        }
        self.accumulator = Fx::from_raw(acc);
        proof {
            lemma_fundamental_div_mod_converse(total, step as int, steps as int, acc as int);
        }
        steps
    }

    /// One fixed step: the seam where rigid bodies would be advanced and
    /// collisions resolved over the active body set.
    fn physics_step(&mut self, _dt: Fx)
        ensures
            *final(self) == *old(self),
    {
    }

    pub fn set_gravity(&mut self, gravity: Fx)
        ensures
            final(self).spec_gravity() == gravity@,
            final(self).spec_time_step() == old(self).spec_time_step(),
            final(self).spec_accumulator() == old(self).spec_accumulator(),
            old(self).wf() ==> final(self).wf(),
    {
        self.gravity = gravity;
    }

    pub fn get_gravity(&self) -> (r: Fx)
        ensures
            r@ == self.spec_gravity(),
    {
        self.gravity
    }

    pub fn get_time_step(&self) -> (r: Fx)
        ensures
            r@ == self.spec_time_step(),
    {
        self.time_step
    }

    /// The residual simulation time left over by the last `update`.
    pub fn get_accumulator(&self) -> (r: Fx)
        ensures
            r@ == self.spec_accumulator(),
    {
        self.accumulator
    }

    pub fn check_collision(&self, aabb1: &AABB, aabb2: &AABB) -> (r: bool)
        requires
            aabb1.wf(),
            aabb2.wf(),
        ensures
            r == spec_intersects(*aabb1, *aabb2),
    {
        self.collision_detector.aabb_vs_aabb(aabb1, aabb2)
    }

    pub fn point_in_aabb(&self, point_x: Fx, point_y: Fx, aabb: &AABB) -> (r: bool)
        requires
            aabb.wf(),
        ensures
            r == aabb.spec_contains(point_x@, point_y@),
    {
        self.collision_detector.point_in_aabb(point_x, point_y, aabb)
    }
}

/// Per-body physics state: mass, velocity, acceleration, a static flag and
/// material coefficients. Forces are frame-local: integration resets the
/// acceleration. Static bodies are immune to forces and integration.
#[derive(Clone, Copy, Debug, PartialEq, Eq, Structural)]
pub struct RigidBody {
    pub mass: Fx,
    pub velocity_x: Fx,
    pub velocity_y: Fx,
    pub acceleration_x: Fx,
    pub acceleration_y: Fx,
    pub is_static: bool,
    pub bounciness: Fx,
    pub friction: Fx,
}

impl RigidBody {
    /// A dynamic body of the given mass, at rest, with bounciness `0.8` and
    /// friction `0.1`.
    pub fn new(mass: Fx) -> (r: RigidBody)
        ensures
            r.mass == mass,
            r.velocity_x@ == 0,
            r.velocity_y@ == 0,
            r.acceleration_x@ == 0,
            r.acceleration_y@ == 0,
            !r.is_static,
            r.bounciness@ == 800_000,
            r.friction@ == 100_000,
    {
        RigidBody {
            mass,
            velocity_x: Fx::zero(),
            velocity_y: Fx::zero(),
            acceleration_x: Fx::zero(),
            acceleration_y: Fx::zero(),
            is_static: false,
            bounciness: Fx::from_raw(800_000),
            friction: Fx::from_raw(100_000),
        }
    }

    /// An immovable body: the static flag itself carries the immunity to
    /// forces and integration, since no fixed-point number stands for an
    /// infinite mass; the mass field holds the largest representable value.
    pub fn static_body() -> (r: RigidBody)
        ensures
            r.mass@ == i64::MAX,
            r.velocity_x@ == 0,
            r.velocity_y@ == 0,
            r.acceleration_x@ == 0,
            r.acceleration_y@ == 0,
            r.is_static,
            r.bounciness@ == 0,
            r.friction@ == FX_SCALE,
    {
        RigidBody {
            mass: Fx::from_raw(i64::MAX),
            velocity_x: Fx::zero(),
            velocity_y: Fx::zero(),
            acceleration_x: Fx::zero(),
            acceleration_y: Fx::zero(),
            is_static: true,
            bounciness: Fx::zero(),
            friction: Fx::one(),
        }
    }

    /// Accumulates `force / mass` into the acceleration. Static bodies and
    /// bodies without positive mass are left untouched.
    pub fn apply_force(&mut self, force_x: Fx, force_y: Fx)
        requires
            !old(self).is_static && old(self).mass@ > 0 ==> {
                &&& in_i64(fx_div_value(force_x@, old(self).mass@))
                &&& in_i64(old(self).acceleration_x@ + fx_div_value(force_x@, old(self).mass@))
                &&& in_i64(fx_div_value(force_y@, old(self).mass@))
                &&& in_i64(old(self).acceleration_y@ + fx_div_value(force_y@, old(self).mass@))
            },
        ensures
            old(self).is_static || old(self).mass@ <= 0 ==> *final(self) == *old(self),
            !old(self).is_static && old(self).mass@ > 0 ==> {
                &&& final(self).acceleration_x@ == old(self).acceleration_x@ + fx_div_value(
                    force_x@,
                    old(self).mass@,
                )
                &&& final(self).acceleration_y@ == old(self).acceleration_y@ + fx_div_value(
                    force_y@,
                    old(self).mass@,
                )
            },
            final(self).mass == old(self).mass,
            final(self).velocity_x == old(self).velocity_x,
            final(self).velocity_y == old(self).velocity_y,
            final(self).is_static == old(self).is_static,
            final(self).bounciness == old(self).bounciness,
            final(self).friction == old(self).friction,
    {
        if !self.is_static && self.mass.gt(Fx::zero()) {
            self.acceleration_x = self.acceleration_x.add(force_x.div(self.mass));
            self.acceleration_y = self.acceleration_y.add(force_y.div(self.mass));
        }
    }

    /// Semi-implicit Euler integration with linear damping: velocity gains
    /// `acceleration * dt`, is damped by `1 - friction * dt` (which can leave
    /// the unit interval for large `friction * dt`; bounding it is the
    /// caller's responsibility), and the acceleration is reset to zero.
    /// Static bodies skip integration entirely.
    pub fn update(&mut self, dt: Fx)
        requires
            !old(self).is_static ==> {
                &&& in_i64(fx_mul_value(old(self).acceleration_x@, dt@))
                &&& in_i64(
                    old(self).velocity_x@ + fx_mul_value(old(self).acceleration_x@, dt@),
                )
                &&& in_i64(fx_mul_value(old(self).acceleration_y@, dt@))
                &&& in_i64(
                    old(self).velocity_y@ + fx_mul_value(old(self).acceleration_y@, dt@),
                )
                &&& in_i64(fx_mul_value(old(self).friction@, dt@))
                &&& in_i64(FX_SCALE - fx_mul_value(old(self).friction@, dt@))
                &&& in_i64(
                    fx_mul_value(
                        old(self).velocity_x@ + fx_mul_value(old(self).acceleration_x@, dt@),
                        FX_SCALE - fx_mul_value(old(self).friction@, dt@),
                    ),
                )
                &&& in_i64(
                    fx_mul_value(
                        old(self).velocity_y@ + fx_mul_value(old(self).acceleration_y@, dt@),
                        FX_SCALE - fx_mul_value(old(self).friction@, dt@),
                    ),
                )
            },
        ensures
            old(self).is_static ==> *final(self) == *old(self),
            !old(self).is_static ==> {
                &&& final(self).velocity_x@ == fx_mul_value(
                    old(self).velocity_x@ + fx_mul_value(old(self).acceleration_x@, dt@),
                    FX_SCALE - fx_mul_value(old(self).friction@, dt@),
                )
                &&& final(self).velocity_y@ == fx_mul_value(
                    old(self).velocity_y@ + fx_mul_value(old(self).acceleration_y@, dt@),
                    FX_SCALE - fx_mul_value(old(self).friction@, dt@),
                )
                &&& final(self).acceleration_x@ == 0
                &&& final(self).acceleration_y@ == 0
            },
            final(self).mass == old(self).mass,
            final(self).is_static == old(self).is_static,
            final(self).bounciness == old(self).bounciness,
            final(self).friction == old(self).friction,
    {
        if !self.is_static {
            self.velocity_x = self.velocity_x.add(self.acceleration_x.mul(dt));
            self.velocity_y = self.velocity_y.add(self.acceleration_y.mul(dt));
            let damp = Fx::one().sub(self.friction.mul(dt));
            self.velocity_x = self.velocity_x.mul(damp);
            self.velocity_y = self.velocity_y.mul(damp);
            self.acceleration_x = Fx::zero();
            self.acceleration_y = Fx::zero();
        }
    }
}

} // verus!
