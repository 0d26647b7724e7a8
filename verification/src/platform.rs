//! The waypoint cycler: patrol state and the step that advances it.
use vstd::prelude::*;
use vstd::slice::slice_to_vec;
use crate::geometry::{reach_sq, Offset3, Vector3};
use crate::velocity::Velocity;

verus! {

/// The mathematical content of a patrol: which waypoint is being approached,
/// how fast, and the closed loop of waypoints.
pub struct PatrolView {
    pub current_leg: nat,
    pub speed: nat,
    pub locations: Seq<Vector3>,
}

impl PatrolView {
    /// The leg names a waypoint, which excludes the empty loop, and the speed
    /// is one that a patrol can hold.
    pub open spec fn valid(self) -> bool {
        self.current_leg < self.locations.len() && self.speed <= u32::MAX
    }

    /// The waypoint being approached.
    pub open spec fn target(self) -> Vector3 {
        self.locations[self.current_leg as int]
    }

    /// The displacement from `position` to the waypoint being approached.
    pub open spec fn to_target(self, position: Vector3) -> Offset3 {
        self.target().minus(position)
    }

    /// The velocity asked of a body at `position`: the patrol's speed, toward
    /// the waypoint being approached.
    pub open spec fn velocity_at(self, position: Vector3) -> Velocity {
        Velocity { toward: self.to_target(position), speed: self.speed as u32 }
    }

    /// The arrival test: the target lies no farther from `position` than the
    /// body travels in `delta_time` ticks.
    pub open spec fn arrives(self, position: Vector3, delta_time: nat) -> bool {
        self.to_target(position).norm_sq() <= reach_sq(delta_time as int, self.speed as int)
    }

    /// The leg that follows the current one, the first following the last.
    pub open spec fn next_leg(self) -> nat {
        (self.current_leg + 1) % self.locations.len()
    }

    /// The patrol after one tick at `position`: the leg moves on exactly when
    /// the body has arrived, and by one waypoint only.
    pub open spec fn after_tick(self, position: Vector3, delta_time: nat) -> PatrolView {
        if self.arrives(position, delta_time) {
            PatrolView { current_leg: self.next_leg(), ..self }
        } else {
            self
        }
    }
}

/// What the patrol is told of one tick: where the body is and how long the
/// tick lasts.
pub struct Tick {
    pub position: Vector3,
    pub delta_time: nat,
}

impl PatrolView {
    /// The patrol after the ticks of `ticks`, taken in order.
    pub open spec fn run(self, ticks: Seq<Tick>) -> PatrolView
        decreases ticks.len(),
    {
        if ticks.len() == 0 {
            self
        } else {
            self.run(ticks.drop_last()).after_tick(ticks.last().position, ticks.last().delta_time)
        }
    }

    /// At how many of the ticks of `ticks` the body arrived at the waypoint
    /// that was then being approached.
    pub open spec fn arrivals(self, ticks: Seq<Tick>) -> nat
        decreases ticks.len(),
    {
        if ticks.len() == 0 {
            0
        } else {
            let before = self.run(ticks.drop_last());
            let arrived = before.arrives(ticks.last().position, ticks.last().delta_time);
            self.arrivals(ticks.drop_last()) + if arrived { 1nat } else { 0nat }
        }
    }
}

/// Why a patrol could not be set up.
#[derive(Clone, Copy, Debug, PartialEq, Eq, Structural)]
pub enum PatrolError {
    /// The list of waypoints was empty.
    NoWaypoints,
}

/// A body that patrols a closed loop of waypoints at constant speed.
#[derive(Debug)]
pub struct MovingPlatform {
    current_leg: usize,
    speed: u32,
    locations: Vec<Vector3>,
}

impl View for MovingPlatform {
    type V = PatrolView;

    closed spec fn view(&self) -> PatrolView {
        PatrolView {
            current_leg: self.current_leg as nat,
            speed: self.speed as nat,
            locations: self.locations@,
        }
    }
}

impl MovingPlatform {
    #[verifier::type_invariant]
    spec fn leg_in_range(&self) -> bool {
        self.current_leg < self.locations.len()
    }

    /// A patrol that starts out for the first of `locations`.
    ///
    /// An empty list is refused: there would be nothing to approach.
    pub fn new(speed: u32, locations: &[Vector3]) -> (made: Result<MovingPlatform, PatrolError>)
        ensures
            made is Err <==> locations@.len() == 0,
            made matches Err(reason) ==> reason == PatrolError::NoWaypoints,
            made matches Ok(platform) ==> platform@ == (PatrolView {
                current_leg: 0,
                speed: speed as nat,
                locations: locations@,
            }),
            made matches Ok(platform) ==> platform@.valid(),
    {
        if locations.len() == 0 {
            Err(PatrolError::NoWaypoints)
        } else {
            Ok(MovingPlatform { current_leg: 0, speed, locations: slice_to_vec(locations) })
        }
    }

    /// The index of the waypoint being approached.
    pub fn current_leg(&self) -> (leg: usize)
        ensures
            leg == self@.current_leg,
            self@.valid(),
    {
        proof {
            use_type_invariant(self);
        }
        self.current_leg
    }

    /// The travel speed, in lattice units per tick.
    pub fn speed(&self) -> (speed: u32)
        ensures
            speed == self@.speed,
    {
        self.speed
    }

    /// The waypoints, in the order in which they are visited.
    pub fn locations(&self) -> (locations: &Vec<Vector3>)
        ensures
            locations@ == self@.locations,
            locations@.len() > 0,
    {
        proof {
            use_type_invariant(self);
        }
        &self.locations
    }

    /// The waypoint being approached.
    pub fn target(&self) -> (target: Vector3)
        ensures
            target == self@.target(),
    {
        proof {
            use_type_invariant(self);
        }
        self.locations[self.current_leg]
    }

    /// One tick of the patrol for a body at `current_position`.
    ///
    /// Returns the velocity that heads for the current waypoint at the
    /// patrol's speed, and moves on to the next waypoint if the body gets
    /// there within this tick.
    pub fn step(&mut self, current_position: Vector3, delta_time: u32) -> (velocity: Velocity)
        ensures
            velocity == old(self)@.velocity_at(current_position),
            final(self)@ == old(self)@.after_tick(current_position, delta_time as nat),
            old(self)@.valid(),
            final(self)@.valid(),
    {
        proof {
            use_type_invariant(&*self);
        }
        let target: Vector3 = self.locations[self.current_leg];
        let to_target: Offset3 = current_position.offset_to(&target);
        assert(delta_time * self.speed <= 0xffff_ffff * 0xffff_ffff) by (nonlinear_arith)
            requires
                delta_time <= 0xffff_ffff,
                self.speed <= 0xffff_ffff,
        ;
        let reach: u64 = delta_time as u64 * self.speed as u64;
        if to_target.within(reach) {
            self.current_leg = (self.current_leg + 1) % self.locations.len();
        }
        Velocity { toward: to_target, speed: self.speed }
    }

    /// One tick of the patrol, with the velocity written to the backend.
    ///
    /// `adapter` turns the velocity into what the backend keeps, and the
    /// result replaces what `slot` held, which is never read.
    pub fn drive<V, F: Fn(Velocity) -> V>(
        &mut self,
        current_position: Vector3,
        delta_time: u32,
        slot: &mut V,
        adapter: F,
    )
        requires
            call_requires(adapter, (old(self)@.velocity_at(current_position),)),
        ensures
            call_ensures(adapter, (old(self)@.velocity_at(current_position),), *final(slot)),
            final(self)@ == old(self)@.after_tick(current_position, delta_time as nat),
            old(self)@.valid(),
            final(self)@.valid(),
    {
        let velocity: Velocity = self.step(current_position, delta_time);
        *slot = adapter(velocity);
    }
}

} // verus!
