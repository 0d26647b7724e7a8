//! What holds of every patrol, whatever it is told.
use vstd::prelude::*;
use vstd::arithmetic::div_mod::{lemma_add_mod_noop_right, lemma_small_mod};
use crate::dimensionality::Dimensionality;
use crate::geometry::{reach_sq, Offset3, Vector3};
use crate::platform::{PatrolView, Tick};

verus! {

/// A sum of three squares is never negative, and is zero only where each
/// term is.
proof fn lemma_norm_sq_zero(offset: Offset3)
    ensures
        offset.norm_sq() >= 0,
        offset.norm_sq() == 0 <==> offset.is_zero(),
{
    let dx: int = offset.dx as int;
    let dy: int = offset.dy as int;
    let dz: int = offset.dz as int;
    assert(dx * dx >= 0 && (dx * dx == 0 <==> dx == 0)) by (nonlinear_arith);
    assert(dy * dy >= 0 && (dy * dy == 0 <==> dy == 0)) by (nonlinear_arith);
    assert(dz * dz >= 0 && (dz * dz == 0 <==> dz == 0)) by (nonlinear_arith);
}

/// The reach grows with the length of the tick.
proof fn lemma_reach_sq_monotonic(shorter: int, longer: int, speed: int)
    requires
        0 <= shorter <= longer,
        0 <= speed,
    ensures
        0 <= reach_sq(shorter, speed) <= reach_sq(longer, speed),
{
    let a: int = shorter * speed;
    let b: int = longer * speed;
    assert(0 <= a <= b) by (nonlinear_arith)
        requires
            a == shorter * speed,
            b == longer * speed,
            0 <= shorter <= longer,
            0 <= speed,
    ;
    assert(0 <= a * a <= b * b) by (nonlinear_arith)
        requires
            0 <= a <= b,
    ;
}

/// The displacement from a point to another is zero only where the two are
/// one point.
proof fn lemma_minus_zero(target: Vector3, position: Vector3)
    ensures
        target.minus(position).is_zero() <==> position == target,
{
}

/// Waypoints are visited in the cyclic order in which they were given, none
/// skipped and none revisited early: whatever a patrol is told over any
/// number of ticks, its waypoints and speed stay as they were, the leg stays
/// a valid index, and the waypoint approached in the end is as many places
/// further round the loop as there were arrivals.
pub proof fn lemma_legs_follow_the_loop(patrol: PatrolView, ticks: Seq<Tick>)
    requires
        patrol.valid(),
    ensures
        patrol.run(ticks).valid(),
        patrol.run(ticks).locations == patrol.locations,
        patrol.run(ticks).speed == patrol.speed,
        patrol.arrivals(ticks) <= ticks.len(),
        patrol.run(ticks).current_leg == (patrol.current_leg + patrol.arrivals(ticks))
            % patrol.locations.len(),
    decreases ticks.len(),
{
    let count: int = patrol.locations.len() as int;
    if ticks.len() == 0 {
        lemma_small_mod(patrol.current_leg, patrol.locations.len());
    } else {
        lemma_legs_follow_the_loop(patrol, ticks.drop_last());
        let before = patrol.run(ticks.drop_last());
        let so_far: int = (patrol.current_leg + patrol.arrivals(ticks.drop_last())) as int;
        if before.arrives(ticks.last().position, ticks.last().delta_time) {
            lemma_add_mod_noop_right(1, so_far, count);
            assert(before.next_leg() == (1 + so_far) % count);
        }
    }
}

/// One tick moves the leg by one place round the loop or not at all.
pub proof fn lemma_one_leg_per_tick(patrol: PatrolView, position: Vector3, delta_time: nat)
    requires
        patrol.valid(),
    ensures
        patrol.after_tick(position, delta_time).valid(),
        patrol.after_tick(position, delta_time).current_leg == patrol.current_leg
            || patrol.after_tick(position, delta_time).current_leg == patrol.next_leg(),
        patrol.after_tick(position, delta_time).current_leg == patrol.next_leg()
            <== patrol.arrives(position, delta_time),
{
}

/// A body that stands exactly on the waypoint it approaches is asked to stay
/// still, and the patrol moves on to the next waypoint, however short the
/// tick and whatever the speed.
pub proof fn lemma_on_target_moves_on(patrol: PatrolView, delta_time: nat)
    requires
        patrol.valid(),
    ensures
        patrol.velocity_at(patrol.target()).is_zero(),
        patrol.arrives(patrol.target(), delta_time),
        patrol.after_tick(patrol.target(), delta_time).current_leg == patrol.next_leg(),
{
    let target = patrol.target();
    lemma_minus_zero(target, target);
    lemma_norm_sq_zero(patrol.to_target(target));
    lemma_reach_sq_monotonic(0, delta_time as int, patrol.speed as int);
}

/// A patrol of speed zero always asks its body to stay still, and moves on
/// only at a tick that finds the body exactly on the waypoint it approaches.
pub proof fn lemma_zero_speed_freezes(patrol: PatrolView, position: Vector3, delta_time: nat)
    requires
        patrol.valid(),
        patrol.speed == 0,
    ensures
        patrol.velocity_at(position).is_zero(),
        patrol.arrives(position, delta_time) <==> position == patrol.target(),
        patrol.after_tick(position, delta_time).current_leg == if position == patrol.target() {
            patrol.next_leg()
        } else {
            patrol.current_leg
        },
{
    lemma_minus_zero(patrol.target(), position);
    lemma_norm_sq_zero(patrol.to_target(position));
    assert(reach_sq(delta_time as int, 0) == 0) by (nonlinear_arith);
}

/// A longer tick can only make arrival more likely: a body that arrives
/// within the shorter of two ticks arrives within the longer, and the
/// velocity asked of it is the same for both.
pub proof fn lemma_arrival_monotonic(
    patrol: PatrolView,
    position: Vector3,
    shorter: nat,
    longer: nat,
)
    requires
        patrol.valid(),
        shorter <= longer,
        patrol.arrives(position, shorter),
    ensures
        patrol.arrives(position, longer),
{
    lemma_reach_sq_monotonic(shorter as int, longer as int, patrol.speed as int);
}

/// At a speed above zero no waypoint is out of reach for good: from wherever
/// the body stands, some tick is long enough for it to arrive, and then so is
/// every longer one.
pub proof fn lemma_positive_speed_arrives_in_time(patrol: PatrolView, position: Vector3)
    requires
        patrol.valid(),
        patrol.speed > 0,
    ensures
        exists|delta_time: nat| #[trigger] patrol.arrives(position, delta_time),
{
    let offset = patrol.to_target(position);
    lemma_norm_sq_zero(offset);
    let far: int = offset.norm_sq();
    let speed: int = patrol.speed as int;
    assert(far <= (far * speed) * (far * speed)) by (nonlinear_arith)
        requires
            0 <= far,
            1 <= speed,
    ;
    assert(patrol.arrives(position, far as nat));
}

/// A patrol in the plane asks for a velocity in the plane: where no waypoint
/// has a third coordinate and the body's position is taken as a planar
/// backend has it, the velocity has no third component, so the first two
/// carry the whole speed.
pub proof fn lemma_planar_patrol_asks_planar_velocity(patrol: PatrolView, position: Vector3)
    requires
        patrol.valid(),
        forall|i: int|
            0 <= i < patrol.locations.len() ==> Dimensionality::Dim2.sees(
                #[trigger] patrol.locations[i],
            ) == patrol.locations[i],
    ensures
        patrol.velocity_at(Dimensionality::Dim2.sees(position)).toward.dz == 0,
        patrol.velocity_at(Dimensionality::Dim2.sees(position)).toward.dx == patrol.velocity_at(
            position,
        ).toward.dx,
        patrol.velocity_at(Dimensionality::Dim2.sees(position)).toward.dy == patrol.velocity_at(
            position,
        ).toward.dy,
{
    let target = patrol.locations[patrol.current_leg as int];
    assert(Dimensionality::Dim2.sees(target) == target);
}

/// The velocity asked of a body has the patrol's speed as its magnitude,
/// except that it is the zero vector where the body stands exactly on the
/// waypoint it approaches or the speed is zero.
pub proof fn lemma_full_speed_unless_there(patrol: PatrolView, position: Vector3)
    requires
        patrol.valid(),
    ensures
        patrol.velocity_at(position).is_zero() <==> position == patrol.target() || patrol.speed
            == 0,
        patrol.velocity_at(position).magnitude_sq() == if position == patrol.target() {
            0
        } else {
            patrol.speed * patrol.speed
        },
{
    lemma_minus_zero(patrol.target(), position);
}

} // verus!
