//! The force rule and the time step of one particle.
//!
//! A step first picks the zone the particle is in, lets the zone's rule set
//! velocity and acceleration, and then integrates: velocity from the new
//! acceleration, position from the new velocity.

use crate::launch::{launch_allowed, launch_always_allowed, launch_spec, Generator};
use crate::particle::{Particle, ParticleStore};
use crate::scalar::Scalar;
use crate::vector::Vec2;
use vstd::prelude::*;

verus! {

/// Lower edge of the nozzle, -1.2.
pub const NOZZLE_BOTTOM: u32 = 0xBF99_999A;

/// Upper edge of the nozzle, -1.0.
pub const NOZZLE_TOP: u32 = 0xBF80_0000;

/// Left edge of the nozzle, -0.05.
pub const NOZZLE_LEFT: u32 = 0xBD4C_CCCD;

/// Right edge of the nozzle, 0.05.
pub const NOZZLE_RIGHT: u32 = 0x3D4C_CCCD;

/// Height of the floor line, -1.0.
pub const FLOOR: u32 = 0xBF80_0000;

/// Distance of the floor line below the origin, 1.0.
pub const FLOOR_DEPTH: u32 = 0x3F80_0000;

/// Vertical acceleration in free fall, -1.1.
pub const GRAVITY: u32 = 0xBF8C_CCCD;

/// Factor of both floor corrections, 20.
pub const STIFFNESS: u32 = 0x41A0_0000;

/// Left edge of the band round the axis in which a particle under the floor
/// no longer drifts, -0.02.
pub const BAND_LEFT: u32 = 0xBCA3_D70A;

/// Right edge of that band, 0.02.
pub const BAND_RIGHT: u32 = 0x3CA3_D70A;

/// The rule that a step applies to a particle.
#[derive(Clone, Copy, Debug, PartialEq, Eq, Structural)]
pub enum Zone {
    /// Inside the nozzle: the particle is launched again.
    Nozzle,
    /// Under the floor line and not in the nozzle: the particle is pushed
    /// back up and towards the axis.
    Floor,
    /// Anywhere else: the particle falls.
    FreeFall,
}

/// Whether `position` lies strictly inside the nozzle's rectangle. A point on
/// an edge is outside.
pub open spec fn in_nozzle(position: Vec2) -> bool {
    &&& (Scalar { bits: NOZZLE_BOTTOM }).lt_spec(position.y)
    &&& position.y.lt_spec(Scalar { bits: NOZZLE_TOP })
    &&& (Scalar { bits: NOZZLE_LEFT }).lt_spec(position.x)
    &&& position.x.lt_spec(Scalar { bits: NOZZLE_RIGHT })
}

/// Whether `position` lies strictly under the floor line.
pub open spec fn below_floor(position: Vec2) -> bool {
    position.y.lt_spec(Scalar { bits: FLOOR })
}

/// Whether `x` lies strictly inside the band round the axis.
pub open spec fn in_band(x: Scalar) -> bool {
    (Scalar { bits: BAND_LEFT }).lt_spec(x) && x.lt_spec(Scalar { bits: BAND_RIGHT })
}

/// The zone of a position. The nozzle lies under the floor line, and a point
/// in it belongs to the nozzle.
pub open spec fn zone_spec(position: Vec2) -> Zone {
    if in_nozzle(position) {
        Zone::Nozzle
    } else if below_floor(position) {
        Zone::Floor
    } else {
        Zone::FreeFall
    }
}

/// A particle in the nozzle after the rule: it leaves with `launch` as its
/// velocity and with no acceleration.
pub open spec fn relaunch_spec(p: Particle, launch: Vec2) -> Particle {
    Particle { velocity: launch, acceleration: Vec2::zero_spec(), ..p }
}

/// A particle under the floor after the rule. Its vertical velocity becomes
/// its depth under the floor times the stiffness, and it has no vertical
/// acceleration. Inside the band it stops moving sideways; outside, it is
/// accelerated towards the axis by its distance from it times the stiffness.
pub open spec fn recover_spec(p: Particle) -> Particle {
    let depth = p.position.y.plus_spec(Scalar { bits: FLOOR_DEPTH }).neg_spec();
    let rise = depth.times_spec(Scalar { bits: STIFFNESS });
    if in_band(p.position.x) {
        Particle {
            velocity: Vec2 { x: Scalar { bits: 0 }, y: rise },
            acceleration: Vec2::zero_spec(),
            ..p
        }
    } else {
        let pull = p.position.x.neg_spec().times_spec(Scalar { bits: STIFFNESS });
        Particle {
            velocity: Vec2 { x: p.velocity.x, y: rise },
            acceleration: Vec2 { x: pull, y: Scalar { bits: 0 } },
            ..p
        }
    }
}

/// A falling particle after the rule: gravity becomes its vertical
/// acceleration. The horizontal acceleration stays as the last step left it.
pub open spec fn fall_spec(p: Particle) -> Particle {
    Particle {
        acceleration: Vec2 { x: p.acceleration.x, y: Scalar { bits: GRAVITY } },
        ..p
    }
}

/// The particle after the rule of its zone, before integration. `launch` is
/// read only in the nozzle.
pub open spec fn forces_spec(p: Particle, launch: Vec2) -> Particle {
    match zone_spec(p.position) {
        Zone::Nozzle => relaunch_spec(p, launch),
        Zone::Floor => recover_spec(p),
        Zone::FreeFall => fall_spec(p),
    }
}

/// Semi-implicit Euler: the velocity moves by acceleration times `dt`, then
/// the position moves by the new velocity times `dt`.
pub open spec fn integrate_spec(p: Particle, dt: Scalar) -> Particle {
    let velocity = p.velocity.plus_spec(p.acceleration.scaled_spec(dt));
    Particle { velocity, position: p.position.plus_spec(velocity.scaled_spec(dt)), ..p }
}

/// One whole step of a particle.
pub open spec fn step_spec(p: Particle, dt: Scalar, launch: Vec2) -> Particle {
    integrate_spec(forces_spec(p, launch), dt)
}

/// The zone that `position` lies in.
pub fn zone_of(position: Vec2) -> (zone: Zone)
    ensures
        zone == zone_spec(position),
{
    if Scalar::from_bits(NOZZLE_BOTTOM).lt(position.y) && position.y.lt(
        Scalar::from_bits(NOZZLE_TOP),
    ) && Scalar::from_bits(NOZZLE_LEFT).lt(position.x) && position.x.lt(
        Scalar::from_bits(NOZZLE_RIGHT),
    ) {
        Zone::Nozzle
    } else if position.y.lt(Scalar::from_bits(FLOOR)) {
        Zone::Floor
    } else {
        Zone::FreeFall
    }
}

/// Launches a particle in the nozzle with the velocity `launch`.
pub fn relaunch(p: Particle, launch: Vec2) -> (q: Particle)
    ensures
        q == relaunch_spec(p, launch),
{
    Particle { position: p.position, velocity: launch, acceleration: Vec2::zero(), size: p.size }
}

/// Pushes a particle under the floor back up and towards the axis.
pub fn recover(p: Particle) -> (q: Particle)
    ensures
        q == recover_spec(p),
{
    let stiffness = Scalar::from_bits(STIFFNESS);
    let depth = p.position.y.plus(Scalar::from_bits(FLOOR_DEPTH)).neg();
    let rise = depth.times(stiffness);
    let x = p.position.x;
    if Scalar::from_bits(BAND_LEFT).lt(x) && x.lt(Scalar::from_bits(BAND_RIGHT)) {
        Particle {
            position: p.position,
            velocity: Vec2::new(Scalar::from_bits(0), rise),
            acceleration: Vec2::zero(),
            size: p.size,
        }
    } else {
        let pull = x.neg().times(stiffness);
        Particle {
            position: p.position,
            velocity: Vec2::new(p.velocity.x, rise),
            acceleration: Vec2::new(pull, Scalar::from_bits(0)),
            size: p.size,
        }
    }
}

/// Lets gravity act on a particle in free fall.
pub fn fall(p: Particle) -> (q: Particle)
    ensures
        q == fall_spec(p),
{
    Particle {
        position: p.position,
        velocity: p.velocity,
        acceleration: Vec2::new(p.acceleration.x, Scalar::from_bits(GRAVITY)),
        size: p.size,
    }
}

/// Applies the rule of the particle's zone. `launch` is the velocity that a
/// particle in the nozzle leaves with.
pub fn apply_forces(p: Particle, launch: Vec2) -> (q: Particle)
    ensures
        q == forces_spec(p, launch),
{
    match zone_of(p.position) {
        Zone::Nozzle => relaunch(p, launch),
        Zone::Floor => recover(p),
        Zone::FreeFall => fall(p),
    }
}

/// Moves the velocity by the acceleration and then the position by the new
/// velocity, each over the time `dt`.
pub fn integrate(p: Particle, dt: Scalar) -> (q: Particle)
    ensures
        q == integrate_spec(p, dt),
{
    let velocity = p.velocity.plus(p.acceleration.scaled(dt));
    let position = p.position.plus(velocity.scaled(dt));
    Particle { position, velocity, acceleration: p.acceleration, size: p.size }
}

/// Steps one particle by `dt`: the rule of its zone, then integration.
pub fn step_particle(p: Particle, dt: Scalar, launch: Vec2) -> (q: Particle)
    ensures
        q == step_spec(p, dt, launch),
{
    integrate(apply_forces(p, launch), dt)
}

/// Why a simulation step was refused.
#[derive(Clone, Copy, Debug, PartialEq, Eq, Structural)]
pub enum SimulationError {
    /// The time step was below zero.
    NegativeTimeStep,
}

/// Whether `q` is what one step by `dt` can make of `p`: the step with some
/// launch velocity inside the launch ranges. Outside the nozzle the launch
/// velocity is not read, and `q` is one particle.
pub open spec fn advances(p: Particle, q: Particle, dt: Scalar) -> bool {
    exists|launch: Vec2| launch_allowed(launch) && q == #[trigger] step_spec(p, dt, launch)
}

/// Whether `after` is what one accepted frame with the time step `dt` can
/// make of `before`: as many particles, each advanced from the particle that
/// stood in its place.
pub open spec fn is_frame(before: Seq<Particle>, after: Seq<Particle>, dt: Scalar) -> bool {
    &&& after.len() == before.len()
    &&& forall|i: int| 0 <= i < before.len() ==> advances(before[i], #[trigger] after[i], dt)
}

/// Whether state `k` of `history` came from the state before it by a frame.
pub open spec fn follows(history: Seq<Seq<Particle>>, k: int) -> bool {
    exists|dt: Scalar| #[trigger] is_frame(history[k - 1], history[k], dt)
}

/// Whether `history` is a run of the fountain: every state but the first
/// came from the state before it by a frame.
pub open spec fn is_run(history: Seq<Seq<Particle>>) -> bool {
    forall|k: int| 0 < k < history.len() ==> #[trigger] follows(history, k)
}

/// Steps every particle of the store by `dt`, each by the rule of its own
/// zone and apart from all others. A launch velocity is drawn from
/// `generator` for each particle in the nozzle and for no other.
///
/// A time step below zero is refused and leaves the store as it was. `steer`
/// takes no part in the step and is handed back for the renderer.
pub fn simulate_particles(
    store: &mut ParticleStore,
    dt: Scalar,
    steer: Vec2,
    generator: &mut Generator,
) -> (outcome: Result<Vec2, SimulationError>)
    ensures
        final(store)@.len() == old(store)@.len(),
        dt.lt_spec(Scalar { bits: 0 }) ==> outcome == Err::<Vec2, SimulationError>(
            SimulationError::NegativeTimeStep,
        ) && final(store)@ == old(store)@,
        !dt.lt_spec(Scalar { bits: 0 }) ==> outcome == Ok::<Vec2, SimulationError>(steer)
            && is_frame(old(store)@, final(store)@, dt),
{
    if dt.lt(Scalar::from_bits(0)) {
        return Err(SimulationError::NegativeTimeStep);
    }
    let ghost before = store@;
    let count = store.len();
    let mut i: usize = 0;
    while i < count
        invariant
            i <= count,
            count == before.len(),
            store@.len() == before.len(),
            forall|j: int| 0 <= j < i ==> advances(before[j], #[trigger] store@[j], dt),
            forall|j: int| i <= j < count ==> store@[j] == before[j],
        decreases count - i,
    {
        let p = store.get(i);
        let moved = match zone_of(p.position) {
            Zone::Nozzle => {
                let launch = generator.launch();
                assert(integrate_spec(relaunch_spec(p, launch), dt) == step_spec(p, dt, launch));
                relaunch(p, launch)
            },
            Zone::Floor => {
                proof {
                    launch_always_allowed(0, 0);
                    assert(integrate_spec(recover_spec(p), dt) == step_spec(
                        p,
                        dt,
                        launch_spec(0, 0),
                    ));
                }
                recover(p)
            },
            Zone::FreeFall => {
                proof {
                    launch_always_allowed(0, 0);
                    assert(integrate_spec(fall_spec(p), dt) == step_spec(p, dt, launch_spec(0, 0)));
                }
                fall(p)
            },
        };
        store.set(i, integrate(moved, dt));
        i += 1;
    }
    Ok(steer)
}

/// Exactly one rule applies to a particle in a step, and its position alone
/// says which. The nozzle lies under the floor line, and there the launch
/// wins: a particle that is launched again is not also pushed up from the
/// floor.
pub proof fn one_rule_applies(p: Particle, launch: Vec2)
    ensures
        in_nozzle(p.position) ==> below_floor(p.position),
        zone_spec(p.position) == Zone::Nozzle <==> in_nozzle(p.position),
        zone_spec(p.position) == Zone::Floor <==> below_floor(p.position) && !in_nozzle(
            p.position,
        ),
        zone_spec(p.position) == Zone::FreeFall <==> !below_floor(p.position),
        in_nozzle(p.position) ==> forces_spec(p, launch) == relaunch_spec(p, launch),
        below_floor(p.position) && !in_nozzle(p.position) ==> forces_spec(p, launch)
            == recover_spec(p),
        !below_floor(p.position) ==> forces_spec(p, launch) == fall_spec(p),
{
}

/// A step integrates semi-implicitly: the new velocity is the velocity that
/// the zone's rule left plus `dt` times the acceleration that the rule left,
/// and the new position is the old position plus `dt` times the new velocity.
pub proof fn step_is_semi_implicit(p: Particle, dt: Scalar, launch: Vec2)
    ensures
        step_spec(p, dt, launch).acceleration == forces_spec(p, launch).acceleration,
        step_spec(p, dt, launch).velocity == forces_spec(p, launch).velocity.plus_spec(
            forces_spec(p, launch).acceleration.scaled_spec(dt),
        ),
        step_spec(p, dt, launch).position == p.position.plus_spec(
            step_spec(p, dt, launch).velocity.scaled_spec(dt),
        ),
        step_spec(p, dt, launch).size == p.size,
{
}

/// Outside the nozzle a step does not read the launch velocity.
pub proof fn launch_read_only_in_nozzle(p: Particle, dt: Scalar, first: Vec2, second: Vec2)
    requires
        !in_nozzle(p.position),
    ensures
        step_spec(p, dt, first) == step_spec(p, dt, second),
{
}

/// However many frames a run has, the number of particles stays what it was
/// at the start.
pub proof fn run_keeps_particle_count(history: Seq<Seq<Particle>>, k: int)
    requires
        is_run(history),
        0 <= k < history.len(),
    ensures
        history[k].len() == history[0].len(),
    decreases k,
{
    if k > 0 {
        run_keeps_particle_count(history, k - 1);
        assert(follows(history, k));
    }
}

} // verus!
