//! The particle and the fixed-size store that holds the pool.

use crate::scalar::Scalar;
use crate::vector::Vec2;
use vstd::prelude::*;

verus! {

/// Number of particles in the fountain.
pub const PARTICLE_COUNT: usize = 1000;

/// Height at which every particle rests before the first frame: midway up
/// the nozzle, -1.1.
pub const REST_HEIGHT: u32 = 0xBF8C_CCCD;

/// Edge length of a particle's quad, 0.1.
pub const PARTICLE_SIZE: u32 = 0x3DCC_CCCD;

/// One point mass of the fountain.
#[derive(Clone, Copy, Debug, PartialEq, Eq, Structural)]
pub struct Particle {
    pub position: Vec2,
    pub velocity: Vec2,
    /// Set anew by every step before it is used.
    pub acceleration: Vec2,
    /// Edge length of the quad drawn for the particle.
    pub size: Scalar,
}

impl Particle {
    /// The state of every particle before the first frame: at rest on the
    /// fountain's axis, inside the nozzle.
    pub open spec fn rest() -> Particle {
        Particle {
            position: Vec2 { x: Scalar { bits: 0 }, y: Scalar { bits: REST_HEIGHT } },
            velocity: Vec2::zero_spec(),
            acceleration: Vec2::zero_spec(),
            size: Scalar { bits: PARTICLE_SIZE },
        }
    }
}

impl Default for Particle {
    fn default() -> (p: Particle)
        ensures
            p == Particle::rest(),
    {
        Particle {
            position: Vec2::new(Scalar::from_bits(0), Scalar::from_bits(REST_HEIGHT)),
            velocity: Vec2::zero(),
            acceleration: Vec2::zero(),
            size: Scalar::from_bits(PARTICLE_SIZE),
        }
    }
}

/// A pool of particles whose length is fixed when it is made.
pub struct ParticleStore {
    particles: Vec<Particle>,
}

impl View for ParticleStore {
    type V = Seq<Particle>;

    closed spec fn view(&self) -> Seq<Particle> {
        self.particles@
    }
}

impl ParticleStore {
    /// `count` particles, each at rest.
    pub open spec fn all_at_rest(count: nat) -> Seq<Particle> {
        Seq::new(count, |i: int| Particle::rest())
    }

    /// A store of `count` particles, each at rest.
    pub fn new(count: usize) -> (store: ParticleStore)
        ensures
            store@ == ParticleStore::all_at_rest(count as nat),
    {
        let mut particles: Vec<Particle> = Vec::new();
        let mut i: usize = 0;
        while i < count
            invariant
                i <= count,
                particles@ == ParticleStore::all_at_rest(i as nat),
            decreases count - i,
        {
            particles.push(Particle::default());
            i += 1;
        }
        ParticleStore { particles }
    }

    /// The number of particles, which never changes.
    pub fn len(&self) -> (n: usize)
        ensures
            n == self@.len(),
    {
        self.particles.len()
    }

    /// The particle in slot `index`.
    pub fn get(&self, index: usize) -> (p: Particle)
        requires
            index < self@.len(),
        ensures
            p == self@[index as int],
    {
        self.particles[index]
    }

    /// Puts `particle` into slot `index` and leaves every other slot alone.
    pub fn set(&mut self, index: usize, particle: Particle)
        requires
            index < old(self)@.len(),
        ensures
            final(self)@ == old(self)@.update(index as int, particle),
    {
        self.particles.set(index, particle);
    }

    /// Puts every particle back to rest.
    pub fn reset(&mut self)
        ensures
            final(self)@ == ParticleStore::all_at_rest(old(self)@.len()),
    {
        let count = self.particles.len();
        let mut i: usize = 0;
        while i < count
            invariant
                i <= count,
                self.particles@.len() == count,
                forall|j: int| 0 <= j < i ==> self.particles@[j] == Particle::rest(),
            decreases count - i,
        {
            self.particles.set(i, Particle::default());
            i += 1;
        }
        assert(self.particles@ =~= ParticleStore::all_at_rest(count as nat));
    }
}

} // verus!
