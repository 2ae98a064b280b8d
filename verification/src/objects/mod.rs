use vstd::prelude::*;
use crate::movement::MovementStep;

pub mod comet;
pub mod planet;
pub mod satellite;
pub mod sun;

verus! {

/// The identity of a body. It stays the same while the body lives, whatever
/// is added or removed around it: planets and satellites are known by their
/// places, which never change, a comet by the number it was given when it
/// was created.
#[derive(Clone, Copy, PartialEq, Eq, Structural, Debug)]
pub enum ObjectId {
    Sun,
    /// The planet at this place among the planets.
    Planet(usize),
    /// The satellite of the planet at the first place, at the second place
    /// among that planet's satellites.
    Satellite(usize, usize),
    /// The comet with this number.
    Comet(u16),
}

/// Where a body is and what it is made of, as the force and collision
/// formulas need it. `C` holds the body's constants, such as mass and
/// radius, `P` its position.
#[derive(Clone, Copy, Debug)]
pub struct ObjectValues<C, P> {
    pub position: P,
    pub consts: C,
}

/// Where a body starts on its orbit, and how fast.
#[derive(Clone, Copy, Debug)]
pub struct OrbitStart<V, P> {
    pub velocity: V,
    pub position: P,
}

/// The steps of a planet and of its satellites over one tick.
pub struct PlanetStep<V, P> {
    pub planet: MovementStep<V, P>,
    pub satellites: Vec<MovementStep<V, P>>,
}

/// The starts of a planet and of its satellites.
pub struct PlanetStart<V, P> {
    pub planet: OrbitStart<V, P>,
    pub satellites: Vec<OrbitStart<V, P>>,
}

} // verus!
