use vstd::prelude::*;
use crate::color::ColorData;
use crate::movement::{MovementView, ObjectMovement, orbit_start_direction};
use crate::objects::satellite::{Satellite, SatelliteView};
use crate::objects::{ObjectValues, OrbitStart, PlanetStart, PlanetStep};

verus! {

/// The mathematical value of a [`Planet`].
pub ghost struct PlanetView<C, V, P> {
    pub name: Seq<char>,
    pub consts: C,
    pub movement: MovementView<V, P>,
    pub image: Seq<char>,
    pub satellites: Seq<SatelliteView<C, V, P>>,
}

impl<C, V, P> PlanetView<C, V, P> {
    /// The planet and its satellites after one tick, each moved by its own step.
    pub open spec fn stepped(self, step: PlanetStep<V, P>) -> PlanetView<C, V, P>
        recommends
            step.satellites@.len() == self.satellites.len(),
    {
        PlanetView {
            movement: self.movement.stepped(step.planet),
            satellites: Seq::new(
                self.satellites.len(),
                |j: int| self.satellites[j].stepped(step.satellites@[j]),
            ),
            ..self
        }
    }

    /// The planet and its satellites put back on their orbits.
    pub open spec fn reloaded(self, start: PlanetStart<V, P>) -> PlanetView<C, V, P>
        recommends
            start.satellites@.len() == self.satellites.len(),
    {
        PlanetView {
            movement: MovementView::start(
                start.planet.velocity,
                orbit_start_direction(),
                start.planet.position,
                self.movement.trajectory.color,
            ),
            satellites: Seq::new(
                self.satellites.len(),
                |j: int| self.satellites[j].reloaded(start.satellites@[j]),
            ),
            ..self
        }
    }
}

/// A body that goes round the sun, with the satellites that it owns.
pub struct Planet<C, V, P> {
    name: String,
    consts: C,
    movement: ObjectMovement<V, P>,
    image: String,
    satellites: Vec<Satellite<C, V, P>>,
}

impl<C, V, P> View for Planet<C, V, P> {
    type V = PlanetView<C, V, P>;

    closed spec fn view(&self) -> PlanetView<C, V, P> {
        PlanetView {
            name: self.name@,
            consts: self.consts,
            movement: self.movement@,
            image: self.image@,
            satellites: Seq::new(self.satellites@.len(), |j: int| self.satellites@[j]@),
        }
    }
}

impl<C: Copy, V: Copy, P: Copy> Planet<C, V, P> {
    pub closed spec fn wf(&self) -> bool {
        &&& self.movement.wf()
        &&& forall|j: int| 0 <= j < self.satellites@.len() ==> self.satellites@[j].wf()
    }

    pub fn new(
        name: String,
        consts: C,
        start: OrbitStart<V, P>,
        trajectory_color: ColorData,
        image: String,
        satellites: Vec<Satellite<C, V, P>>,
    ) -> (planet: Self)
        requires
            forall|j: int| 0 <= j < satellites@.len() ==> satellites@[j].wf(),
        ensures
            planet@ == (PlanetView {
                name: name@,
                consts,
                movement: MovementView::start(
                    start.velocity,
                    orbit_start_direction(),
                    start.position,
                    trajectory_color,
                ),
                image: image@,
                satellites: Seq::new(satellites@.len(), |j: int| satellites@[j]@),
            }),
            planet.wf(),
    {
        Planet {
            name,
            consts,
            movement: ObjectMovement::new_solar_system_object_movement(
                start.velocity,
                start.position,
                trajectory_color,
            ),
            image,
            satellites,
        }
    }

    pub fn name(&self) -> (name: &str)
        ensures
            name@ == self@.name,
    {
        self.name.as_str()
    }

    pub fn consts(&self) -> (consts: C)
        ensures
            consts == self@.consts,
    {
        self.consts
    }

    pub fn position(&self) -> (position: P)
        ensures
            position == self@.movement.position,
    {
        self.movement.position()
    }

    pub fn image(&self) -> (image: &str)
        ensures
            image@ == self@.image,
    {
        self.image.as_str()
    }

    pub fn movement(&self) -> (movement: &ObjectMovement<V, P>)
        ensures
            movement@ == self@.movement,
            self.wf() ==> movement.wf(),
    {
        &self.movement
    }

    pub fn values(&self) -> (values: ObjectValues<C, P>)
        ensures
            values == (ObjectValues { position: self@.movement.position, consts: self@.consts }),
    {
        ObjectValues { position: self.movement.position(), consts: self.consts }
    }

    /// The planet's satellites, in the order in which they were given.
    pub fn satellites(&self) -> (satellites: &[Satellite<C, V, P>])
        ensures
            satellites@.len() == self@.satellites.len(),
            forall|j: int| 0 <= j < satellites@.len() ==> satellites@[j]@ == self@.satellites[j],
            self.wf() ==> forall|j: int| 0 <= j < satellites@.len() ==> satellites@[j].wf(),
    {
        self.satellites.as_slice()
    }

    /// Moves the planet and each of its satellites by one tick.
    pub fn update_positions(&mut self, step: &PlanetStep<V, P>)
        requires
            old(self).wf(),
            step.satellites@.len() == old(self)@.satellites.len(),
        ensures
            final(self)@ == old(self)@.stepped(*step),
            final(self).wf(),
    {
        self.movement.update_position(step.planet);
        let count = self.satellites.len();
        let mut j: usize = 0;
        while j < count
            invariant
                j <= count,
                count == old(self).satellites@.len(),
                count == self.satellites@.len(),
                count == step.satellites@.len(),
                self.name == old(self).name,
                self.consts == old(self).consts,
                self.image == old(self).image,
                self.movement@ == old(self).movement@.stepped(step.planet),
                self.movement.wf(),
                forall|k: int| 0 <= k < count ==> self.satellites@[k].wf(),
                forall|k: int|
                    0 <= k < j ==> self.satellites@[k]@ == old(self).satellites@[k]@.stepped(
                        step.satellites@[k],
                    ),
                forall|k: int| j <= k < count ==> self.satellites@[k] == old(self).satellites@[k],
            decreases count - j,
        {
            self.satellites[j].update_position(step.satellites[j]);
            j = j + 1;
        }
        assert(self@.satellites =~= old(self)@.stepped(*step).satellites);
    }

    /// Puts the planet and each of its satellites back on their orbits.
    pub fn reload(&mut self, start: &PlanetStart<V, P>)
        requires
            start.satellites@.len() == old(self)@.satellites.len(),
        ensures
            final(self)@ == old(self)@.reloaded(*start),
            final(self).wf(),
    {
        self.movement = ObjectMovement::new_solar_system_object_movement(
            start.planet.velocity,
            start.planet.position,
            self.movement.trajectory_color(),
        );
        let count = self.satellites.len();
        let mut j: usize = 0;
        while j < count
            invariant
                j <= count,
                count == old(self).satellites@.len(),
                count == self.satellites@.len(),
                count == start.satellites@.len(),
                self.name == old(self).name,
                self.consts == old(self).consts,
                self.image == old(self).image,
                self.movement@ == old(self)@.reloaded(*start).movement,
                self.movement.wf(),
                forall|k: int| 0 <= k < j ==> self.satellites@[k].wf(),
                forall|k: int|
                    0 <= k < j ==> self.satellites@[k]@ == old(self).satellites@[k]@.reloaded(
                        start.satellites@[k],
                    ),
                forall|k: int| j <= k < count ==> self.satellites@[k] == old(self).satellites@[k],
            decreases count - j,
        {
            self.satellites[j].reload(start.satellites[j]);
            j = j + 1;
        }
        assert(self@.satellites =~= old(self)@.reloaded(*start).satellites);
    }
}

} // verus!
