use vstd::prelude::*;
use crate::color::ColorData;
use crate::movement::{MovementStep, MovementView, ObjectMovement, orbit_start_direction};
use crate::objects::{ObjectValues, OrbitStart};

verus! {

/// The mathematical value of a [`Satellite`].
pub ghost struct SatelliteView<C, V, P> {
    pub name: Seq<char>,
    pub consts: C,
    pub movement: MovementView<V, P>,
    pub image: Seq<char>,
}

impl<C, V, P> SatelliteView<C, V, P> {
    /// The satellite after one tick.
    pub open spec fn stepped(self, step: MovementStep<V, P>) -> SatelliteView<C, V, P> {
        SatelliteView { movement: self.movement.stepped(step), ..self }
    }

    /// The satellite put back on its orbit: it keeps its name, constants,
    /// image and trajectory color, and nothing of the way it has gone.
    pub open spec fn reloaded(self, start: OrbitStart<V, P>) -> SatelliteView<C, V, P> {
        SatelliteView {
            movement: MovementView::start(
                start.velocity,
                orbit_start_direction(),
                start.position,
                self.movement.trajectory.color,
            ),
            ..self
        }
    }
}

/// A body that goes round a planet.
pub struct Satellite<C, V, P> {
    name: String,
    consts: C,
    movement: ObjectMovement<V, P>,
    image: String,
}

impl<C, V, P> View for Satellite<C, V, P> {
    type V = SatelliteView<C, V, P>;

    closed spec fn view(&self) -> SatelliteView<C, V, P> {
        SatelliteView {
            name: self.name@,
            consts: self.consts,
            movement: self.movement@,
            image: self.image@,
        }
    }
}

impl<C: Copy, V: Copy, P: Copy> Satellite<C, V, P> {
    pub closed spec fn wf(&self) -> bool {
        self.movement.wf()
    }

    pub fn new(
        name: String,
        consts: C,
        start: OrbitStart<V, P>,
        trajectory_color: ColorData,
        image: String,
    ) -> (satellite: Self)
        ensures
            satellite@ == (SatelliteView {
                name: name@,
                consts,
                movement: MovementView::start(
                    start.velocity,
                    orbit_start_direction(),
                    start.position,
                    trajectory_color,
                ),
                image: image@,
            }),
            satellite.wf(),
    {
        Satellite {
            name,
            consts,
            movement: ObjectMovement::new_solar_system_object_movement(
                start.velocity,
                start.position,
                trajectory_color,
            ),
            image,
        }
    }

    pub fn name(&self) -> (name: &str)
        ensures
            name@ == self@.name,
    {
        self.name.as_str()
    }

    pub fn consts(&self) -> (consts: C)
        ensures
            consts == self@.consts,
    {
        self.consts
    }

    pub fn position(&self) -> (position: P)
        ensures
            position == self@.movement.position,
    {
        self.movement.position()
    }

    pub fn image(&self) -> (image: &str)
        ensures
            image@ == self@.image,
    {
        self.image.as_str()
    }

    pub fn movement(&self) -> (movement: &ObjectMovement<V, P>)
        ensures
            movement@ == self@.movement,
            self.wf() ==> movement.wf(),
    {
        &self.movement
    }

    pub fn values(&self) -> (values: ObjectValues<C, P>)
        ensures
            values == (ObjectValues { position: self@.movement.position, consts: self@.consts }),
    {
        ObjectValues { position: self.movement.position(), consts: self.consts }
    }

    /// Moves the satellite by one tick.
    pub fn update_position(&mut self, step: MovementStep<V, P>)
        requires
            old(self).wf(),
        ensures
            final(self)@ == old(self)@.stepped(step),
            final(self).wf(),
    {
        self.movement.update_position(step);
    }

    /// Puts the satellite back on its orbit.
    pub fn reload(&mut self, start: OrbitStart<V, P>)
        ensures
            final(self)@ == old(self)@.reloaded(start),
            final(self).wf(),
    {
        self.movement = ObjectMovement::new_solar_system_object_movement(
            start.velocity,
            start.position,
            self.movement.trajectory_color(),
        );
    }
}

} // verus!
