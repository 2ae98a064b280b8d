use vstd::prelude::*;
use crate::color::ColorData;
use crate::trajectory::{Direction, Trajectory, TrajectoryView};

verus! {

/// Where a body is and how fast it moves after one tick, with the quadrant
/// of its new velocity.
#[derive(Clone, Copy, Debug)]
pub struct MovementStep<V, P> {
    pub velocity: V,
    pub position: P,
    pub direction: Direction,
}

/// The mathematical value of an [`ObjectMovement`].
pub ghost struct MovementView<V, P> {
    pub velocity: V,
    pub position: P,
    pub trajectory: TrajectoryView<P>,
}

impl<V, P> MovementView<V, P> {
    /// The movement of a body that has not moved yet.
    pub open spec fn start(
        velocity: V,
        direction: Direction,
        starting_position: P,
        trajectory_color: ColorData,
    ) -> MovementView<V, P> {
        MovementView {
            velocity,
            position: starting_position,
            trajectory: TrajectoryView::start(direction, starting_position, trajectory_color),
        }
    }

    /// The movement after one tick: the body has the step's velocity and
    /// position, and its trajectory has recorded the new position.
    pub open spec fn stepped(self, step: MovementStep<V, P>) -> MovementView<V, P> {
        MovementView {
            velocity: step.velocity,
            position: step.position,
            trajectory: self.trajectory.added(step.position, step.direction),
        }
    }
}

/// The quadrant in which the planets and satellites start: they set out
/// downwards, leaning to the left by a hair.
pub open spec fn orbit_start_direction() -> Direction {
    Direction::LeftDown
}

/// Velocity, position and trajectory of a moving body.
pub struct ObjectMovement<V, P> {
    velocity: V,
    position: P,
    trajectory: Trajectory<P>,
}

impl<V, P> View for ObjectMovement<V, P> {
    type V = MovementView<V, P>;

    closed spec fn view(&self) -> MovementView<V, P> {
        MovementView {
            velocity: self.velocity,
            position: self.position,
            trajectory: self.trajectory@,
        }
    }
}

impl<V: Copy, P: Copy> ObjectMovement<V, P> {
    pub closed spec fn wf(&self) -> bool {
        self.trajectory.wf()
    }

    /// The movement of a planet or a satellite at the start of the simulation.
    pub fn new_solar_system_object_movement(
        velocity: V,
        starting_position: P,
        trajectory_color: ColorData,
    ) -> (movement: Self)
        ensures
            movement@ == MovementView::start(
                velocity,
                orbit_start_direction(),
                starting_position,
                trajectory_color,
            ),
            movement.wf(),
    {
        ObjectMovement {
            velocity,
            position: starting_position,
            trajectory: Trajectory::new(Direction::LeftDown, starting_position, trajectory_color),
        }
    }

    /// The movement of a comet that appears at `starting_position`, moving
    /// towards `direction`.
    pub fn new_comet_movement(
        velocity: V,
        direction: Direction,
        starting_position: P,
        trajectory_color: ColorData,
    ) -> (movement: Self)
        ensures
            movement@ == MovementView::start(
                velocity,
                direction,
                starting_position,
                trajectory_color,
            ),
            movement.wf(),
    {
        ObjectMovement {
            velocity,
            position: starting_position,
            trajectory: Trajectory::new(direction, starting_position, trajectory_color),
        }
    }

    pub fn velocity(&self) -> (velocity: V)
        ensures
            velocity == self@.velocity,
    {
        self.velocity
    }

    pub fn position(&self) -> (position: P)
        ensures
            position == self@.position,
    {
        self.position
    }

    pub fn trajectory_color(&self) -> (color: ColorData)
        ensures
            color == self@.trajectory.color,
    {
        self.trajectory.color()
    }

    /// Whether the trajectory has been found to repeat.
    pub fn is_trajectory_closed(&self) -> (closed: bool)
        requires
            self.wf(),
        ensures
            closed == self@.trajectory.is_closed(),
    {
        self.trajectory.is_closed()
    }

    /// Every `step`-th position of the trajectory, the oldest first.
    pub fn trajectory(&self, step: u32) -> (points: Vec<P>)
        requires
            self.wf(),
            step > 0,
        ensures
            points@ == crate::trajectory::stepped(self@.trajectory.positions, step as nat),
    {
        self.trajectory.positions(step)
    }

    /// Takes over the velocity and the position that the body has after a
    /// tick, and records the position in the trajectory.
    pub fn update_position(&mut self, step: MovementStep<V, P>)
        requires
            old(self).wf(),
        ensures
            final(self)@ == old(self)@.stepped(step),
            final(self).wf(),
    {
        self.position = step.position;
        self.velocity = step.velocity;
        self.trajectory.add_position(step.position, step.direction);
    }
}

} // verus!
