use solar_system::color::ColorData;
use solar_system::movement::{MovementStep, ObjectMovement};
use solar_system::trajectory::{Direction, Trajectory, TrajectoryClosing, TRAJECTORY_CAPACITY};

type Point = (f32, f32);

fn red() -> ColorData {
    ColorData::new(200, 10, 10)
}

fn direction_of(x: f32, y: f32) -> Direction {
    Direction::from_signs(x.is_sign_negative(), y.is_sign_negative())
}

#[test]
fn the_quadrant_follows_the_signs() {
    assert_eq!(Direction::from_signs(false, false), Direction::RightDown);
    assert_eq!(Direction::from_signs(false, true), Direction::RightUp);
    assert_eq!(Direction::from_signs(true, false), Direction::LeftDown);
    assert_eq!(Direction::from_signs(true, true), Direction::LeftUp);
}

#[test]
fn the_start_of_an_orbit_leans_to_the_left() {
    assert_eq!(direction_of(-1e-10, 1.0), Direction::LeftDown);
}

#[test]
fn zero_has_a_sign_too() {
    assert_eq!(direction_of(0.0, 0.0), Direction::RightDown);
    assert_eq!(direction_of(-0.0, -0.0), Direction::LeftUp);
}

#[test]
fn a_new_trajectory_holds_the_starting_position() {
    let trajectory: Trajectory<Point> = Trajectory::new(Direction::LeftDown, (1.0, 2.0), red());
    assert_eq!(trajectory.len(), 1);
    assert!(!trajectory.is_closed());
    assert_eq!(trajectory.color(), red());
    assert_eq!(trajectory.positions(1), vec![(1.0, 2.0)]);
}

#[test]
fn an_open_trajectory_grows() {
    let mut trajectory: Trajectory<Point> = Trajectory::new(Direction::LeftDown, (0.0, 0.0), red());
    for i in 1..=10 {
        trajectory.add_position((i as f32, 0.0), Direction::LeftDown);
        assert_eq!(trajectory.len(), i + 1);
    }
    assert!(!trajectory.is_closed());
}

#[test]
fn a_straight_path_never_closes() {
    let mut trajectory: Trajectory<Point> = Trajectory::new(Direction::RightUp, (0.0, 0.0), red());
    for i in 0..25_000 {
        trajectory.add_position((i as f32, -(i as f32)), Direction::RightUp);
        assert!(!trajectory.is_closed());
    }
}

#[test]
fn an_open_trajectory_stops_growing_at_its_capacity() {
    let mut trajectory: Trajectory<Point> = Trajectory::new(Direction::RightUp, (0.0, 0.0), red());
    for i in 1..=12_000 {
        trajectory.add_position((i as f32, 0.0), Direction::RightUp);
    }
    assert_eq!(trajectory.len(), TRAJECTORY_CAPACITY);
    let positions = trajectory.positions(1);
    assert_eq!(positions[0], (2_001.0, 0.0));
    assert_eq!(positions[TRAJECTORY_CAPACITY - 1], (12_000.0, 0.0));
}

#[test]
fn a_round_trip_closes_with_the_fifth_turn() {
    let mut trajectory: Trajectory<Point> = Trajectory::new(Direction::LeftDown, (0.0, 0.0), red());
    let turns = [
        Direction::LeftUp,
        Direction::RightUp,
        Direction::RightDown,
        Direction::LeftDown,
    ];
    for (i, direction) in turns.iter().enumerate() {
        trajectory.add_position((i as f32, 0.0), *direction);
        trajectory.add_position((i as f32, 1.0), *direction);
        assert!(!trajectory.is_closed());
    }
    trajectory.add_position((9.0, 9.0), Direction::LeftUp);
    assert!(trajectory.is_closed());
    assert_eq!(trajectory.len(), 10);
}

#[test]
fn a_closed_trajectory_keeps_its_length() {
    let mut trajectory: Trajectory<Point> = Trajectory::new(Direction::LeftDown, (0.0, 0.0), red());
    for (i, direction) in [
        Direction::LeftUp,
        Direction::RightUp,
        Direction::RightDown,
        Direction::LeftDown,
        Direction::LeftUp,
    ].iter().enumerate() {
        trajectory.add_position((i as f32 + 1.0, 0.0), *direction);
    }
    assert!(trajectory.is_closed());
    assert_eq!(trajectory.len(), 6);
    trajectory.add_position((6.0, 0.0), Direction::RightUp);
    trajectory.add_position((7.0, 0.0), Direction::RightDown);
    assert!(trajectory.is_closed());
    assert_eq!(trajectory.len(), 6);
    assert_eq!(
        trajectory.positions(1),
        vec![(2.0, 0.0), (3.0, 0.0), (4.0, 0.0), (5.0, 0.0), (6.0, 0.0), (7.0, 0.0)]
    );
}

#[test]
fn a_circle_closes_after_a_revolution_and_a_quarter() {
    let steps = 360;
    let mut trajectory: Trajectory<Point> = Trajectory::new(direction_of(-1e-10, 1.0), (1.0, 0.0), red());
    let mut closed_at = None;
    for i in 1..=(2 * steps) {
        let angle = (i as f64) * std::f64::consts::TAU / (steps as f64);
        let position = (angle.cos() as f32, angle.sin() as f32);
        let velocity = (-angle.sin() as f32, angle.cos() as f32);
        trajectory.add_position(position, direction_of(velocity.0, velocity.1));
        if closed_at.is_none() && trajectory.is_closed() {
            closed_at = Some(i);
        }
    }
    let closed_at = closed_at.unwrap();
    assert!(closed_at > steps && closed_at <= steps + steps / 4 + 1, "{}", closed_at);
    assert_eq!(trajectory.len(), closed_at + 1);
}

#[test]
fn going_back_and_forth_does_not_close() {
    let mut trajectory: Trajectory<Point> = Trajectory::new(Direction::LeftDown, (0.0, 0.0), red());
    for i in 0..1_000 {
        let direction = if i % 2 == 0 { Direction::RightUp } else { Direction::LeftDown };
        trajectory.add_position((i as f32, 0.0), direction);
    }
    assert!(!trajectory.is_closed());
}

#[test]
fn the_initial_quadrant_is_not_marked() {
    let closing = TrajectoryClosing::new(Direction::LeftDown);
    assert_eq!(closing.direction, Direction::LeftDown);
    assert!(!closing.is_left_down_used);
    assert!(!closing.is_all_directions_used);
    let same = closing.move_towards(Direction::LeftDown).unwrap();
    assert_eq!(same, closing);
    let turned = closing.move_towards(Direction::RightUp).unwrap();
    assert!(turned.is_right_up_used);
    assert!(!turned.is_left_down_used);
    assert_eq!(turned.direction, Direction::RightUp);
}

#[test]
fn every_third_position() {
    let mut trajectory: Trajectory<Point> = Trajectory::new(Direction::LeftDown, (0.0, 0.0), red());
    for i in 1..=7 {
        trajectory.add_position((i as f32, 0.0), Direction::LeftDown);
    }
    assert_eq!(trajectory.positions(3), vec![(0.0, 0.0), (3.0, 0.0), (6.0, 0.0)]);
    assert_eq!(trajectory.positions(8), vec![(0.0, 0.0)]);
    assert_eq!(trajectory.positions(7), vec![(0.0, 0.0), (7.0, 0.0)]);
    assert_eq!(trajectory.positions(u32::MAX), vec![(0.0, 0.0)]);
    assert_eq!(trajectory.positions(1).len(), 8);
}

#[test]
fn a_planet_starts_towards_the_lower_left() {
    let mut movement: ObjectMovement<f32, Point> =
        ObjectMovement::new_solar_system_object_movement(29.8, (1.0, 0.0), red());
    assert_eq!(movement.velocity(), 29.8);
    assert_eq!(movement.position(), (1.0, 0.0));
    assert_eq!(movement.trajectory_color(), red());
    assert_eq!(movement.trajectory(1), vec![(1.0, 0.0)]);
    for (i, direction) in [
        Direction::LeftUp,
        Direction::RightUp,
        Direction::RightDown,
        Direction::LeftDown,
    ].iter().enumerate() {
        movement.update_position(MovementStep { velocity: 1.0, position: (i as f32, 0.0), direction: *direction });
        assert!(!movement.is_trajectory_closed());
    }
    movement.update_position(MovementStep { velocity: 1.0, position: (9.0, 0.0), direction: Direction::LeftUp });
    assert!(movement.is_trajectory_closed());
}

#[test]
fn a_step_sets_velocity_and_position() {
    let mut movement: ObjectMovement<f32, Point> =
        ObjectMovement::new_comet_movement(5.0, Direction::RightUp, (1.0, 1.0), red());
    movement.update_position(MovementStep { velocity: 6.0, position: (2.0, 0.5), direction: Direction::RightUp });
    assert_eq!(movement.velocity(), 6.0);
    assert_eq!(movement.position(), (2.0, 0.5));
    assert_eq!(movement.trajectory(1), vec![(1.0, 1.0), (2.0, 0.5)]);
    assert!(!movement.is_trajectory_closed());
}
