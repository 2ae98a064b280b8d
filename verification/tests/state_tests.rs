use solar_system::color::ColorData;
use solar_system::comets::CometPossibleValues;
use solar_system::movement::MovementStep;
use solar_system::objects::comet::CometBody;
use solar_system::objects::planet::Planet;
use solar_system::objects::satellite::Satellite;
use solar_system::objects::sun::Sun;
use solar_system::objects::{ObjectId, OrbitStart, PlanetStart, PlanetStep};
use solar_system::settings::speed::Speed;
use solar_system::state::config::Config;
use solar_system::state::system_position::CursorPinch;
use solar_system::state::view::ViewState;
use solar_system::state::{Redraw, State};
use solar_system::trajectory::Direction;

type Consts = (f64, f32);
type Velocity = (f32, (f32, f32));
type Point = (f32, f32);
type Simulation = State<Consts, Velocity, Point>;

fn config() -> Config {
    Config {
        seconds_per_tick: 3_600,
        base_scale_change_factor: 10_000,
        path_to_solar_system_values: String::from("values.json"),
        step_formation: 100_000,
        time_between_ticks_in_nanos: 10,
        ticks_between_redraws: 2,
        default_scale: 150_000,
        background_stars_count: 100,
        path_to_assets: String::from("assets"),
        maximum_number_of_comets: 3,
    }
}

fn start(x: f32) -> OrbitStart<Velocity, Point> {
    OrbitStart { velocity: (30.0, (-1e-10, 1.0)), position: (x, 0.0) }
}

fn state_with(config: Config) -> Simulation {
    let sun = Sun::new((2e30, 696_000.0), (0.0, 0.0), String::from("assets/sun.png"));
    let moon = Satellite::new(
        String::from("Moon"),
        (7e22, 1_737.0),
        start(1.504e8),
        ColorData::new(9, 9, 9),
        String::from("assets/moon.png"),
    );
    let earth = Planet::new(
        String::from("Earth"),
        (6e24, 6_371.0),
        start(1.5e8),
        ColorData::new(1, 0, 0),
        String::from("assets/earth.png"),
        vec![moon],
    );
    let mars = Planet::new(
        String::from("Mars"),
        (6e23, 3_389.0),
        start(2.3e8),
        ColorData::new(2, 0, 0),
        String::from("assets/mars.png"),
        vec![],
    );
    let catalog = CometPossibleValues::new(
        (0..3).map(|i| format!("assets/comet{}.png", i)).collect(),
        (0..3).map(|i| ColorData::new(0, 100 + i, 0)).collect(),
    );
    assert!(config.is_usable());
    assert!(catalog.fits(config.maximum_number_of_comets));
    State::new(config, sun, vec![earth, mars], catalog)
}

fn state() -> Simulation {
    state_with(config())
}

fn body(x: f32) -> CometBody<Consts, Velocity, Point> {
    CometBody {
        consts: (1e10, 5.0),
        velocity: (10.0, (1.0, 0.0)),
        direction: Direction::RightDown,
        position: (x, 0.0),
    }
}

fn step(x: f32) -> MovementStep<Velocity, Point> {
    MovementStep { velocity: (31.0, (0.0, 1.0)), position: (x, 1.0), direction: Direction::LeftDown }
}

fn planet_steps(x: f32) -> Vec<PlanetStep<Velocity, Point>> {
    vec![
        PlanetStep { planet: step(x), satellites: vec![step(x + 1.0)] },
        PlanetStep { planet: step(x + 2.0), satellites: vec![] },
    ]
}

fn tick(state: &mut Simulation) -> bool {
    let comets = state.space.comets_count() as usize;
    let comet_steps: Vec<MovementStep<Velocity, Point>> = (0..comets).map(|c| step(c as f32)).collect();
    let overlaps = vec![vec![false; state.space.all_objects().len()]; comets];
    assert!(state.can_update());
    state.update(&planet_steps(1.0), &comet_steps, &overlaps)
}

#[test]
fn a_simulation_starts_paused_at_the_start_of_time() {
    let state = state();
    assert_eq!(state.time.to_string(), "01.01.0001 00:00:00");
    assert!(!state.settings.is_running());
    assert_eq!(*state.settings.speed(), Speed::X1(3_600));
    assert_eq!(state.settings.scale().value(), 150_000);
    assert_eq!(state.space.comets_count(), 0);
    assert_eq!(state.space.planets().len(), 2);
    assert!(state.view.planets_views_opened());
    assert!(state.view.comets_views_opened());
    assert!(state.view.is_scale_input_correct());
    assert!(!state.view.is_satellites_opened(String::from("Earth")));
    assert!(!state.view.is_satellites_opened(String::from("Mars")));
    assert_eq!(state.config.default_scale, 150_000);
}

#[test]
fn a_tick_moves_the_bodies_and_the_clock() {
    let mut state = state();
    assert!(tick(&mut state));
    assert_eq!(state.time.to_string(), "01.01.0001 01:00:00");
    assert_eq!(state.space.planets()[0].position(), (1.0, 1.0));
    assert_eq!(state.space.planets()[0].satellites()[0].position(), (2.0, 1.0));
    assert_eq!(state.space.planets()[1].position(), (3.0, 1.0));
}

#[test]
fn the_picture_is_drawn_again_every_third_tick() {
    let mut state = state();
    let drawn: Vec<bool> = (0..7).map(|_| tick(&mut state)).collect();
    assert_eq!(drawn, vec![true, false, false, true, false, false, true]);
}

#[test]
fn a_tick_goes_on_by_the_seconds_of_the_speed() {
    let mut state = state();
    state.increase_speed();
    state.increase_speed();
    assert_eq!(*state.settings.speed(), Speed::X4(14_400));
    tick(&mut state);
    assert_eq!(state.time.to_string(), "01.01.0001 04:00:00");
}

#[test]
fn a_tick_removes_the_comets_that_crashed() {
    let mut state = state();
    state.add_comet(body(1.0));
    state.add_comet(body(2.0));
    let comet_steps = vec![step(10.0), step(20.0)];
    let mut overlaps = vec![vec![false; 6]; 2];
    overlaps[0][0] = true;
    overlaps[0][4] = true;
    overlaps[1][5] = true;
    state.update(&planet_steps(1.0), &comet_steps, &overlaps);
    assert_eq!(state.space.comets_count(), 1);
    assert_eq!(state.space.comets().as_slice()[0].number(), 2);
    assert_eq!(state.space.comets().as_slice()[0].position(), (20.0, 1.0));
    assert_eq!(
        state.space.all_objects(),
        &[
            ObjectId::Sun,
            ObjectId::Planet(0),
            ObjectId::Satellite(0, 0),
            ObjectId::Planet(1),
            ObjectId::Comet(2)
        ]
    );
}

#[test]
fn the_wheel_towards_the_user_makes_the_scale_smaller() {
    let mut state = state();
    assert_eq!(state.change_scale(1), Redraw::System);
    assert_eq!(state.settings.scale().value(), 130_000);
    assert_eq!(state.settings.scale().value_string(), "130000");
    assert!(state.view.is_scale_input_correct());
}

#[test]
fn the_wheel_away_from_the_user_makes_the_scale_larger() {
    let mut state = state();
    assert_eq!(state.change_scale(-2), Redraw::System);
    assert_eq!(state.settings.scale().value(), 190_000);
    assert_eq!(state.settings.scale().value_string(), "190000");
}

#[test]
fn the_change_grows_with_the_scale() {
    let mut state = state();
    state.settings.scale_mut().set(1_000_000);
    assert_eq!(state.change_scale(-1), Redraw::System);
    assert_eq!(state.settings.scale().value(), 1_110_000);
    state.settings.scale_mut().set(99_999);
    assert_eq!(state.change_scale(1), Redraw::System);
    assert_eq!(state.settings.scale().value(), 89_999);
}

#[test]
fn a_scale_of_zero_is_refused() {
    let mut state = state();
    state.settings.scale_mut().set(20_000);
    assert_eq!(state.change_scale(2), Redraw::Nothing);
    assert_eq!(state.settings.scale().value(), 20_000);
    assert!(!state.view.is_scale_input_correct());
}

#[test]
fn a_scale_below_zero_is_refused() {
    let mut state = state();
    assert_eq!(state.change_scale(100), Redraw::Nothing);
    assert_eq!(state.settings.scale().value(), 150_000);
    assert_eq!(state.settings.scale().value_string(), "150000");
    assert!(!state.view.is_scale_input_correct());
}

#[test]
fn a_scale_of_one_is_taken() {
    let mut state = state();
    state.settings.scale_mut().set(10_001);
    assert_eq!(state.change_scale(1), Redraw::System);
    assert_eq!(state.settings.scale().value(), 1);
}

#[test]
fn a_scale_beyond_32_bits_is_refused() {
    let mut state = state();
    state.settings.scale_mut().set(4_294_000_000);
    assert_eq!(state.change_scale(-1), Redraw::Nothing);
    assert_eq!(state.settings.scale().value(), 4_294_000_000);
    assert!(!state.view.is_scale_input_correct());
    assert_eq!(state.change_scale(i16::MIN), Redraw::Nothing);
}

#[test]
fn the_largest_scale_is_taken() {
    let mut config = config();
    config.base_scale_change_factor = 5;
    config.step_formation = u32::MAX;
    let mut state = state_with(config);
    state.settings.scale_mut().set(u32::MAX - 10);
    assert_eq!(state.change_scale(-2), Redraw::System);
    assert_eq!(state.settings.scale().value(), u32::MAX);
    assert_eq!(state.change_scale(-1), Redraw::Nothing);
}

#[test]
fn a_huge_change_is_refused_without_overflow() {
    let mut config = config();
    config.base_scale_change_factor = u32::MAX;
    config.step_formation = 1;
    let mut state = state_with(config);
    state.settings.scale_mut().set(u32::MAX);
    assert_eq!(state.change_scale(i16::MAX), Redraw::Nothing);
    assert_eq!(state.change_scale(i16::MIN), Redraw::Nothing);
    assert_eq!(state.settings.scale().value(), u32::MAX);
}

#[test]
fn a_wheel_that_has_not_turned_rewrites_the_scale() {
    let mut state = state();
    state.settings.scale_mut().set_string_value(String::from("abc"));
    assert_eq!(state.change_scale(0), Redraw::System);
    assert_eq!(state.settings.scale().value(), 150_000);
    assert_eq!(state.settings.scale().value_string(), "150000");
}

#[test]
fn a_refused_change_stays_marked_until_an_input_is_right() {
    let mut state = state();
    state.change_scale(100);
    assert!(!state.view.is_scale_input_correct());
    state.change_scale(1);
    assert!(!state.view.is_scale_input_correct());
    state.set_scale_from_input(String::from("5"));
    assert!(state.view.is_scale_input_correct());
}

#[test]
fn a_typed_number_becomes_the_scale() {
    let mut state = state();
    assert_eq!(state.set_scale_from_input(String::from("42")), Redraw::System);
    assert_eq!(state.settings.scale().value(), 42);
    assert_eq!(state.settings.scale().value_string(), "42");
    assert!(state.view.is_scale_input_correct());
}

#[test]
fn white_space_around_a_typed_number_is_ignored() {
    let mut state = state();
    assert_eq!(state.set_scale_from_input(String::from("  42\t\n")), Redraw::System);
    assert_eq!(state.settings.scale().value(), 42);
    assert_eq!(state.settings.scale().value_string(), "  42\t\n");
    assert!(state.view.is_scale_input_correct());
}

#[test]
fn what_is_no_number_marks_the_input_as_wrong() {
    let mut state = state();
    assert_eq!(state.set_scale_from_input(String::from("4 2")), Redraw::Nothing);
    assert_eq!(state.settings.scale().value(), 150_000);
    assert_eq!(state.settings.scale().value_string(), "4 2");
    assert!(!state.view.is_scale_input_correct());
    assert_eq!(state.set_scale_from_input(String::new()), Redraw::Nothing);
    assert_eq!(state.settings.scale().value_string(), "");
    assert_eq!(state.set_scale_from_input(String::from("-7")), Redraw::Nothing);
    assert_eq!(state.set_scale_from_input(String::from("4294967296")), Redraw::Nothing);
    assert_eq!(state.settings.scale().value(), 150_000);
}

#[test]
fn a_typed_zero_is_right_but_not_taken() {
    let mut state = state();
    assert_eq!(state.set_scale_from_input(String::from("0")), Redraw::System);
    assert_eq!(state.settings.scale().value(), 150_000);
    assert_eq!(state.settings.scale().value_string(), "0");
    assert!(state.view.is_scale_input_correct());
}

#[test]
fn a_number_that_was_read_is_taken_as_it_is() {
    let mut state = state();
    assert_eq!(state.set_scale_from_parsed(Some(9), String::from("nine")), Redraw::System);
    assert_eq!(state.settings.scale().value(), 9);
    assert_eq!(state.settings.scale().value_string(), "nine");
    assert_eq!(state.set_scale_from_parsed(None, String::from("9")), Redraw::Nothing);
    assert_eq!(state.settings.scale().value(), 9);
    assert!(!state.view.is_scale_input_correct());
}

#[test]
fn the_simulation_starts_and_pauses() {
    let mut state = state();
    state.toggle_play_pause();
    assert!(state.settings.is_running());
    state.toggle_play_pause();
    assert!(!state.settings.is_running());
}

#[test]
fn the_speed_goes_up_and_down() {
    let mut state = state();
    for _ in 0..6 {
        state.increase_speed();
    }
    assert_eq!(*state.settings.speed(), Speed::X16(57_600));
    state.decrease_speed();
    assert_eq!(*state.settings.speed(), Speed::X8(28_800));
    for _ in 0..6 {
        state.decrease_speed();
    }
    assert_eq!(*state.settings.speed(), Speed::X1(3_600));
}

#[test]
fn a_configuration_has_to_leave_room_for_the_fastest_speed() {
    let mut config = config();
    config.seconds_per_tick = 4_095;
    assert!(config.is_usable());
    config.seconds_per_tick = 4_096;
    assert!(!config.is_usable());
    config.seconds_per_tick = 1;
    config.step_formation = 0;
    assert!(!config.is_usable());
}

#[test]
fn comets_come_and_go() {
    let mut state = state();
    assert!(state.can_add_comet());
    assert_eq!(state.add_comet(body(1.0)), Some(1));
    assert_eq!(state.add_comet(body(2.0)), Some(2));
    assert_eq!(state.add_comet(body(3.0)), Some(3));
    assert!(!state.can_add_comet());
    assert_eq!(state.add_comet(body(4.0)), None);
    state.delete_comet(0);
    assert_eq!(state.space.comets_count(), 2);
    state.delete_comet(5);
    assert_eq!(state.space.comets_count(), 2);
    assert_eq!(state.time.to_string(), "01.01.0001 00:00:00");
}

#[test]
fn a_reload_goes_back_to_the_start() {
    let mut state = state();
    state.add_comet(body(1.0));
    state.toggle_play_pause();
    state.increase_speed();
    state.change_scale(1);
    state.comets_view_toggle();
    tick(&mut state);
    tick(&mut state);
    let starts = vec![
        PlanetStart { planet: start(100.0), satellites: vec![start(101.0)] },
        PlanetStart { planet: start(200.0), satellites: vec![] },
    ];
    assert_eq!(state.reload(&starts), Redraw::All);
    assert_eq!(state.time.to_string(), "01.01.0001 00:00:00");
    assert!(!state.settings.is_running());
    assert_eq!(*state.settings.speed(), Speed::X1(3_600));
    assert_eq!(state.settings.scale().value(), 150_000);
    assert_eq!(state.settings.scale().value_string(), "150000");
    assert_eq!(state.space.comets_count(), 0);
    assert_eq!(state.space.planets()[0].position(), (100.0, 0.0));
    assert_eq!(state.space.planets()[0].satellites()[0].position(), (101.0, 0.0));
    assert_eq!(state.space.planets()[1].movement().trajectory(1), vec![(200.0, 0.0)]);
    assert!(!state.view.comets_views_opened());
    assert!(tick(&mut state));
}

#[test]
fn the_step_through_a_trajectory_grows_with_the_scale() {
    let mut state = state();
    assert!(state.has_step());
    assert_eq!(state.step(), 2);
    state.settings.scale_mut().set(99_999);
    assert_eq!(state.step(), 1);
    state.settings.scale_mut().set(1_000_000);
    assert_eq!(state.step(), 11);
}

#[test]
fn the_lists_of_planets_and_comets_open_and_close() {
    let mut state = state();
    state.planets_view_toggle();
    assert!(!state.view.planets_views_opened());
    assert!(state.view.comets_views_opened());
    state.comets_view_toggle();
    assert!(!state.view.comets_views_opened());
    state.planets_view_toggle();
    assert!(state.view.planets_views_opened());
}

#[test]
fn the_satellites_of_a_planet_open_and_close() {
    let mut state = state();
    state.satellites_view_toggle(String::from("Earth"));
    assert!(state.view.is_satellites_opened(String::from("Earth")));
    assert!(!state.view.is_satellites_opened(String::from("Mars")));
    state.satellites_view_toggle(String::from("Earth"));
    assert!(!state.view.is_satellites_opened(String::from("Earth")));
}

#[test]
fn a_planet_that_is_not_there_opens_nothing() {
    let mut state = state();
    assert!(!state.view.has_planet(String::from("Pluto")));
    assert!(state.view.has_planet(String::from("Mars")));
    state.satellites_view_toggle(String::from("Pluto"));
    assert!(!state.view.is_satellites_opened(String::from("Earth")));
    assert!(!state.view.is_satellites_opened(String::from("Mars")));
}

#[test]
fn the_scale_input_is_marked_and_unmarked() {
    let mut view = ViewState::new(vec![String::from("Earth")]);
    assert!(view.is_scale_input_correct());
    view.set_incorrect_scale_color();
    assert!(!view.is_scale_input_correct());
    view.set_correct_scale_color();
    assert!(view.is_scale_input_correct());
    view.toggle_planets_view();
    view.toggle_comets_view();
    view.toggle_satellites_view(String::from("Earth"));
    assert!(!view.planets_views_opened());
    assert!(!view.comets_views_opened());
    assert!(view.is_satellites_opened(String::from("Earth")));
}

#[test]
fn the_mouse_button_is_up_by_default() {
    assert_eq!(CursorPinch::default(), CursorPinch::NotClamped);
    assert_ne!(CursorPinch::default(), CursorPinch::Clamped);
}
