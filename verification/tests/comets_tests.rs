use solar_system::color::ColorData;
use solar_system::comets::{CometPossibleValues, CometsState};
use solar_system::movement::MovementStep;
use solar_system::objects::comet::{Comet, CometBody};
use solar_system::palette::{TrajectoryColors, COLOR_COUNT};
use solar_system::trajectory::Direction;

type Consts = (f64, f32);
type Velocity = (f32, (f32, f32));
type Point = (f32, f32);
type Comets = CometsState<Consts, Velocity, Point>;

fn color(slot: u8) -> ColorData {
    ColorData::new(slot, 2 * slot, 200 - slot)
}

fn catalog(images: u8, colors: u8) -> CometPossibleValues {
    CometPossibleValues::new(
        (0..images).map(|i| format!("assets/comet{}.png", i)).collect(),
        (0..colors).map(color).collect(),
    )
}

fn body(x: f32) -> CometBody<Consts, Velocity, Point> {
    CometBody {
        consts: (1e10, 5.0),
        velocity: (10.0, (1.0, 0.0)),
        direction: Direction::RightDown,
        position: (x, 0.0),
    }
}

fn comets(maximum: u8) -> Comets {
    let values = catalog(maximum, maximum);
    assert!(values.fits(maximum));
    CometsState::new(values, maximum)
}

fn colors_of(state: &Comets) -> Vec<ColorData> {
    state.as_slice().iter().map(|comet| comet.trajectory_color()).collect()
}

fn images_of(state: &Comets) -> Vec<u8> {
    state.as_slice().iter().map(|comet| comet.image_index()).collect()
}

fn numbers_of(state: &Comets) -> Vec<u16> {
    state.as_slice().iter().map(|comet| comet.number()).collect()
}

#[test]
fn there_are_no_comets_at_first() {
    let state = comets(3);
    assert_eq!(state.count(), 0);
    assert_eq!(state.maximum(), 3);
    assert!(state.can_add());
    assert!(state.as_slice().is_empty());
    assert_eq!(state.used_images(), vec![false, false, false]);
    assert!(!state.is_color_taken(0));
}

#[test]
fn comets_can_be_added_up_to_the_maximum() {
    let mut state = comets(3);
    for expected in 1..=3u8 {
        assert_eq!(state.add_new_comet(body(1.0)), Some(expected as u16));
        assert_eq!(state.count(), expected);
    }
    assert!(!state.can_add());
    assert_eq!(state.add_new_comet(body(1.0)), None);
    assert_eq!(state.count(), 3);
    assert_eq!(numbers_of(&state), vec![1, 2, 3]);
}

#[test]
fn a_full_collection_takes_a_comet_again_after_a_deletion() {
    let mut state = comets(2);
    state.add_new_comet(body(1.0));
    state.add_new_comet(body(2.0));
    assert_eq!(state.add_new_comet(body(3.0)), None);
    state.delete_comet(0);
    assert_eq!(state.add_new_comet(body(3.0)), Some(3));
    assert_eq!(numbers_of(&state), vec![2, 3]);
}

#[test]
fn with_no_room_at_all_nothing_is_added() {
    let mut state = comets(0);
    assert_eq!(state.add_new_comet(body(1.0)), None);
    assert_eq!(state.add_comet_with(0, 0, body(1.0)), None);
    assert_eq!(state.count(), 0);
}

#[test]
fn a_comet_is_built_from_its_body() {
    let mut state = comets(3);
    state.add_comet_with(0, 0, body(7.0));
    let comet = &state.as_slice()[0];
    assert_eq!(comet.name(), "Comet 1");
    assert_eq!(comet.number(), 1);
    assert_eq!(comet.consts(), (1e10, 5.0));
    assert_eq!(comet.position(), (7.0, 0.0));
    assert_eq!(comet.movement().velocity(), (10.0, (1.0, 0.0)));
    assert_eq!(comet.movement().trajectory(1), vec![(7.0, 0.0)]);
    assert_eq!(comet.values().position, (7.0, 0.0));
    assert_eq!(comet.values().consts, (1e10, 5.0));
}

#[test]
fn a_comet_alone_is_named_by_its_number() {
    let comet: Comet<Consts, Velocity, Point> = Comet::new(65_535, body(0.0), color(1), 2);
    assert_eq!(comet.name(), "Comet 65535");
    assert_eq!(comet.image_index(), 2);
    assert_eq!(comet.trajectory_color(), color(1));
}

#[test]
fn the_ranks_choose_among_the_free_colors_and_images() {
    let mut state = comets(3);
    assert_eq!(state.add_comet_with(1, 0, body(1.0)), Some(1));
    assert_eq!(colors_of(&state), vec![color(1)]);
    assert_eq!(images_of(&state), vec![0]);
    assert_eq!(state.add_comet_with(1, 1, body(2.0)), Some(2));
    assert_eq!(colors_of(&state), vec![color(1), color(2)]);
    assert_eq!(images_of(&state), vec![0, 2]);
    assert_eq!(state.add_comet_with(0, 0, body(3.0)), Some(3));
    assert_eq!(colors_of(&state), vec![color(1), color(2), color(0)]);
    assert_eq!(images_of(&state), vec![0, 2, 1]);
    assert_eq!(state.used_images(), vec![true, true, true]);
}

#[test]
fn a_deleted_comet_gives_its_color_back() {
    let mut state = comets(3);
    state.add_comet_with(0, 0, body(1.0));
    state.add_comet_with(0, 0, body(2.0));
    state.add_comet_with(0, 0, body(3.0));
    assert_eq!(colors_of(&state), vec![color(0), color(1), color(2)]);
    assert!(state.is_color_taken(1));
    state.delete_comet(1);
    assert!(state.is_color_taken(0));
    assert!(!state.is_color_taken(1));
    assert!(state.is_color_taken(2));
    assert_eq!(colors_of(&state), vec![color(0), color(2)]);
    assert_eq!(state.add_comet_with(0, 0, body(4.0)), Some(4));
    assert_eq!(colors_of(&state), vec![color(0), color(2), color(1)]);
    assert_eq!(images_of(&state), vec![0, 2, 1]);
}

#[test]
fn deleting_where_there_is_no_comet_changes_nothing() {
    let mut state = comets(3);
    state.add_comet_with(0, 0, body(1.0));
    state.delete_comet(1);
    state.delete_comet(255);
    assert_eq!(state.count(), 1);
    assert_eq!(numbers_of(&state), vec![1]);
    assert!(state.is_color_taken(0));
}

#[test]
fn deleting_from_no_comets_changes_nothing() {
    let mut state = comets(3);
    state.delete_comet(0);
    assert_eq!(state.count(), 0);
}

#[test]
fn numbers_are_never_given_twice() {
    let mut state = comets(2);
    state.add_new_comet(body(1.0));
    state.add_new_comet(body(2.0));
    state.delete_comet(0);
    state.add_new_comet(body(3.0));
    state.delete_comet(0);
    state.add_new_comet(body(4.0));
    assert_eq!(numbers_of(&state), vec![3, 4]);
}

#[test]
fn live_comets_never_share_a_color_or_an_image() {
    let mut state = comets(8);
    for round in 0..500u32 {
        if round % 3 == 2 {
            state.delete_comet((round % 5) as u8);
        } else {
            state.add_new_comet(body(round as f32));
        }
        let colors = colors_of(&state);
        let images = images_of(&state);
        for a in 0..colors.len() {
            for b in (a + 1)..colors.len() {
                assert_ne!(colors[a], colors[b]);
                assert_ne!(images[a], images[b]);
            }
        }
        for slot in 0..8u8 {
            assert_eq!(state.is_color_taken(slot), colors.contains(&color(slot)));
        }
    }
}

#[test]
fn chance_reaches_every_free_color() {
    let mut seen = [false; 4];
    for _ in 0..400 {
        let mut state = comets(4);
        state.add_new_comet(body(0.0));
        let first = state.as_slice()[0].trajectory_color();
        seen[state.possible_values().color_slot(first)] = true;
    }
    assert_eq!(seen, [true, true, true, true]);
}

#[test]
fn a_reload_removes_every_comet() {
    let mut state = comets(3);
    state.add_new_comet(body(1.0));
    state.add_new_comet(body(2.0));
    state.reload();
    assert_eq!(state.count(), 0);
    assert_eq!(state.maximum(), 3);
    for slot in 0..3 {
        assert!(!state.is_color_taken(slot));
    }
    assert_eq!(state.add_new_comet(body(3.0)), Some(1));
}

#[test]
fn comets_move_each_by_its_own_step() {
    let mut state = comets(3);
    state.add_comet_with(0, 0, body(1.0));
    state.add_comet_with(0, 0, body(2.0));
    let steps = vec![
        MovementStep { velocity: (11.0, (0.0, 1.0)), position: (1.5, 0.5), direction: Direction::RightDown },
        MovementStep { velocity: (12.0, (0.0, -1.0)), position: (2.5, -0.5), direction: Direction::RightUp },
    ];
    state.update_positions(&steps);
    let comets = state.as_slice();
    assert_eq!(comets[0].position(), (1.5, 0.5));
    assert_eq!(comets[1].position(), (2.5, -0.5));
    assert_eq!(comets[0].movement().velocity(), (11.0, (0.0, 1.0)));
    assert_eq!(comets[1].movement().trajectory(1), vec![(2.0, 0.0), (2.5, -0.5)]);
    assert_eq!(colors_of(&state), vec![color(0), color(1)]);
}

#[test]
fn the_catalog_hands_out_what_it_holds() {
    let values = catalog(2, 3);
    assert_eq!(values.get_image_by_index(1), "assets/comet1.png");
    assert_eq!(values.get_color_by_index(2), color(2));
    assert_eq!(values.images().len(), 2);
    assert_eq!(values.colors(), &[color(0), color(1), color(2)]);
    assert_eq!(values.color_slot(color(1)), 1);
    assert_eq!(values.color_slot(ColorData::new(9, 9, 9)), 3);
}

#[test]
fn a_catalog_has_to_serve_every_comet() {
    assert!(catalog(3, 3).fits(3));
    assert!(catalog(5, 4).fits(3));
    assert!(catalog(0, 0).fits(0));
    assert!(!catalog(2, 3).fits(3));
    assert!(!catalog(3, 2).fits(3));
}

#[test]
fn a_catalog_with_a_color_twice_does_not_fit() {
    let values = CometPossibleValues::new(
        vec![String::from("a"), String::from("b")],
        vec![color(1), color(1)],
    );
    assert!(!values.fits(2));
    assert!(!values.fits(0));
}

#[test]
fn transparency_is_no_part_of_a_color() {
    assert!(color(3).same_channels(&ColorData::new(3, 6, 197)));
    assert!(!color(3).same_channels(&ColorData::new(3, 6, 198)));
    assert_eq!(color(3), ColorData { red: 3, green: 6, blue: 197 });
}

#[test]
fn free_colors_come_in_the_order_of_their_codes() {
    let mut colors = TrajectoryColors::new();
    assert_eq!(colors.take_free_color(0), ColorData::new(0, 0, 0));
    assert_eq!(colors.take_free_color(0), ColorData::new(0, 0, 1));
    assert_eq!(colors.take_free_color(254), ColorData::new(0, 1, 1));
    assert_eq!(colors.take_free_color(0), ColorData::new(0, 0, 2));
    assert_eq!(colors.take_free_color(252), ColorData::new(0, 1, 0));
    assert_eq!(colors.take_free_color(252), ColorData::new(0, 1, 2));
    assert_eq!(colors.len(), 6);
}

#[test]
fn the_last_color_has_no_channel_at_the_top() {
    let mut colors = TrajectoryColors::new();
    assert_eq!(colors.take_free_color(COLOR_COUNT - 1), ColorData::new(254, 254, 254));
    assert_eq!(colors.take_free_color(COLOR_COUNT - 2), ColorData::new(254, 254, 253));
    assert_eq!(colors.take_free_color(65_025), ColorData::new(1, 0, 0));
}

#[test]
fn colors_drawn_by_chance_are_all_different() {
    let mut colors = TrajectoryColors::new();
    let mut drawn: Vec<ColorData> = Vec::new();
    for _ in 0..300 {
        let color = colors.generate_object_trajectory_color();
        assert!(color.red < 255 && color.green < 255 && color.blue < 255);
        assert!(!drawn.contains(&color));
        drawn.push(color);
    }
    assert_eq!(colors.len(), 300);
}
