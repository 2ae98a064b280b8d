use solar_system::redraw::RedrawState;
use solar_system::settings::scale::Scale;
use solar_system::settings::speed::Speed;
use solar_system::settings::Settings;

#[test]
fn the_first_tick_is_drawn() {
    let mut redraw = RedrawState::new(3);
    assert!(redraw.redraw_on_tick());
}

#[test]
fn ticks_between_redraws_are_skipped() {
    let mut redraw = RedrawState::new(2);
    let drawn: Vec<bool> = (0..7).map(|_| redraw.redraw_on_tick()).collect();
    assert_eq!(drawn, vec![true, false, false, true, false, false, true]);
}

#[test]
fn with_no_ticks_between_every_tick_is_drawn() {
    let mut redraw = RedrawState::new(0);
    assert!(redraw.redraw_on_tick());
    assert!(redraw.redraw_on_tick());
    assert!(redraw.redraw_on_tick());
}

#[test]
fn a_reload_draws_the_next_tick() {
    let mut redraw = RedrawState::new(5);
    assert!(redraw.redraw_on_tick());
    assert!(!redraw.redraw_on_tick());
    redraw.reload();
    assert!(redraw.redraw_on_tick());
    assert!(!redraw.redraw_on_tick());
}

#[test]
fn speed_starts_at_the_base() {
    let speed = Speed::new(7_201);
    assert_eq!(speed, Speed::X1(7_201));
    assert_eq!(speed.value(), 7_201);
    assert_eq!(speed.to_string(), "x1");
}

#[test]
fn each_faster_speed_doubles_the_seconds() {
    let mut speed = Speed::new(100);
    speed.set_next();
    assert_eq!(speed, Speed::X2(200));
    speed.set_next();
    assert_eq!(speed, Speed::X4(400));
    speed.set_next();
    assert_eq!(speed, Speed::X8(800));
    speed.set_next();
    assert_eq!(speed, Speed::X16(1_600));
    assert_eq!(speed.value(), 1_600);
}

#[test]
fn the_fastest_speed_stays() {
    let mut speed = Speed::X16(1_600);
    assert!(speed.can_set_next());
    speed.set_next();
    assert_eq!(speed, Speed::X16(1_600));
}

#[test]
fn each_slower_speed_halves_the_seconds() {
    let mut speed = Speed::X16(1_600);
    speed.set_previous();
    assert_eq!(speed, Speed::X8(800));
    speed.set_previous();
    assert_eq!(speed, Speed::X4(400));
    speed.set_previous();
    assert_eq!(speed, Speed::X2(200));
    speed.set_previous();
    assert_eq!(speed, Speed::X1(100));
}

#[test]
fn the_slowest_speed_stays() {
    let mut speed = Speed::X1(100);
    speed.set_previous();
    assert_eq!(speed, Speed::X1(100));
}

#[test]
fn halving_rounds_down() {
    let mut speed = Speed::X2(7);
    speed.set_previous();
    assert_eq!(speed, Speed::X1(3));
}

#[test]
fn doubling_is_checked_against_the_range() {
    assert!(Speed::X1(32_767).can_set_next());
    assert!(!Speed::X1(32_768).can_set_next());
    assert!(Speed::X16(65_535).can_set_next());
}

#[test]
fn speeds_are_named_by_their_factor() {
    assert_eq!(Speed::X1(1).to_string(), "x1");
    assert_eq!(Speed::X2(1).to_string(), "x2");
    assert_eq!(Speed::X4(1).to_string(), "x4");
    assert_eq!(Speed::X8(1).to_string(), "x8");
    assert_eq!(Speed::X16(1).to_string(), "x16");
}

#[test]
fn a_speed_reload_goes_back_to_the_base() {
    let mut speed = Speed::X8(800);
    speed.reload(50);
    assert_eq!(speed, Speed::X1(50));
}

#[test]
fn a_scale_shows_its_value() {
    let scale = Scale::new(150_000);
    assert_eq!(scale.value(), 150_000);
    assert_eq!(scale.value_string(), "150000");
}

#[test]
fn setting_a_scale_rewrites_the_text() {
    let mut scale = Scale::new(150_000);
    scale.set(42);
    assert_eq!(scale.value(), 42);
    assert_eq!(scale.value_string(), "42");
}

#[test]
fn setting_a_value_leaves_the_text() {
    let mut scale = Scale::new(150_000);
    scale.set_value(42);
    assert_eq!(scale.value(), 42);
    assert_eq!(scale.value_string(), "150000");
}

#[test]
fn a_scale_of_zero_is_not_taken() {
    let mut scale = Scale::new(150_000);
    scale.set_value(0);
    assert_eq!(scale.value(), 150_000);
}

#[test]
fn setting_the_text_leaves_the_value() {
    let mut scale = Scale::new(150_000);
    scale.set_string_value(String::from("12x"));
    assert_eq!(scale.value(), 150_000);
    assert_eq!(scale.value_string(), "12x");
}

#[test]
fn a_scale_reload_sets_value_and_text() {
    let mut scale = Scale::new(150_000);
    scale.set_string_value(String::from("abc"));
    scale.set_value(7);
    scale.reload(99);
    assert_eq!(scale.value(), 99);
    assert_eq!(scale.value_string(), "99");
}

#[test]
fn settings_start_paused() {
    let settings = Settings::new(7_201, 150_000);
    assert!(!settings.is_running());
    assert_eq!(*settings.speed(), Speed::X1(7_201));
    assert_eq!(settings.scale().value(), 150_000);
    assert_eq!(settings.scale().value_string(), "150000");
}

#[test]
fn toggling_starts_and_pauses() {
    let mut settings = Settings::new(7_201, 150_000);
    settings.toggle_running();
    assert!(settings.is_running());
    settings.toggle_running();
    assert!(!settings.is_running());
}

#[test]
fn parts_of_the_settings_can_be_changed() {
    let mut settings = Settings::new(100, 150_000);
    settings.speed_mut().set_next();
    settings.scale_mut().set(5);
    assert_eq!(*settings.speed(), Speed::X2(200));
    assert_eq!(settings.scale().value(), 5);
}

#[test]
fn a_settings_reload_pauses_and_resets() {
    let mut settings = Settings::new(100, 150_000);
    settings.toggle_running();
    settings.speed_mut().set_next();
    settings.scale_mut().set(5);
    settings.reload(100, 150_000);
    assert!(!settings.is_running());
    assert_eq!(*settings.speed(), Speed::X1(100));
    assert_eq!(settings.scale().value(), 150_000);
    assert_eq!(settings.scale().value_string(), "150000");
}
