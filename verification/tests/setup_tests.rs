use solar_system::color::ColorData;
use solar_system::data::{CometData, Data, PlanetData, SatelliteData, SunData};
use solar_system::objects::OrbitStart;
use solar_system::palette::TrajectoryColors;
use solar_system::setup::image_path;
use solar_system::space::SpaceState;

type Consts = (f64, f32);
type Velocity = (f32, (f32, f32));
type Point = (f32, f32);
type Space = SpaceState<Consts, Velocity, Point>;

fn start(x: f32) -> OrbitStart<Velocity, Point> {
    OrbitStart { velocity: (30.0, (-1e-10, 1.0)), position: (x, 0.0) }
}

fn satellite(name: &str, x: f32) -> SatelliteData<Consts, Velocity, Point> {
    SatelliteData {
        name: String::from(name),
        consts: (7e22, 1_737.0),
        start: start(x),
        image_filename: format!("{}.png", name),
    }
}

fn planet(name: &str, x: f32, satellites: Vec<SatelliteData<Consts, Velocity, Point>>) -> PlanetData<Consts, Velocity, Point> {
    PlanetData {
        name: String::from(name),
        consts: (6e24, 6_371.0),
        start: start(x),
        image_filename: format!("{}.png", name),
        satellites,
    }
}

fn data() -> Data<Consts, Velocity, Point> {
    Data {
        sun: SunData { consts: (2e30, 696_000.0), position: (0.0, 0.0), image_filename: String::from("sun.png") },
        planets: vec![
            planet("Mercury", 6e7, vec![]),
            planet("Earth", 1.5e8, vec![satellite("Moon", 1.504e8)]),
            planet("Jupiter", 7.8e8, vec![satellite("Io", 7.804e8), satellite("Europa", 7.807e8)]),
        ],
        comet: CometData { images_filenames: vec![String::from("c1.png"), String::from("c2.png")] },
    }
}

fn all_different(colors: &[ColorData]) -> bool {
    (0..colors.len()).all(|a| ((a + 1)..colors.len()).all(|b| colors[a] != colors[b]))
}

#[test]
fn an_image_lies_in_the_directory_of_images() {
    assert_eq!(image_path("assets", "sun.png"), "assets/sun.png");
    assert_eq!(image_path("", "sun.png"), "/sun.png");
    assert_eq!(image_path("a/b", ""), "a/b/");
}

#[test]
fn the_system_is_built_as_the_catalog_describes_it() {
    let (sun, planets, comet_values) = Space::get_solar_system_data(&data(), "assets", 4);
    assert_eq!(sun.image(), "assets/sun.png");
    assert_eq!(sun.consts(), (2e30, 696_000.0));
    assert_eq!(sun.position(), (0.0, 0.0));
    assert_eq!(planets.len(), 3);
    assert_eq!(planets[0].name(), "Mercury");
    assert_eq!(planets[1].name(), "Earth");
    assert_eq!(planets[1].image(), "assets/Earth.png");
    assert_eq!(planets[1].position(), (1.5e8, 0.0));
    assert_eq!(planets[1].movement().velocity(), (30.0, (-1e-10, 1.0)));
    assert_eq!(planets[1].movement().trajectory(1), vec![(1.5e8, 0.0)]);
    assert_eq!(planets[1].satellites().len(), 1);
    assert_eq!(planets[1].satellites()[0].name(), "Moon");
    assert_eq!(planets[1].satellites()[0].image(), "assets/Moon.png");
    assert_eq!(planets[1].satellites()[0].consts(), (7e22, 1_737.0));
    assert_eq!(planets[2].satellites().len(), 2);
    assert_eq!(planets[2].satellites()[1].name(), "Europa");
    assert_eq!(planets[2].satellites()[1].position(), (7.807e8, 0.0));
    assert_eq!(comet_values.images().len(), 2);
    assert_eq!(comet_values.get_image_by_index(1), "assets/c2.png");
    assert_eq!(comet_values.colors().len(), 4);
}

#[test]
fn every_body_and_every_comet_slot_has_a_color_of_its_own() {
    let (_, planets, comet_values) = Space::get_solar_system_data(&data(), "assets", 40);
    let mut colors: Vec<ColorData> = Vec::new();
    for planet in planets.iter() {
        colors.push(planet.movement().trajectory_color());
        for satellite in planet.satellites() {
            colors.push(satellite.movement().trajectory_color());
        }
    }
    colors.extend_from_slice(comet_values.colors());
    assert_eq!(colors.len(), 46);
    assert!(all_different(&colors));
    assert!(colors.iter().all(|c| c.red < 255 && c.green < 255 && c.blue < 255));
    assert!(!comet_values.fits(40));
    assert!(comet_values.fits(2));
}

#[test]
fn the_colors_of_the_planets_go_into_the_books() {
    let mut colors = TrajectoryColors::new();
    let first = Space::generate_object_trajectory_color(&mut colors);
    let planets = Space::get_planets_data(&data().planets, &mut colors, "img");
    assert_eq!(colors.len(), 7);
    for planet in planets.iter() {
        assert_ne!(planet.movement().trajectory_color(), first);
        assert!(planet.image().starts_with("img/"));
    }
}

#[test]
fn a_catalog_without_planets_gives_a_sun_alone() {
    let data: Data<Consts, Velocity, Point> = Data {
        sun: SunData { consts: (2e30, 696_000.0), position: (0.0, 0.0), image_filename: String::from("sun.png") },
        planets: vec![],
        comet: CometData { images_filenames: vec![] },
    };
    let (sun, planets, comet_values) = Space::get_solar_system_data(&data, "assets", 0);
    assert_eq!(sun.name(), "Sun");
    assert!(planets.is_empty());
    assert!(comet_values.colors().is_empty());
    assert!(comet_values.fits(0));
    let space = Space::new(sun, planets, comet_values, 0);
    assert_eq!(space.all_objects().len(), 1);
}
