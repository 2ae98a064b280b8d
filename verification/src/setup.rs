use vstd::prelude::*;
use vstd::string::StringExecFns;
use crate::color::ColorData;
use crate::comets::CometPossibleValues;
use crate::data::{body_count, lemma_body_count_grows, Data, PlanetData, SatelliteData};
use crate::movement::{MovementView, orbit_start_direction};
use crate::objects::planet::{Planet, PlanetView};
use crate::objects::satellite::{Satellite, SatelliteView};
use crate::objects::sun::{Sun, SunView};
use crate::palette::{distinct, is_trajectory_color, TrajectoryColors, COLOR_COUNT};
use crate::space::{planet_views, SpaceState};

verus! {

/// The path of an image: the directory, a slash, and the name of the file.
pub open spec fn image_path_of(path_to_images: Seq<char>, image_filename: Seq<char>) -> Seq<char> {
    path_to_images + seq!['/'] + image_filename
}

/// The path of the image in the file `image_filename` of the directory `path_to_images`.
pub fn image_path(path_to_images: &str, image_filename: &str) -> (path: String)
    ensures
        path@ == image_path_of(path_to_images@, image_filename@),
{
    proof {
        reveal_strlit("/");
    }
    let mut path = String::from_str(path_to_images);
    path.append("/");
    path.append(image_filename);
    assert("/"@ =~= seq!['/']);
    path
}

/// Whether a satellite is the one that the catalog describes, with its
/// image in the directory `path`; its trajectory color is left open.
pub open spec fn satellite_matches<C, V, P>(
    satellite: SatelliteView<C, V, P>,
    data: SatelliteData<C, V, P>,
    path: Seq<char>,
) -> bool {
    satellite == (SatelliteView {
        name: data.name@,
        consts: data.consts,
        movement: MovementView::start(
            data.start.velocity,
            orbit_start_direction(),
            data.start.position,
            satellite.movement.trajectory.color,
        ),
        image: image_path_of(path, data.image_filename@),
    })
}

/// Whether a planet with its satellites is the one that the catalog
/// describes, with the images in the directory `path`; the trajectory
/// colors are left open.
pub open spec fn planet_matches<C, V, P>(
    planet: PlanetView<C, V, P>,
    data: PlanetData<C, V, P>,
    path: Seq<char>,
) -> bool {
    &&& planet.name == data.name@
    &&& planet.consts == data.consts
    &&& planet.movement == MovementView::start(
        data.start.velocity,
        orbit_start_direction(),
        data.start.position,
        planet.movement.trajectory.color,
    )
    &&& planet.image == image_path_of(path, data.image_filename@)
    &&& planet.satellites.len() == data.satellites@.len()
    &&& forall|j: int|
        0 <= j < planet.satellites.len() ==> satellite_matches(
            #[trigger] planet.satellites[j],
            data.satellites@[j],
            path,
        )
}

/// The trajectory colors of the first `count` satellites of a planet.
pub open spec fn satellite_colors<C, V, P>(planet: PlanetView<C, V, P>, count: int) -> Seq<
    ColorData,
> {
    Seq::new(count as nat, |j: int| planet.satellites[j].movement.trajectory.color)
}

/// The trajectory colors of the first `count` planets, each followed by
/// those of its satellites.
pub open spec fn planet_colors<C, V, P>(planets: Seq<PlanetView<C, V, P>>, count: int) -> Seq<
    ColorData,
>
    decreases count,
{
    if count <= 0 {
        Seq::empty()
    } else {
        planet_colors(planets, count - 1).push(planets[count - 1].movement.trajectory.color)
            + satellite_colors(planets[count - 1], planets[count - 1].satellites.len() as int)
    }
}

impl<C: Copy, V: Copy, P: Copy> SpaceState<C, V, P> {
    /// A trajectory color that no body has yet, drawn by chance.
    pub fn generate_object_trajectory_color(trajectory_colors_values: &mut TrajectoryColors) -> (color:
        ColorData)
        requires
            old(trajectory_colors_values).wf(),
            old(trajectory_colors_values)@.len() < COLOR_COUNT,
        ensures
            final(trajectory_colors_values).wf(),
            final(trajectory_colors_values)@ == old(trajectory_colors_values)@.push(color),
            is_trajectory_color(color),
            !old(trajectory_colors_values)@.contains(color),
    {
        trajectory_colors_values.generate_object_trajectory_color()
    }

    /// The satellites of a planet as the catalog describes them, each with
    /// a trajectory color of its own.
    fn get_satellites_data(
        satellites_data: &Vec<SatelliteData<C, V, P>>,
        trajectory_colors_values: &mut TrajectoryColors,
        path_to_images: &str,
    ) -> (satellites: Vec<Satellite<C, V, P>>)
        requires
            old(trajectory_colors_values).wf(),
            old(trajectory_colors_values)@.len() + satellites_data@.len() <= COLOR_COUNT,
        ensures
            final(trajectory_colors_values).wf(),
            satellites@.len() == satellites_data@.len(),
            forall|j: int| 0 <= j < satellites@.len() ==> satellites@[j].wf(),
            forall|j: int|
                0 <= j < satellites@.len() ==> satellite_matches(
                    #[trigger] satellites@[j]@,
                    satellites_data@[j],
                    path_to_images@,
                ),
            final(trajectory_colors_values)@ == old(trajectory_colors_values)@ + Seq::new(
                satellites@.len(),
                |j: int| satellites@[j]@.movement.trajectory.color,
            ),
    {
        let count = satellites_data.len();
        let mut satellites: Vec<Satellite<C, V, P>> = Vec::new();
        let mut j: usize = 0;
        assert(trajectory_colors_values@ =~= old(trajectory_colors_values)@ + Seq::new(
            satellites@.len(),
            |j: int| satellites@[j]@.movement.trajectory.color,
        ));
        while j < count
            invariant
                j <= count,
                count == satellites_data@.len(),
                satellites@.len() == j,
                trajectory_colors_values.wf(),
                old(trajectory_colors_values)@.len() + count <= COLOR_COUNT,
                forall|k: int| 0 <= k < j ==> satellites@[k].wf(),
                forall|k: int|
                    0 <= k < j ==> satellite_matches(
                        #[trigger] satellites@[k]@,
                        satellites_data@[k],
                        path_to_images@,
                    ),
                trajectory_colors_values@ == old(trajectory_colors_values)@ + Seq::new(
                    satellites@.len(),
                    |k: int| satellites@[k]@.movement.trajectory.color,
                ),
            decreases count - j,
        {
            let data = &satellites_data[j];
            let color = Self::generate_object_trajectory_color(trajectory_colors_values);
            let satellite = Satellite::new(
                data.name.clone(),
                data.consts,
                data.start,
                color,
                image_path(path_to_images, data.image_filename.as_str()),
            );
            let ghost before = satellites@;
            satellites.push(satellite);
            j = j + 1;
            assert(trajectory_colors_values@ =~= old(trajectory_colors_values)@ + Seq::new(
                satellites@.len(),
                |k: int| satellites@[k]@.movement.trajectory.color,
            )) by {
                assert forall|k: int| 0 <= k < before.len() implies satellites@[k] == before[k] by {}
            }
        }
        satellites
    }

    /// The planets with their satellites as the catalog describes them, each
    /// body with a trajectory color of its own, which goes into
    /// `trajectory_colors_values`.
    pub fn get_planets_data(
        planets_data: &Vec<PlanetData<C, V, P>>,
        trajectory_colors_values: &mut TrajectoryColors,
        path_to_images: &str,
    ) -> (planets: Vec<Planet<C, V, P>>)
        requires
            old(trajectory_colors_values).wf(),
            old(trajectory_colors_values)@.len() + body_count(
                planets_data@,
                planets_data@.len() as int,
            ) <= COLOR_COUNT,
        ensures
            final(trajectory_colors_values).wf(),
            planets@.len() == planets_data@.len(),
            forall|i: int| 0 <= i < planets@.len() ==> planets@[i].wf(),
            forall|i: int|
                0 <= i < planets@.len() ==> planet_matches(
                    #[trigger] planets@[i]@,
                    planets_data@[i],
                    path_to_images@,
                ),
            final(trajectory_colors_values)@ == old(trajectory_colors_values)@ + planet_colors(
                planet_views(planets@),
                planets@.len() as int,
            ),
    {
        let count = planets_data.len();
        let mut planets: Vec<Planet<C, V, P>> = Vec::new();
        let mut i: usize = 0;
        assert(trajectory_colors_values@ =~= old(trajectory_colors_values)@ + planet_colors(
            planet_views(planets@),
            0,
        ));
        while i < count
            invariant
                i <= count,
                count == planets_data@.len(),
                planets@.len() == i,
                trajectory_colors_values.wf(),
                old(trajectory_colors_values)@.len() + body_count(planets_data@, count as int)
                    <= COLOR_COUNT,
                forall|k: int| 0 <= k < i ==> planets@[k].wf(),
                forall|k: int|
                    0 <= k < i ==> planet_matches(
                        #[trigger] planets@[k]@,
                        planets_data@[k],
                        path_to_images@,
                    ),
                trajectory_colors_values@ == old(trajectory_colors_values)@ + planet_colors(
                    planet_views(planets@),
                    i as int,
                ),
                planet_colors(planet_views(planets@), i as int).len() == body_count(
                    planets_data@,
                    i as int,
                ),
            decreases count - i,
        {
            let data = &planets_data[i];
            proof {
                lemma_body_count_grows(planets_data@, i as int + 1, count as int);
            }
            let ghost colors_before = trajectory_colors_values@;
            let color = Self::generate_object_trajectory_color(trajectory_colors_values);
            let satellites = Self::get_satellites_data(
                &data.satellites,
                trajectory_colors_values,
                path_to_images,
            );
            let ghost satellite_views = Seq::new(satellites@.len(), |j: int| satellites@[j]@);
            let planet = Planet::new(
                data.name.clone(),
                data.consts,
                data.start,
                color,
                image_path(path_to_images, data.image_filename.as_str()),
                satellites,
            );
            let ghost before = planets@;
            planets.push(planet);
            i = i + 1;
            proof {
                let views = planet_views(planets@);
                let old_views = planet_views(before);
                assert forall|k: int| 0 <= k < before.len() implies planets@[k] == before[k] by {}
                assert(views[i - 1].satellites =~= satellite_views);
                lemma_planet_colors_of_prefix(old_views, views, i - 1);
                assert(satellite_colors(views[i - 1], views[i - 1].satellites.len() as int)
                    =~= Seq::new(
                    satellite_views.len(),
                    |j: int| satellite_views[j].movement.trajectory.color,
                ));
                assert(trajectory_colors_values@ =~= old(trajectory_colors_values)@
                    + planet_colors(views, i as int));
            }
        }
        planets
    }

    /// The sun, the planets with their satellites and the catalog for the
    /// comets, as the catalog of bodies describes them. Every planet and
    /// satellite gets a trajectory color of its own, and the catalog for
    /// the comets as many more colors as comets may live at a time.
    pub fn get_solar_system_data(
        data: &Data<C, V, P>,
        path_to_images: &str,
        maximum_number_of_comets: u8,
    ) -> (system: (Sun<C, P>, Vec<Planet<C, V, P>>, CometPossibleValues))
        requires
            body_count(data.planets@, data.planets@.len() as int) + maximum_number_of_comets
                <= COLOR_COUNT,
        ensures
            system.0@ == (SunView {
                consts: data.sun.consts,
                position: data.sun.position,
                image: image_path_of(path_to_images@, data.sun.image_filename@),
            }),
            system.1@.len() == data.planets@.len(),
            forall|i: int| 0 <= i < system.1@.len() ==> system.1@[i].wf(),
            forall|i: int|
                0 <= i < system.1@.len() ==> planet_matches(
                    #[trigger] system.1@[i]@,
                    data.planets@[i],
                    path_to_images@,
                ),
            system.2@.colors.len() == maximum_number_of_comets,
            system.2@.images == Seq::new(
                data.comet.images_filenames@.len(),
                |i: int| image_path_of(path_to_images@, data.comet.images_filenames@[i]@),
            ),
            distinct(
                planet_colors(planet_views(system.1@), system.1@.len() as int) + system.2@.colors,
            ),
            forall|i: int|
                0 <= i < system.2@.colors.len() ==> is_trajectory_color(
                    #[trigger] system.2@.colors[i],
                ),
    {
        let sun = Sun::new(
            data.sun.consts,
            data.sun.position,
            image_path(path_to_images, data.sun.image_filename.as_str()),
        );
        let mut trajectory_colors_values = TrajectoryColors::new();
        let planets = Self::get_planets_data(
            &data.planets,
            &mut trajectory_colors_values,
            path_to_images,
        );
        let ghost planets_colors = trajectory_colors_values@;
        assert(planets_colors =~= planet_colors(planet_views(planets@), planets@.len() as int));
        proof {
            lemma_planet_colors_len(planet_views(planets@), planets@.len() as int);
            lemma_same_shape_same_count(planet_views(planets@), data.planets@, planets@.len() as int);
        }
        let mut comets_colors: Vec<ColorData> = Vec::new();
        while comets_colors.len() < maximum_number_of_comets as usize
            invariant
                trajectory_colors_values.wf(),
                comets_colors@.len() <= maximum_number_of_comets,
                planets_colors.len() + maximum_number_of_comets <= COLOR_COUNT,
                trajectory_colors_values@ == planets_colors + comets_colors@,
                forall|i: int|
                    0 <= i < comets_colors@.len() ==> is_trajectory_color(
                        #[trigger] comets_colors@[i],
                    ),
            decreases maximum_number_of_comets - comets_colors@.len(),
        {
            let color = Self::generate_object_trajectory_color(&mut trajectory_colors_values);
            comets_colors.push(color);
            assert(trajectory_colors_values@ =~= planets_colors + comets_colors@);
        }
        proof {
            trajectory_colors_values.lemma_wf();
        }
        let images_count = data.comet.images_filenames.len();
        let mut images: Vec<String> = Vec::new();
        while images.len() < images_count
            invariant
                images_count == data.comet.images_filenames@.len(),
                images@.len() <= images_count,
                forall|i: int|
                    0 <= i < images@.len() ==> images@[i]@ == image_path_of(
                        path_to_images@,
                        data.comet.images_filenames@[i]@,
                    ),
            decreases images_count - images@.len(),
        {
            let filename = &data.comet.images_filenames[images.len()];
            images.push(image_path(path_to_images, filename.as_str()));
        }
        let comet_values = CometPossibleValues::new(images, comets_colors);
        assert(comet_values@.images =~= Seq::new(
            data.comet.images_filenames@.len(),
            |i: int| image_path_of(path_to_images@, data.comet.images_filenames@[i]@),
        ));
        (sun, planets, comet_values)
    }
}

/// The colors of the first planets depend on those planets alone.
proof fn lemma_planet_colors_of_prefix<C, V, P>(
    a: Seq<PlanetView<C, V, P>>,
    b: Seq<PlanetView<C, V, P>>,
    count: int,
)
    requires
        forall|i: int| 0 <= i < count ==> a[i] == b[i],
    ensures
        planet_colors(a, count) == planet_colors(b, count),
    decreases count,
{
    if count > 0 {
        lemma_planet_colors_of_prefix(a, b, count - 1);
    }
}

/// There are as many colors as there are planets and satellites.
proof fn lemma_planet_colors_len<C, V, P>(planets: Seq<PlanetView<C, V, P>>, count: int)
    ensures
        planet_colors(planets, count).len() == planet_color_count(planets, count),
    decreases count,
{
    if count > 0 {
        lemma_planet_colors_len(planets, count - 1);
    }
}

/// The number of planets and satellites among the first `count` planets.
pub open spec fn planet_color_count<C, V, P>(planets: Seq<PlanetView<C, V, P>>, count: int) -> nat
    decreases count,
{
    if count <= 0 {
        0
    } else {
        planet_color_count(planets, count - 1) + 1 + planets[count - 1].satellites.len()
    }
}

proof fn lemma_same_shape_same_count<C, V, P>(
    planets: Seq<PlanetView<C, V, P>>,
    data: Seq<PlanetData<C, V, P>>,
    count: int,
)
    requires
        forall|i: int|
            0 <= i < count ==> (#[trigger] planets[i]).satellites.len()
                == data[i].satellites@.len(),
    ensures
        planet_color_count(planets, count) == body_count(data, count),
    decreases count,
{
    if count > 0 {
        lemma_same_shape_same_count(planets, data, count - 1);
        assert(planets[count - 1].satellites.len() == data[count - 1].satellites@.len());
    }
}

} // verus!
