use vstd::prelude::*;
use crate::objects::OrbitStart;

verus! {

/// The sun as the catalog of bodies describes it.
pub struct SunData<C, P> {
    pub consts: C,
    pub position: P,
    /// The name of the file with the sun's image.
    pub image_filename: String,
}

/// A satellite as the catalog of bodies describes it.
pub struct SatelliteData<C, V, P> {
    pub name: String,
    pub consts: C,
    /// Where the satellite starts, and how fast.
    pub start: OrbitStart<V, P>,
    /// The name of the file with the satellite's image.
    pub image_filename: String,
}

/// A planet as the catalog of bodies describes it.
pub struct PlanetData<C, V, P> {
    pub name: String,
    pub consts: C,
    /// Where the planet starts, and how fast.
    pub start: OrbitStart<V, P>,
    /// The name of the file with the planet's image.
    pub image_filename: String,
    pub satellites: Vec<SatelliteData<C, V, P>>,
}

/// What the catalog of bodies says of the comets' looks.
pub struct CometData {
    /// The names of the files with the comets' images.
    pub images_filenames: Vec<String>,
}

/// The catalog of bodies.
pub struct Data<C, V, P> {
    pub sun: SunData<C, P>,
    pub planets: Vec<PlanetData<C, V, P>>,
    pub comet: CometData,
}

/// The number of planets and satellites that the first `count` planets
/// of a catalog come to.
pub open spec fn body_count<C, V, P>(planets: Seq<PlanetData<C, V, P>>, count: int) -> nat
    decreases count,
{
    if count <= 0 {
        0
    } else {
        body_count(planets, count - 1) + 1 + planets[count - 1].satellites@.len()
    }
}

/// More planets come to more bodies.
pub proof fn lemma_body_count_grows<C, V, P>(
    planets: Seq<PlanetData<C, V, P>>,
    fewer: int,
    more: int,
)
    requires
        0 <= fewer <= more,
    ensures
        body_count(planets, fewer) + (more - fewer) <= body_count(planets, more),
    decreases more - fewer,
{
    if fewer < more {
        lemma_body_count_grows(planets, fewer, more - 1);
    }
}

} // verus!
