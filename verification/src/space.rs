use vstd::prelude::*;
use crate::comets::{CometPossibleValues, CometsState, CometsView};
use crate::movement::{MovementStep, MovementView, ObjectMovement};
use crate::objects::comet::{Comet, CometBody, CometView};
use crate::objects::planet::{Planet, PlanetView};
use crate::objects::sun::{Sun, SunView};
use crate::objects::{ObjectId, ObjectValues, PlanetStart, PlanetStep};

verus! {

/// The identities of the first `count` satellites of the planet at `planet`.
pub open spec fn satellite_ids(planet: int, count: int) -> Seq<ObjectId> {
    Seq::new(count as nat, |j: int| ObjectId::Satellite(planet as usize, j as usize))
}

/// The identities of the first `count` planets, each followed by its satellites.
pub open spec fn planet_ids<C, V, P>(planets: Seq<PlanetView<C, V, P>>, count: int) -> Seq<
    ObjectId,
>
    decreases count,
{
    if count <= 0 {
        Seq::empty()
    } else {
        planet_ids(planets, count - 1).push(ObjectId::Planet((count - 1) as usize))
            + satellite_ids(count - 1, planets[count - 1].satellites.len() as int)
    }
}

/// The identities of the comets.
pub open spec fn comet_ids<C, V, P>(comets: Seq<CometView<C, V, P>>) -> Seq<ObjectId> {
    Seq::new(comets.len(), |c: int| ObjectId::Comet(comets[c].number as u16))
}

/// The values of the first `count` satellites of a planet.
pub open spec fn satellite_values<C, V, P>(planet: PlanetView<C, V, P>, count: int) -> Seq<
    ObjectValues<C, P>,
> {
    Seq::new(
        count as nat,
        |j: int|
            ObjectValues {
                position: planet.satellites[j].movement.position,
                consts: planet.satellites[j].consts,
            },
    )
}

/// The values of the first `count` planets, each followed by its satellites.
pub open spec fn planet_values<C, V, P>(planets: Seq<PlanetView<C, V, P>>, count: int) -> Seq<
    ObjectValues<C, P>,
>
    decreases count,
{
    if count <= 0 {
        Seq::empty()
    } else {
        planet_values(planets, count - 1).push(
            ObjectValues {
                position: planets[count - 1].movement.position,
                consts: planets[count - 1].consts,
            },
        ) + satellite_values(planets[count - 1], planets[count - 1].satellites.len() as int)
    }
}

/// The values of the comets.
pub open spec fn comet_values<C, V, P>(comets: Seq<CometView<C, V, P>>) -> Seq<
    ObjectValues<C, P>,
> {
    Seq::new(
        comets.len(),
        |c: int| ObjectValues { position: comets[c].movement.position, consts: comets[c].consts },
    )
}

/// The first place from `from` on of the comet with the given number, or
/// the number of comets where none has it.
pub open spec fn comet_place_from<C, V, P>(
    comets: Seq<CometView<C, V, P>>,
    number: nat,
    from: int,
) -> int
    decreases comets.len() - from,
{
    if from < 0 || from >= comets.len() {
        comets.len() as int
    } else if comets[from].number == number {
        from
    } else {
        comet_place_from(comets, number, from + 1)
    }
}

/// The place of the comet with the given number, or the number of comets
/// where none has it.
pub open spec fn comet_place<C, V, P>(comets: Seq<CometView<C, V, P>>, number: nat) -> int {
    comet_place_from(comets, number, 0)
}

/// Whether the circle of a comet meets that of another body: `row` says of
/// each of the first `end` bodies of `ids` whether the two circles have a
/// point in common, and `own` is the comet itself, which does not count.
pub open spec fn hit_before(ids: Seq<ObjectId>, row: Seq<bool>, own: ObjectId, end: int) -> bool
    decreases end,
{
    if end <= 0 {
        false
    } else {
        hit_before(ids, row, own, end - 1) || (ids[end - 1] != own && row[end - 1])
    }
}

/// Those of the first `end` items that are not flagged, in their order.
pub open spec fn kept<T>(items: Seq<T>, flags: Seq<bool>, end: int) -> Seq<T>
    decreases end,
{
    if end <= 0 {
        Seq::empty()
    } else if flags[end - 1] {
        kept(items, flags, end - 1)
    } else {
        kept(items, flags, end - 1).push(items[end - 1])
    }
}

/// The mathematical value of a [`SpaceState`].
pub ghost struct SpaceView<C, V, P> {
    pub sun: SunView<C, P>,
    pub planets: Seq<PlanetView<C, V, P>>,
    pub comets: CometsView<C, V, P>,
    /// Every body: the sun, the planets with their satellites, the comets.
    pub all_objects: Seq<ObjectId>,
    /// Every body that moves: all but the sun.
    pub moving_objects: Seq<ObjectId>,
}

impl<C, V, P> SpaceView<C, V, P> {
    /// The planets and satellites, which are there from the start to the end.
    pub open spec fn orbiting(self) -> Seq<ObjectId> {
        planet_ids(self.planets, self.planets.len() as int)
    }

    /// The two lists name exactly the bodies that there are, each once.
    pub open spec fn lists_consistent(self) -> bool {
        &&& self.moving_objects == self.orbiting() + comet_ids(self.comets.comets)
        &&& self.all_objects == seq![ObjectId::Sun] + self.moving_objects
    }

    pub open spec fn valid(self) -> bool {
        self.comets.valid() && self.lists_consistent()
    }

    /// Position and constants of every body, in the order of `all_objects`.
    pub open spec fn values(self) -> Seq<ObjectValues<C, P>> {
        seq![ObjectValues { position: self.sun.position, consts: self.sun.consts }]
            + planet_values(self.planets, self.planets.len() as int) + comet_values(
            self.comets.comets,
        )
    }

    /// Whether a body with the identity `id` is in the system.
    pub open spec fn lives(self, id: ObjectId) -> bool {
        match id {
            ObjectId::Sun => true,
            ObjectId::Planet(i) => i < self.planets.len(),
            ObjectId::Satellite(i, j) => i < self.planets.len() && j
                < self.planets[i as int].satellites.len(),
            ObjectId::Comet(number) => comet_place(self.comets.comets, number as nat)
                < self.comets.comets.len(),
        }
    }

    /// Position and constants of the body with the identity `id`.
    pub open spec fn values_of(self, id: ObjectId) -> ObjectValues<C, P>
        recommends
            self.lives(id),
    {
        match id {
            ObjectId::Sun => ObjectValues {
                position: self.sun.position,
                consts: self.sun.consts,
            },
            ObjectId::Planet(i) => ObjectValues {
                position: self.planets[i as int].movement.position,
                consts: self.planets[i as int].consts,
            },
            ObjectId::Satellite(i, j) => ObjectValues {
                position: self.planets[i as int].satellites[j as int].movement.position,
                consts: self.planets[i as int].satellites[j as int].consts,
            },
            ObjectId::Comet(number) => {
                let comet = self.comets.comets[comet_place(self.comets.comets, number as nat)];
                ObjectValues { position: comet.movement.position, consts: comet.consts }
            },
        }
    }

    /// The movement of the body with the identity `id`, which is not the sun.
    pub open spec fn movement_of(self, id: ObjectId) -> MovementView<V, P>
        recommends
            self.lives(id),
            id != ObjectId::Sun,
    {
        match id {
            ObjectId::Planet(i) => self.planets[i as int].movement,
            ObjectId::Satellite(i, j) => self.planets[i as int].satellites[j as int].movement,
            ObjectId::Comet(number) => self.comets.comets[comet_place(
                self.comets.comets,
                number as nat,
            )].movement,
            ObjectId::Sun => arbitrary(),
        }
    }

    /// No planet has more satellites, and the system no more planets, than
    /// a place can count.
    pub open spec fn countable(self) -> bool {
        &&& self.planets.len() <= usize::MAX
        &&& forall|i: int|
            0 <= i < self.planets.len() ==> (#[trigger] self.planets[i]).satellites.len()
                <= usize::MAX
    }

    /// There is one step for each moving body.
    pub open spec fn steps_fit(
        self,
        planet_steps: Seq<PlanetStep<V, P>>,
        comet_steps: Seq<MovementStep<V, P>>,
    ) -> bool {
        &&& planet_steps.len() == self.planets.len()
        &&& forall|i: int|
            0 <= i < self.planets.len() ==> (#[trigger] planet_steps[i]).satellites@.len()
                == self.planets[i].satellites.len()
        &&& comet_steps.len() == self.comets.comets.len()
    }

    /// The system after one tick: each moving body has made its own step.
    pub open spec fn moved(
        self,
        planet_steps: Seq<PlanetStep<V, P>>,
        comet_steps: Seq<MovementStep<V, P>>,
    ) -> SpaceView<C, V, P> {
        SpaceView {
            planets: Seq::new(
                self.planets.len(),
                |i: int| self.planets[i].stepped(planet_steps[i]),
            ),
            comets: self.comets.stepped(comet_steps),
            ..self
        }
    }

    /// The system after a comet has been added with the chosen color and
    /// image; the new comet stands last in both lists.
    pub open spec fn added_with(
        self,
        color_rank: nat,
        image_rank: nat,
        body: CometBody<C, V, P>,
    ) -> SpaceView<C, V, P> {
        let id = ObjectId::Comet(self.comets.next_number as u16);
        SpaceView {
            comets: self.comets.added_with(color_rank, image_rank, body),
            all_objects: self.all_objects.push(id),
            moving_objects: self.moving_objects.push(id),
            ..self
        }
    }

    /// The system after the comet at `index` has been removed, from the
    /// comets and from both lists; nothing changes where there is no comet
    /// at `index`.
    pub open spec fn deleted(self, index: int) -> SpaceView<C, V, P> {
        if 0 <= index < self.comets.comets.len() {
            SpaceView {
                comets: self.comets.deleted(index),
                all_objects: self.all_objects.remove(
                    self.all_objects.len() - self.comets.comets.len() + index,
                ),
                moving_objects: self.moving_objects.remove(
                    self.moving_objects.len() - self.comets.comets.len() + index,
                ),
                ..self
            }
        } else {
            self
        }
    }

    /// Whether the comet at `comet` has crashed: its circle meets that of
    /// another body. `overlaps[comet]` holds, for each body of
    /// `all_objects`, whether the two circles have a point in common.
    pub open spec fn crashed(self, overlaps: Seq<Vec<bool>>, comet: int) -> bool {
        hit_before(
            self.all_objects,
            overlaps[comet]@,
            ObjectId::Comet(self.comets.comets[comet].number as u16),
            self.all_objects.len() as int,
        )
    }

    /// For each comet, whether it has crashed.
    pub open spec fn crash_flags(self, overlaps: Seq<Vec<bool>>) -> Seq<bool> {
        Seq::new(self.comets.comets.len(), |c: int| self.crashed(overlaps, c))
    }

    /// The system after those of the first `end` comets that are flagged
    /// have been deleted, the one at the highest place first.
    pub open spec fn deleted_where(self, flags: Seq<bool>, end: int) -> SpaceView<C, V, P>
        decreases end,
    {
        if end <= 0 {
            self
        } else if flags[end - 1] {
            self.deleted(end - 1).deleted_where(flags, end - 1)
        } else {
            self.deleted_where(flags, end - 1)
        }
    }

    /// There is one row for each comet, with one entry for each body.
    pub open spec fn overlaps_fit(self, overlaps: Seq<Vec<bool>>) -> bool {
        &&& overlaps.len() == self.comets.comets.len()
        &&& forall|c: int|
            0 <= c < overlaps.len() ==> (#[trigger] overlaps[c])@.len() == self.all_objects.len()
    }

    /// The system after the crashed comets have been removed.
    pub open spec fn swept(self, overlaps: Seq<Vec<bool>>) -> SpaceView<C, V, P> {
        self.deleted_where(self.crash_flags(overlaps), self.comets.comets.len() as int)
    }

    /// There is a start for each planet and each satellite.
    pub open spec fn starts_fit(self, starts: Seq<PlanetStart<V, P>>) -> bool {
        &&& starts.len() == self.planets.len()
        &&& forall|i: int|
            0 <= i < self.planets.len() ==> (#[trigger] starts[i]).satellites@.len()
                == self.planets[i].satellites.len()
    }

    /// The system put back to its start: no comets, and every planet and
    /// satellite on its orbit again.
    pub open spec fn reloaded(self, starts: Seq<PlanetStart<V, P>>) -> SpaceView<C, V, P> {
        SpaceView {
            sun: self.sun,
            planets: Seq::new(self.planets.len(), |i: int| self.planets[i].reloaded(starts[i])),
            comets: CometsView::empty(self.comets.catalog, self.comets.maximum),
            all_objects: seq![ObjectId::Sun] + self.orbiting(),
            moving_objects: self.orbiting(),
        }
    }
}

/// The identities of the planets and satellites depend on nothing but the
/// number of planets and of each planet's satellites.
pub proof fn lemma_planet_ids_by_shape<C, V, P>(
    a: Seq<PlanetView<C, V, P>>,
    b: Seq<PlanetView<C, V, P>>,
    count: int,
)
    requires
        count <= a.len(),
        count <= b.len(),
        forall|i: int| 0 <= i < count ==> (#[trigger] a[i]).satellites.len() == b[i].satellites.len(),
    ensures
        planet_ids(a, count) == planet_ids(b, count),
    decreases count,
{
    if count > 0 {
        lemma_planet_ids_by_shape(a, b, count - 1);
        assert(a[count - 1].satellites.len() == b[count - 1].satellites.len());
    }
}

/// The planets, the satellites, the comets and the sun, and the lists
/// through which the rest of the program reaches them.
pub struct SpaceState<C, V, P> {
    planets: Vec<Planet<C, V, P>>,
    sun: Sun<C, P>,
    all_objects: Vec<ObjectId>,
    moving_objects: Vec<ObjectId>,
    comets: CometsState<C, V, P>,
}

/// The values of the planets of a vector.
pub open spec fn planet_views<C, V, P>(planets: Seq<Planet<C, V, P>>) -> Seq<PlanetView<C, V, P>> {
    Seq::new(planets.len(), |i: int| planets[i]@)
}

impl<C, V, P> View for SpaceState<C, V, P> {
    type V = SpaceView<C, V, P>;

    closed spec fn view(&self) -> SpaceView<C, V, P> {
        SpaceView {
            sun: self.sun@,
            planets: planet_views(self.planets@),
            comets: self.comets@,
            all_objects: self.all_objects@,
            moving_objects: self.moving_objects@,
        }
    }
}

impl<C: Copy, V: Copy, P: Copy> SpaceState<C, V, P> {
    /// Every body is well-formed.
    pub closed spec fn bodies_wf(&self) -> bool {
        &&& self.comets.wf()
        &&& forall|i: int| 0 <= i < self.planets@.len() ==> self.planets@[i].wf()
    }

    pub open spec fn wf(&self) -> bool {
        self@.valid() && self.bodies_wf()
    }

    /// The system with the given sun and planets, and no comet yet.
    pub fn new(
        sun: Sun<C, P>,
        planets: Vec<Planet<C, V, P>>,
        comet_possible_values: CometPossibleValues,
        maximum_number_of_comets: u8,
    ) -> (space: Self)
        requires
            forall|i: int| 0 <= i < planets@.len() ==> planets@[i].wf(),
            comet_possible_values@.fits(maximum_number_of_comets as nat),
        ensures
            space.wf(),
            space@.sun == sun@,
            space@.planets == planet_views(planets@),
            space@.comets == CometsView::<C, V, P>::empty(
                comet_possible_values@,
                maximum_number_of_comets as nat,
            ),
    {
        let all_objects = Self::get_all_objects(&planets);
        let moving_objects = Self::get_moving_objects(&planets);
        let space = SpaceState {
            planets,
            sun,
            all_objects,
            moving_objects,
            comets: CometsState::new(comet_possible_values, maximum_number_of_comets),
        };
        proof {
            assert(comet_ids(space@.comets.comets) =~= Seq::empty());
            assert(space@.moving_objects =~= space@.orbiting() + comet_ids(space@.comets.comets));
        }
        space
    }

    /// Writes the identities of the planets and their satellites at the end of `ids`.
    fn push_planet_ids(ids: &mut Vec<ObjectId>, planets: &Vec<Planet<C, V, P>>)
        ensures
            final(ids)@ == old(ids)@ + planet_ids(planet_views(planets@), planets@.len() as int),
    {
        let count = planets.len();
        let mut i: usize = 0;
        assert(ids@ =~= old(ids)@ + planet_ids(planet_views(planets@), 0));
        while i < count
            invariant
                i <= count,
                count == planets@.len(),
                ids@ == old(ids)@ + planet_ids(planet_views(planets@), i as int),
            decreases count - i,
        {
            let ghost before = ids@;
            ids.push(ObjectId::Planet(i));
            let satellites = planets[i].satellites().len();
            let mut j: usize = 0;
            assert(ids@ =~= before.push(ObjectId::Planet(i)) + satellite_ids(i as int, 0));
            while j < satellites
                invariant
                    j <= satellites,
                    i < count,
                    ids@ == before.push(ObjectId::Planet(i)) + satellite_ids(i as int, j as int),
                decreases satellites - j,
            {
                ids.push(ObjectId::Satellite(i, j));
                j = j + 1;
                assert(ids@ =~= before.push(ObjectId::Planet(i)) + satellite_ids(
                    i as int,
                    j as int,
                ));
            }
            i = i + 1;
            assert(planet_views(planets@)[i - 1].satellites.len() == satellites);
            assert(ids@ =~= old(ids)@ + planet_ids(planet_views(planets@), i as int));
        }
    }

    /// The list of every body of a system without comets.
    pub fn get_all_objects(planets: &Vec<Planet<C, V, P>>) -> (ids: Vec<ObjectId>)
        ensures
            ids@ == seq![ObjectId::Sun] + planet_ids(
                planet_views(planets@),
                planets@.len() as int,
            ),
    {
        let mut ids: Vec<ObjectId> = Vec::new();
        ids.push(ObjectId::Sun);
        assert(ids@ =~= seq![ObjectId::Sun]);
        Self::push_planet_ids(&mut ids, planets);
        ids
    }

    /// The list of every moving body of a system without comets.
    pub fn get_moving_objects(planets: &Vec<Planet<C, V, P>>) -> (ids: Vec<ObjectId>)
        ensures
            ids@ == planet_ids(planet_views(planets@), planets@.len() as int),
    {
        let mut ids: Vec<ObjectId> = Vec::new();
        Self::push_planet_ids(&mut ids, planets);
        assert(ids@ =~= planet_ids(planet_views(planets@), planets@.len() as int));
        ids
    }

    pub fn sun(&self) -> (sun: &Sun<C, P>)
        ensures
            sun@ == self@.sun,
    {
        &self.sun
    }

    /// The planets, in the order in which they were given.
    pub fn planets(&self) -> (planets: &[Planet<C, V, P>])
        ensures
            planets@.len() == self@.planets.len(),
            forall|i: int| 0 <= i < planets@.len() ==> planets@[i]@ == self@.planets[i],
            self.wf() ==> forall|i: int| 0 <= i < planets@.len() ==> planets@[i].wf(),
    {
        self.planets.as_slice()
    }

    /// The comets with their books.
    pub fn comets(&self) -> (comets: &CometsState<C, V, P>)
        ensures
            comets@ == self@.comets,
            self.wf() ==> comets.wf(),
    {
        &self.comets
    }

    pub fn comets_count(&self) -> (count: u8)
        requires
            self.wf(),
        ensures
            count == self@.comets.comets.len(),
    {
        self.comets.count()
    }

    /// The identities of all bodies: the sun, each planet followed by its
    /// satellites, then the comets, the oldest first.
    pub fn all_objects(&self) -> (ids: &[ObjectId])
        ensures
            ids@ == self@.all_objects,
    {
        self.all_objects.as_slice()
    }

    /// The identities of the moving bodies: all but the sun, in the same order.
    pub fn moving_objects(&self) -> (ids: &[ObjectId])
        ensures
            ids@ == self@.moving_objects,
    {
        self.moving_objects.as_slice()
    }

    /// The place of the comet with the given number among the comets.
    pub fn comet_index(&self, number: u16) -> (place: Option<usize>)
        ensures
            place matches Some(index) ==> index == comet_place(self@.comets.comets, number as nat)
                && index < self@.comets.comets.len(),
            place is None ==> comet_place(self@.comets.comets, number as nat)
                == self@.comets.comets.len(),
    {
        let comets = self.comets.as_slice();
        let mut index: usize = 0;
        while index < comets.len()
            invariant
                index <= comets@.len(),
                comets@.len() == self@.comets.comets.len(),
                forall|c: int| 0 <= c < comets@.len() ==> comets@[c]@ == self@.comets.comets[c],
                comet_place_from(self@.comets.comets, number as nat, index as int) == comet_place(
                    self@.comets.comets,
                    number as nat,
                ),
            decreases comets@.len() - index,
        {
            if comets[index].number() == number {
                return Some(index);
            }
            index = index + 1;
        }
        None
    }

    /// Position and constants of the body with the identity `id`, if it is
    /// in the system.
    pub fn object_values_of(&self, id: ObjectId) -> (values: Option<ObjectValues<C, P>>)
        ensures
            values is Some == self@.lives(id),
            values matches Some(found) ==> found == self@.values_of(id),
    {
        match id {
            ObjectId::Sun => Some(self.sun.values()),
            ObjectId::Planet(i) => {
                if i < self.planets.len() {
                    Some(self.planets[i].values())
                } else {
                    None
                }
            },
            ObjectId::Satellite(i, j) => {
                if i < self.planets.len() {
                    let satellites = self.planets[i].satellites();
                    if j < satellites.len() {
                        Some(satellites[j].values())
                    } else {
                        None
                    }
                } else {
                    None
                }
            },
            ObjectId::Comet(number) => {
                match self.comet_index(number) {
                    Some(index) => Some(self.comets.as_slice()[index].values()),
                    None => None,
                }
            },
        }
    }

    /// The movement of the body with the identity `id`, if it is in the
    /// system and moves.
    pub fn movement_of(&self, id: ObjectId) -> (movement: Option<&ObjectMovement<V, P>>)
        requires
            self.wf(),
        ensures
            movement is Some == (self@.lives(id) && id != ObjectId::Sun),
            movement matches Some(found) ==> found@ == self@.movement_of(id) && found.wf(),
    {
        match id {
            ObjectId::Sun => None,
            ObjectId::Planet(i) => {
                if i < self.planets.len() {
                    Some(self.planets[i].movement())
                } else {
                    None
                }
            },
            ObjectId::Satellite(i, j) => {
                if i < self.planets.len() {
                    let satellites = self.planets[i].satellites();
                    if j < satellites.len() {
                        Some(satellites[j].movement())
                    } else {
                        None
                    }
                } else {
                    None
                }
            },
            ObjectId::Comet(number) => {
                match self.comet_index(number) {
                    Some(index) => Some(self.comets.as_slice()[index].movement()),
                    None => None,
                }
            },
        }
    }

    /// Position and constants of every body as they are now, in the order
    /// of [`Self::all_objects`].
    pub fn object_values(&self) -> (values: Vec<ObjectValues<C, P>>)
        ensures
            values@ == self@.values(),
    {
        let mut values: Vec<ObjectValues<C, P>> = Vec::new();
        values.push(self.sun.values());
        let ghost sun_values = values@;
        let count = self.planets.len();
        let mut i: usize = 0;
        assert(values@ =~= sun_values + planet_values(self@.planets, 0));
        while i < count
            invariant
                i <= count,
                count == self.planets@.len(),
                sun_values == seq![
                    ObjectValues { position: self@.sun.position, consts: self@.sun.consts },
                ],
                values@ == sun_values + planet_values(self@.planets, i as int),
            decreases count - i,
        {
            let ghost before = values@;
            let planet = &self.planets[i];
            values.push(planet.values());
            let ghost with_planet = values@;
            let satellites = planet.satellites();
            let mut j: usize = 0;
            assert(values@ =~= with_planet + satellite_values(self@.planets[i as int], 0));
            while j < satellites.len()
                invariant
                    j <= satellites@.len(),
                    i < count,
                    count == self.planets@.len(),
                    satellites@.len() == self@.planets[i as int].satellites.len(),
                    forall|k: int|
                        0 <= k < satellites@.len() ==> satellites@[k]@
                            == self@.planets[i as int].satellites[k],
                    values@ == with_planet + satellite_values(self@.planets[i as int], j as int),
                decreases satellites@.len() - j,
            {
                values.push(satellites[j].values());
                j = j + 1;
                assert(values@ =~= with_planet + satellite_values(
                    self@.planets[i as int],
                    j as int,
                ));
            }
            i = i + 1;
            assert(values@ =~= sun_values + planet_values(self@.planets, i as int));
        }
        let ghost fixed = values@;
        let comets = self.comets.as_slice();
        let mut c: usize = 0;
        while c < comets.len()
            invariant
                c <= comets@.len(),
                comets@.len() == self@.comets.comets.len(),
                forall|k: int| 0 <= k < comets@.len() ==> comets@[k]@ == self@.comets.comets[k],
                values@ == fixed + comet_values(self@.comets.comets).take(c as int),
            decreases comets@.len() - c,
        {
            values.push(comets[c].values());
            c = c + 1;
            assert(values@ =~= fixed + comet_values(self@.comets.comets).take(c as int));
        }
        assert(values@ =~= self@.values());
        values
    }

    /// Moves every moving body by one tick. The steps have all been worked
    /// out before the first body moves, so that no step can depend on where
    /// another body has moved to in the same tick.
    pub fn move_objects(
        &mut self,
        planet_steps: &Vec<PlanetStep<V, P>>,
        comet_steps: &Vec<MovementStep<V, P>>,
    )
        requires
            old(self).wf(),
            old(self)@.steps_fit(planet_steps@, comet_steps@),
        ensures
            final(self)@ == old(self)@.moved(planet_steps@, comet_steps@),
            final(self).wf(),
    {
        let count = self.planets.len();
        let mut i: usize = 0;
        while i < count
            invariant
                i <= count,
                count == old(self).planets@.len(),
                count == self.planets@.len(),
                old(self)@.steps_fit(planet_steps@, comet_steps@),
                self.sun == old(self).sun,
                self.comets == old(self).comets,
                self.all_objects == old(self).all_objects,
                self.moving_objects == old(self).moving_objects,
                forall|k: int| 0 <= k < count ==> self.planets@[k].wf(),
                forall|k: int|
                    0 <= k < i ==> self.planets@[k]@ == old(self).planets@[k]@.stepped(
                        planet_steps@[k],
                    ),
                forall|k: int| i <= k < count ==> self.planets@[k] == old(self).planets@[k],
            decreases count - i,
        {
            assert(old(self)@.planets[i as int] == old(self).planets@[i as int]@);
            self.planets[i].update_positions(&planet_steps[i]);
            i = i + 1;
        }
        self.comets.update_positions(comet_steps);
        proof {
            let before = old(self)@;
            let after = before.moved(planet_steps@, comet_steps@);
            assert(self@.planets =~= after.planets);
            assert(comet_ids(after.comets.comets) =~= comet_ids(before.comets.comets));
            lemma_planet_ids_by_shape(before.planets, after.planets, before.planets.len() as int);
        }
    }

    /// Whether the comet at `comet` has crashed, going by the row of
    /// overlaps that belongs to it.
    fn has_crashed(&self, row: &Vec<bool>, comet: usize) -> (crashed: bool)
        requires
            comet < self@.comets.comets.len(),
            row@.len() == self@.all_objects.len(),
        ensures
            crashed == hit_before(
                self@.all_objects,
                row@,
                ObjectId::Comet(self@.comets.comets[comet as int].number as u16),
                self@.all_objects.len() as int,
            ),
    {
        let own = ObjectId::Comet(self.comets.as_slice()[comet].number());
        let count = self.all_objects.len();
        let mut m: usize = 0;
        while m < count
            invariant
                m <= count,
                count == self.all_objects@.len(),
                count == row@.len(),
                own == ObjectId::Comet(self@.comets.comets[comet as int].number as u16),
                !hit_before(self@.all_objects, row@, own, m as int),
            decreases count - m,
        {
            if row[m] && !Self::same_object(self.all_objects[m], own) {
                proof {
                    lemma_hit_stays(self@.all_objects, row@, own, m as int + 1, count as int);
                }
                return true;
            }
            m = m + 1;
        }
        false
    }

    /// Whether two identities name the same body.
    pub fn same_object(first: ObjectId, second: ObjectId) -> (same: bool)
        ensures
            same == (first == second),
    {
        match (first, second) {
            (ObjectId::Sun, ObjectId::Sun) => true,
            (ObjectId::Planet(a), ObjectId::Planet(b)) => a == b,
            (ObjectId::Satellite(a, b), ObjectId::Satellite(c, d)) => a == c && b == d,
            (ObjectId::Comet(a), ObjectId::Comet(b)) => a == b,
            _ => false,
        }
    }

    /// Removes the comets that have crashed into another body.
    /// `overlaps[c][m]` says whether the circle of the comet at `c` has a
    /// point in common with the circle of the body at `m` of
    /// [`Self::all_objects`]; a comet's overlap with itself does not count.
    /// The crashed comets are deleted from the highest place down, so that
    /// the places of those still to be deleted stay what they were.
    pub fn remove_crashed_comets(&mut self, overlaps: &Vec<Vec<bool>>)
        requires
            old(self).wf(),
            old(self)@.overlaps_fit(overlaps@),
        ensures
            final(self)@ == old(self)@.swept(overlaps@),
            final(self).wf(),
    {
        let count = self.comets.count() as usize;
        let mut crashed: Vec<bool> = Vec::new();
        let mut c: usize = 0;
        while c < count
            invariant
                c <= count,
                count == self@.comets.comets.len(),
                self@.overlaps_fit(overlaps@),
                crashed@ == self@.crash_flags(overlaps@).take(c as int),
            decreases count - c,
        {
            let flag = self.has_crashed(&overlaps[c], c);
            crashed.push(flag);
            c = c + 1;
            assert(crashed@ =~= self@.crash_flags(overlaps@).take(c as int));
        }
        assert(crashed@ =~= self@.crash_flags(overlaps@));
        let mut index: usize = count;
        while index > 0
            invariant
                index <= count,
                count <= 255,
                crashed@.len() == count,
                self.wf(),
                self@.deleted_where(crashed@, index as int) == old(self)@.deleted_where(
                    crashed@,
                    count as int,
                ),
            decreases index,
        {
            index = index - 1;
            if crashed[index] {
                self.delete_comet(index as u8);
            }
        }
    }

    /// Adds a comet that takes the free color slot and the unused image of
    /// the given ranks (see [`CometsState::add_comet_with`]), and enters it
    /// in both lists. Nothing is added where as many comets live as may.
    pub fn add_comet_with(
        &mut self,
        color_rank: usize,
        image_rank: usize,
        body: CometBody<C, V, P>,
    ) -> (number: Option<u16>)
        requires
            old(self).wf(),
            !old(self)@.comets.is_full() ==> old(self)@.comets.next_number < u16::MAX,
            !old(self)@.comets.is_full() ==> color_rank < old(self)@.comets.free_colors(),
            !old(self)@.comets.is_full() ==> image_rank < old(self)@.comets.free_images(),
        ensures
            final(self).wf(),
            old(self)@.comets.is_full() ==> number is None && final(self)@ == old(self)@,
            !old(self)@.comets.is_full() ==> number == Some(old(self)@.comets.next_number as u16)
                && final(self)@ == old(self)@.added_with(color_rank as nat, image_rank as nat, body),
    {
        let number = self.comets.add_comet_with(color_rank, image_rank, body);
        self.enter_comet(number);
        proof {
            if number is Some {
                let before = old(self)@;
                let after = before.added_with(color_rank as nat, image_rank as nat, body);
                assert(comet_ids(after.comets.comets) =~= comet_ids(before.comets.comets).push(
                    ObjectId::Comet(before.comets.next_number as u16),
                ));
                assert(after.moving_objects =~= after.orbiting() + comet_ids(after.comets.comets));
                assert(after.all_objects =~= seq![ObjectId::Sun] + after.moving_objects);
            }
        }
        number
    }

    /// Enters a new comet in both lists.
    fn enter_comet(&mut self, number: Option<u16>)
        ensures
            final(self).planets == old(self).planets,
            final(self).sun == old(self).sun,
            final(self).comets == old(self).comets,
            number is None ==> final(self).all_objects == old(self).all_objects,
            number is None ==> final(self).moving_objects == old(self).moving_objects,
            number matches Some(n) ==> final(self).all_objects@ == old(self).all_objects@.push(
                ObjectId::Comet(n),
            ) && final(self).moving_objects@ == old(self).moving_objects@.push(ObjectId::Comet(n)),
    {
        match number {
            Some(n) => {
                self.all_objects.push(ObjectId::Comet(n));
                self.moving_objects.push(ObjectId::Comet(n));
            },
            None => {},
        }
    }

    /// Adds a comet with a color and an image drawn by chance among those
    /// that no live comet has, and enters it in both lists. Nothing is
    /// added where as many comets live as may.
    pub fn add_new_comet(&mut self, body: CometBody<C, V, P>) -> (number: Option<u16>)
        requires
            old(self).wf(),
            !old(self)@.comets.is_full() ==> old(self)@.comets.next_number < u16::MAX,
        ensures
            final(self).wf(),
            old(self)@.comets.is_full() ==> number is None && final(self)@ == old(self)@,
            !old(self)@.comets.is_full() ==> number == Some(old(self)@.comets.next_number as u16)
                && exists|color_rank: nat, image_rank: nat|
                {
                    &&& color_rank < old(self)@.comets.free_colors()
                    &&& image_rank < old(self)@.comets.free_images()
                    &&& final(self)@ == #[trigger] old(self)@.added_with(
                        color_rank,
                        image_rank,
                        body,
                    )
                },
    {
        let number = self.comets.add_new_comet(body);
        self.enter_comet(number);
        proof {
            if number is Some {
                let before = old(self)@;
                let (color_rank, image_rank) = choose|color_rank: nat, image_rank: nat|
                    {
                        &&& color_rank < before.comets.free_colors()
                        &&& image_rank < before.comets.free_images()
                        &&& self.comets@ == #[trigger] before.comets.added_with(
                            color_rank,
                            image_rank,
                            body,
                        )
                    };
                let after = before.added_with(color_rank, image_rank, body);
                assert(comet_ids(after.comets.comets) =~= comet_ids(before.comets.comets).push(
                    ObjectId::Comet(before.comets.next_number as u16),
                ));
                assert(after.moving_objects =~= after.orbiting() + comet_ids(after.comets.comets));
                assert(after.all_objects =~= seq![ObjectId::Sun] + after.moving_objects);
                assert(self@ == after);
            }
        }
        number
    }

    /// Removes the comet at `index` from the comets and from both lists.
    /// Nothing happens where there is no comet at `index`.
    pub fn delete_comet(&mut self, index: u8)
        requires
            old(self).wf(),
        ensures
            final(self)@ == old(self)@.deleted(index as int),
            final(self).wf(),
    {
        let count = self.comets.count();
        if index >= count {
            return;
        }
        proof {
            assert(self@.moving_objects.len() == self@.orbiting().len() + comet_ids(
                self@.comets.comets,
            ).len());
        }
        let place = self.moving_objects.len() - count as usize + index as usize;
        self.comets.delete_comet(index);
        let _ = self.moving_objects.remove(place);
        let _ = self.all_objects.remove(place + 1);
        proof {
            let before = old(self)@;
            let after = before.deleted(index as int);
            assert(self@.all_objects =~= after.all_objects);
            assert(comet_ids(after.comets.comets) =~= comet_ids(before.comets.comets).remove(
                index as int,
            ));
            assert(after.moving_objects =~= after.orbiting() + comet_ids(after.comets.comets));
            assert(after.all_objects =~= seq![ObjectId::Sun] + after.moving_objects);
        }
    }

    /// Puts the system back to its start: removes every comet, from the
    /// comets and from both lists, and puts every planet and satellite on
    /// its orbit again, with the velocity and position given for it.
    pub fn reload(&mut self, starts: &Vec<PlanetStart<V, P>>)
        requires
            old(self).wf(),
            old(self)@.starts_fit(starts@),
        ensures
            final(self)@ == old(self)@.reloaded(starts@),
            final(self).wf(),
    {
        proof {
            assert(self@.moving_objects.len() == self@.orbiting().len() + comet_ids(
                self@.comets.comets,
            ).len());
        }
        let count = self.comets.count() as usize;
        let orbiting = self.moving_objects.len() - count;
        let all = self.all_objects.len() - count;
        self.comets.reload();
        self.moving_objects.truncate(orbiting);
        self.all_objects.truncate(all);
        assert(self.moving_objects@ =~= old(self)@.orbiting());
        assert(self.all_objects@ =~= seq![ObjectId::Sun] + old(self)@.orbiting());
        let planets = self.planets.len();
        let mut i: usize = 0;
        while i < planets
            invariant
                i <= planets,
                planets == old(self).planets@.len(),
                planets == self.planets@.len(),
                old(self)@.starts_fit(starts@),
                self.sun == old(self).sun,
                self.comets@ == CometsView::<C, V, P>::empty(
                    old(self)@.comets.catalog,
                    old(self)@.comets.maximum,
                ),
                self.comets.wf(),
                self.moving_objects@ == old(self)@.orbiting(),
                self.all_objects@ == seq![ObjectId::Sun] + old(self)@.orbiting(),
                forall|k: int| 0 <= k < i ==> self.planets@[k].wf(),
                forall|k: int|
                    0 <= k < i ==> self.planets@[k]@ == old(self).planets@[k]@.reloaded(starts@[k]),
                forall|k: int| i <= k < planets ==> self.planets@[k] == old(self).planets@[k],
            decreases planets - i,
        {
            assert(old(self)@.planets[i as int] == old(self).planets@[i as int]@);
            self.planets[i].reload(&starts[i]);
            i = i + 1;
        }
        proof {
            let before = old(self)@;
            let after = before.reloaded(starts@);
            assert(self@.planets =~= after.planets);
            lemma_planet_ids_by_shape(before.planets, after.planets, before.planets.len() as int);
            assert(comet_ids(after.comets.comets) =~= Seq::empty());
            assert(after.moving_objects =~= after.orbiting() + comet_ids(after.comets.comets));
        }
    }
}

/// Once a comet has met another body, looking at more bodies does not undo it.
proof fn lemma_hit_stays(ids: Seq<ObjectId>, row: Seq<bool>, own: ObjectId, from: int, end: int)
    requires
        from <= end,
        hit_before(ids, row, own, from),
    ensures
        hit_before(ids, row, own, end),
    decreases end - from,
{
    if from < end {
        lemma_hit_stays(ids, row, own, from, end - 1);
    }
}

/// A comet has crashed exactly where its circle meets that of a body other than itself.
pub proof fn law_crashed_means_overlap(ids: Seq<ObjectId>, row: Seq<bool>, own: ObjectId, end: int)
    ensures
        hit_before(ids, row, own, end) <==> exists|m: int|
            0 <= m < end && #[trigger] ids[m] != own && row[m],
    decreases end,
{
    if end > 0 {
        law_crashed_means_overlap(ids, row, own, end - 1);
        if hit_before(ids, row, own, end) {
            if !hit_before(ids, row, own, end - 1) {
                assert(ids[end - 1] != own && row[end - 1]);
            }
        }
    }
}

/// Which items are kept of the first `end` depends on those items alone.
proof fn lemma_kept_of_prefix<T>(a: Seq<T>, b: Seq<T>, flags: Seq<bool>, end: int)
    requires
        forall|i: int| 0 <= i < end ==> a[i] == b[i],
    ensures
        kept(a, flags, end) == kept(b, flags, end),
    decreases end,
{
    if end > 0 {
        lemma_kept_of_prefix(a, b, flags, end - 1);
    }
}

/// Deleting the flagged comets from the highest place down removes exactly
/// the flagged ones: those that are not flagged stay, in their order, and
/// so do the comets at `end` and beyond, which the deletion does not look at.
pub proof fn law_descending_deletion_removes_the_flagged<C, V, P>(
    space: SpaceView<C, V, P>,
    flags: Seq<bool>,
    end: int,
)
    requires
        0 <= end <= space.comets.comets.len(),
    ensures
        space.deleted_where(flags, end).comets.comets == kept(space.comets.comets, flags, end)
            + space.comets.comets.skip(end),
        space.deleted_where(flags, end).planets == space.planets,
        space.deleted_where(flags, end).sun == space.sun,
    decreases end,
{
    let comets = space.comets.comets;
    if end > 0 {
        if flags[end - 1] {
            let next = space.deleted(end - 1);
            law_descending_deletion_removes_the_flagged(next, flags, end - 1);
            lemma_kept_of_prefix(next.comets.comets, comets, flags, end - 1);
            assert(next.comets.comets.skip(end - 1) =~= comets.skip(end));
        } else {
            law_descending_deletion_removes_the_flagged(space, flags, end - 1);
            assert(kept(comets, flags, end - 1) + comets.skip(end - 1) =~= kept(comets, flags, end)
                + comets.skip(end));
        }
    } else {
        assert(kept(comets, flags, end) + comets.skip(end) =~= comets);
    }
}

/// One sweep removes the crashed comets and no others: the comets after it
/// are those that have not crashed, in the order they had.
pub proof fn law_sweep_removes_the_crashed_only<C, V, P>(
    space: SpaceView<C, V, P>,
    overlaps: Seq<Vec<bool>>,
)
    ensures
        space.swept(overlaps).comets.comets == kept(
            space.comets.comets,
            space.crash_flags(overlaps),
            space.comets.comets.len() as int,
        ),
{
    let count = space.comets.comets.len() as int;
    law_descending_deletion_removes_the_flagged(space, space.crash_flags(overlaps), count);
    assert(space.comets.comets.skip(count) =~= Seq::empty());
}

/// After a tick each body is where its own step puts it: no step has any
/// bearing on another body, and so the order in which the steps were worked
/// out or are applied makes no difference.
pub proof fn law_steps_do_not_interfere<C, V, P>(
    space: SpaceView<C, V, P>,
    planet_steps: Seq<PlanetStep<V, P>>,
    comet_steps: Seq<MovementStep<V, P>>,
)
    ensures
        forall|i: int|
            0 <= i < space.planets.len() ==> (#[trigger] space.moved(
                planet_steps,
                comet_steps,
            ).planets[i]).movement == space.planets[i].movement.stepped(planet_steps[i].planet),
        forall|i: int, j: int|
            0 <= i < space.planets.len() && 0 <= j < space.planets[i].satellites.len() ==> (
            #[trigger] space.moved(planet_steps, comet_steps).planets[i].satellites[j])
                == space.planets[i].satellites[j].stepped(planet_steps[i].satellites@[j]),
        forall|c: int|
            0 <= c < space.comets.comets.len() ==> (#[trigger] space.moved(
                planet_steps,
                comet_steps,
            ).comets.comets[c]) == space.comets.comets[c].stepped(comet_steps[c]),
{
}

/// Two systems are set up alike where they have the same sun, the same
/// catalog and room for comets, and planets and satellites with the same
/// names, constants, images and trajectory colors. Where the bodies are,
/// how they move, which comets there are: none of that counts.
pub open spec fn same_setup<C, V, P>(a: SpaceView<C, V, P>, b: SpaceView<C, V, P>) -> bool {
    &&& a.sun == b.sun
    &&& a.comets.catalog == b.comets.catalog
    &&& a.comets.maximum == b.comets.maximum
    &&& a.planets.len() == b.planets.len()
    &&& forall|i: int|
        0 <= i < a.planets.len() ==> {
            &&& (#[trigger] a.planets[i]).name == b.planets[i].name
            &&& a.planets[i].consts == b.planets[i].consts
            &&& a.planets[i].image == b.planets[i].image
            &&& a.planets[i].movement.trajectory.color == b.planets[i].movement.trajectory.color
            &&& a.planets[i].satellites.len() == b.planets[i].satellites.len()
            &&& forall|j: int|
                0 <= j < a.planets[i].satellites.len() ==> {
                    &&& (#[trigger] a.planets[i].satellites[j]).name
                        == b.planets[i].satellites[j].name
                    &&& a.planets[i].satellites[j].consts == b.planets[i].satellites[j].consts
                    &&& a.planets[i].satellites[j].image == b.planets[i].satellites[j].image
                    &&& a.planets[i].satellites[j].movement.trajectory.color
                        == b.planets[i].satellites[j].movement.trajectory.color
                }
        }
}

/// A reload forgets how far the simulation had got: two systems that are
/// set up alike are the same after a reload with the same starts.
pub proof fn law_reload_forgets_progress<C, V, P>(
    a: SpaceView<C, V, P>,
    b: SpaceView<C, V, P>,
    starts: Seq<PlanetStart<V, P>>,
)
    requires
        same_setup(a, b),
    ensures
        a.reloaded(starts) == b.reloaded(starts),
{
    let ra = a.reloaded(starts);
    let rb = b.reloaded(starts);
    assert forall|i: int| 0 <= i < a.planets.len() implies ra.planets[i] == rb.planets[i] by {
        assert(a.planets[i].name == b.planets[i].name);
        assert forall|j: int| 0 <= j < a.planets[i].satellites.len() implies (
        #[trigger] ra.planets[i].satellites[j]) == rb.planets[i].satellites[j] by {
            assert(a.planets[i].satellites[j].name == b.planets[i].satellites[j].name);
        }
        assert(ra.planets[i].satellites =~= rb.planets[i].satellites);
    }
    assert(ra.planets =~= rb.planets);
    assert forall|i: int| 0 <= i < a.planets.len() implies (#[trigger] a.planets[i]).satellites.len()
        == b.planets[i].satellites.len() by {
        assert(a.planets[i].name == b.planets[i].name);
    }
    lemma_planet_ids_by_shape(a.planets, b.planets, a.planets.len() as int);
}

/// A reload changes nothing of the setup, so that reloading twice is the
/// same as reloading once.
pub proof fn law_reload_is_idempotent<C, V, P>(
    space: SpaceView<C, V, P>,
    starts: Seq<PlanetStart<V, P>>,
)
    ensures
        same_setup(space, space.reloaded(starts)),
        space.reloaded(starts).reloaded(starts) == space.reloaded(starts),
{
    law_reload_forgets_progress(space.reloaded(starts), space, starts);
}

proof fn lemma_comet_place<C, V, P>(comets: Seq<CometView<C, V, P>>, number: nat, from: int)
    requires
        0 <= from <= comets.len(),
    ensures
        from <= comet_place_from(comets, number, from) <= comets.len(),
        comet_place_from(comets, number, from) < comets.len() ==> comets[comet_place_from(
            comets,
            number,
            from,
        )].number == number,
        forall|c: int|
            from <= c < comet_place_from(comets, number, from) ==> (#[trigger] comets[c]).number
                != number,
    decreases comets.len() - from,
{
    if from < comets.len() && comets[from].number != number {
        lemma_comet_place(comets, number, from + 1);
    }
}

/// The identities of the first planets are those of the planets and
/// satellites among them, and of nothing else.
proof fn lemma_planet_ids_meaning<C, V, P>(
    planets: Seq<PlanetView<C, V, P>>,
    count: int,
    id: ObjectId,
)
    requires
        0 <= count <= planets.len() <= usize::MAX,
        forall|i: int|
            0 <= i < planets.len() ==> (#[trigger] planets[i]).satellites.len() <= usize::MAX,
    ensures
        planet_ids(planets, count).contains(id) <==> match id {
            ObjectId::Planet(i) => i < count,
            ObjectId::Satellite(i, j) => i < count && j < planets[i as int].satellites.len(),
            _ => false,
        },
    decreases count,
{
    if count > 0 {
        lemma_planet_ids_meaning(planets, count - 1, id);
        let before = planet_ids(planets, count - 1);
        let planet = ObjectId::Planet((count - 1) as usize);
        let satellites = satellite_ids(count - 1, planets[count - 1].satellites.len() as int);
        let ids = planet_ids(planets, count);
        assert(ids == before.push(planet) + satellites);
        if ids.contains(id) {
            let k = choose|k: int| 0 <= k < ids.len() && ids[k] == id;
            if k < before.len() {
                assert(before[k] == id);
            }
        }
        if before.contains(id) {
            let k = choose|k: int| 0 <= k < before.len() && before[k] == id;
            assert(ids[k] == id);
        }
        match id {
            ObjectId::Planet(i) => {
                if i == count - 1 {
                    assert(ids[before.len() as int] == id);
                }
            },
            ObjectId::Satellite(i, j) => {
                if i == count - 1 && j < planets[i as int].satellites.len() {
                    assert(satellites[j as int] == id);
                    assert(ids[before.len() + 1 + j] == id);
                }
            },
            _ => {},
        }
    }
}

/// The list of all bodies names exactly the bodies that are in the system:
/// no identity in it is left over from a body that is gone, and no body is
/// missing from it. The list of the moving bodies names all of them but the sun.
pub proof fn law_lists_name_the_living<C, V, P>(space: SpaceView<C, V, P>, id: ObjectId)
    requires
        space.valid(),
        space.countable(),
    ensures
        space.all_objects.contains(id) <==> space.lives(id),
        space.moving_objects.contains(id) <==> space.lives(id) && id != ObjectId::Sun,
{
    let orbiting = space.orbiting();
    let comets = space.comets.comets;
    let flying = comet_ids(comets);
    let moving = space.moving_objects;
    let all = space.all_objects;
    lemma_planet_ids_meaning(space.planets, space.planets.len() as int, id);
    if moving.contains(id) {
        let k = choose|k: int| 0 <= k < moving.len() && moving[k] == id;
        assert(all[k + 1] == id);
        if k < orbiting.len() {
            assert(orbiting[k] == id);
        } else {
            let c = k - orbiting.len();
            assert(flying[c] == id);
            lemma_comet_place(comets, comets[c].number, 0);
        }
    }
    if all.contains(id) {
        let k = choose|k: int| 0 <= k < all.len() && all[k] == id;
        if k > 0 {
            assert(moving[k - 1] == id);
        }
    }
    if orbiting.contains(id) {
        let k = choose|k: int| 0 <= k < orbiting.len() && orbiting[k] == id;
        assert(moving[k] == id);
    }
    match id {
        ObjectId::Sun => {
            assert(all[0] == id);
        },
        ObjectId::Comet(number) => {
            lemma_comet_place(comets, number as nat, 0);
            let c = comet_place(comets, number as nat);
            if c < comets.len() {
                assert(flying[c] == id);
                assert(moving[orbiting.len() + c] == id);
            }
        },
        _ => {},
    }
    if moving.contains(id) {
        let k = choose|k: int| 0 <= k < moving.len() && moving[k] == id;
        assert(all[k + 1] == id);
    }
}


} // verus!
