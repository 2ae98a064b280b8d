use vstd::prelude::*;

verus! {

/// The first place of `name` among `names` from `from` on, or the number of
/// names where it is not among them.
pub open spec fn name_place_from(names: Seq<Seq<char>>, name: Seq<char>, from: int) -> int
    decreases names.len() - from,
{
    if from < 0 || from >= names.len() {
        names.len() as int
    } else if names[from] == name {
        from
    } else {
        name_place_from(names, name, from + 1)
    }
}

/// The place of the planet called `name`, or the number of planets where
/// none is called so.
pub open spec fn name_place(names: Seq<Seq<char>>, name: Seq<char>) -> int {
    name_place_from(names, name, 0)
}

/// The mathematical value of a [`ViewState`].
pub ghost struct PanelsView {
    pub planet_names: Seq<Seq<char>>,
    /// For each planet, whether the list of its satellites is open.
    pub satellites_views_opened: Seq<bool>,
    pub planets_views_opened: bool,
    pub comets_views_opened: bool,
    /// Whether the scale input shows a scale that was taken.
    pub scale_input_correct: bool,
}

impl PanelsView {
    /// Whether the list of the satellites of the planet called `name` is open.
    pub open spec fn is_opened(self, name: Seq<char>) -> bool {
        self.satellites_views_opened[name_place(self.planet_names, name)]
    }

    /// The panels after the list of the satellites of the planet called
    /// `name` has been opened or closed; nothing changes where no planet is
    /// called so.
    pub open spec fn toggled(self, name: Seq<char>) -> PanelsView {
        let place = name_place(self.planet_names, name);
        if place < self.planet_names.len() {
            PanelsView {
                satellites_views_opened: self.satellites_views_opened.update(
                    place,
                    !self.satellites_views_opened[place],
                ),
                ..self
            }
        } else {
            self
        }
    }
}

/// Which panels of the user interface are open, and whether the scale
/// input is marked as wrong.
pub struct ViewState {
    planet_names: Vec<String>,
    satellites_views_opened: Vec<bool>,
    planets_views_opened: bool,
    comets_views_opened: bool,
    scale_input_correct: bool,
}

impl View for ViewState {
    type V = PanelsView;

    closed spec fn view(&self) -> PanelsView {
        PanelsView {
            planet_names: Seq::new(self.planet_names@.len(), |i: int| self.planet_names@[i]@),
            satellites_views_opened: self.satellites_views_opened@,
            planets_views_opened: self.planets_views_opened,
            comets_views_opened: self.comets_views_opened,
            scale_input_correct: self.scale_input_correct,
        }
    }
}

impl ViewState {
    /// There is one flag for each planet.
    pub open spec fn wf(&self) -> bool {
        self@.satellites_views_opened.len() == self@.planet_names.len()
    }

    /// The panels at the start: the lists of planets and of comets open, the
    /// lists of satellites closed.
    pub fn new(planet_names: Vec<String>) -> (view: Self)
        ensures
            view.wf(),
            view@.planet_names == Seq::new(planet_names@.len(), |i: int| planet_names@[i]@),
            forall|i: int| 0 <= i < planet_names@.len() ==> !view@.satellites_views_opened[i],
            view@.planets_views_opened,
            view@.comets_views_opened,
            view@.scale_input_correct,
    {
        let count = planet_names.len();
        let mut opened: Vec<bool> = Vec::new();
        while opened.len() < count
            invariant
                opened@.len() <= count,
                forall|i: int| 0 <= i < opened@.len() ==> !opened@[i],
            decreases count - opened@.len(),
        {
            opened.push(false);
        }
        ViewState {
            planet_names,
            satellites_views_opened: opened,
            planets_views_opened: true,
            comets_views_opened: true,
            scale_input_correct: true,
        }
    }

    /// The place of the planet called `planet_name`, or the number of
    /// planets where none is called so.
    fn place_of(&self, planet_name: &String) -> (place: usize)
        ensures
            place == name_place(self@.planet_names, planet_name@),
            place <= self@.planet_names.len(),
    {
        let count = self.planet_names.len();
        let mut place: usize = 0;
        while place < count
            invariant
                place <= count,
                count == self.planet_names@.len(),
                name_place_from(self@.planet_names, planet_name@, place as int) == name_place(
                    self@.planet_names,
                    planet_name@,
                ),
            decreases count - place,
        {
            if self.planet_names[place] == *planet_name {
                return place;
            }
            place = place + 1;
        }
        place
    }

    /// Whether a planet is called `planet_name`.
    pub fn has_planet(&self, planet_name: String) -> (known: bool)
        ensures
            known == (name_place(self@.planet_names, planet_name@) < self@.planet_names.len()),
    {
        self.place_of(&planet_name) < self.planet_names.len()
    }

    /// Whether the list of the satellites of the planet called `planet_name` is open.
    pub fn is_satellites_opened(&self, planet_name: String) -> (opened: bool)
        requires
            self.wf(),
            name_place(self@.planet_names, planet_name@) < self@.planet_names.len(),
        ensures
            opened == self@.is_opened(planet_name@),
    {
        let place = self.place_of(&planet_name);
        self.satellites_views_opened[place]
    }

    /// Opens or closes the list of the satellites of the planet called `planet_name`.
    pub fn toggle_satellites_view(&mut self, planet_name: String)
        requires
            old(self).wf(),
        ensures
            final(self)@ == old(self)@.toggled(planet_name@),
            final(self).wf(),
    {
        let place = self.place_of(&planet_name);
        if place < self.satellites_views_opened.len() {
            let opened = self.satellites_views_opened[place];
            self.satellites_views_opened.set(place, !opened);
        }
    }

    pub fn planets_views_opened(&self) -> (opened: bool)
        ensures
            opened == self@.planets_views_opened,
    {
        self.planets_views_opened
    }

    pub fn comets_views_opened(&self) -> (opened: bool)
        ensures
            opened == self@.comets_views_opened,
    {
        self.comets_views_opened
    }

    /// Whether the scale input shows a scale that was taken; it is drawn
    /// in white if so and in red if not.
    pub fn is_scale_input_correct(&self) -> (correct: bool)
        ensures
            correct == self@.scale_input_correct,
    {
        self.scale_input_correct
    }

    pub fn toggle_planets_view(&mut self)
        ensures
            final(self)@ == (PanelsView {
                planets_views_opened: !old(self)@.planets_views_opened,
                ..old(self)@
            }),
    {
        self.planets_views_opened = !self.planets_views_opened;
    }

    pub fn toggle_comets_view(&mut self)
        ensures
            final(self)@ == (PanelsView {
                comets_views_opened: !old(self)@.comets_views_opened,
                ..old(self)@
            }),
    {
        self.comets_views_opened = !self.comets_views_opened;
    }

    /// Marks the scale input as wrong.
    pub fn set_incorrect_scale_color(&mut self)
        ensures
            final(self)@ == (PanelsView { scale_input_correct: false, ..old(self)@ }),
    {
        self.scale_input_correct = false;
    }

    /// Marks the scale input as right.
    pub fn set_correct_scale_color(&mut self)
        ensures
            final(self)@ == (PanelsView { scale_input_correct: true, ..old(self)@ }),
    {
        self.scale_input_correct = true;
    }
}

} // verus!
