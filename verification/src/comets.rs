use vstd::prelude::*;
use crate::color::ColorData;
use crate::movement::MovementStep;
use crate::objects::comet::{Comet, CometBody, CometView};
use crate::random::random_below;
use crate::slots::{
    all_free, count_free, find_nth_free, free_before, free_count, lemma_all_free,
    lemma_free_from_bound, lemma_free_from_update, lemma_free_slot_has_rank,
    lemma_nth_free_is_free, nth_free,
};

verus! {

/// The first place of `color` among `colors` from `from` on, or the number
/// of colors where it is not among them.
pub open spec fn color_index_from(colors: Seq<ColorData>, color: ColorData, from: int) -> int
    decreases colors.len() - from,
{
    if from < 0 || from >= colors.len() {
        colors.len() as int
    } else if colors[from] == color {
        from
    } else {
        color_index_from(colors, color, from + 1)
    }
}

/// The slot of `color`: its first place among `colors`, or the number of
/// colors where it is not among them.
pub open spec fn color_index(colors: Seq<ColorData>, color: ColorData) -> int {
    color_index_from(colors, color, 0)
}

/// No color occurs twice.
pub open spec fn distinct_colors(colors: Seq<ColorData>) -> bool {
    forall|i: int, j: int| 0 <= i < j < colors.len() ==> colors[i] != colors[j]
}

/// The color slots that the comets hold: a slot is taken where a comet has its color.
pub open spec fn color_flags<C, V, P>(
    colors: Seq<ColorData>,
    comets: Seq<CometView<C, V, P>>,
) -> Seq<bool>
    decreases comets.len(),
{
    if comets.len() == 0 {
        all_free(colors.len())
    } else {
        let rest = color_flags(colors, comets.drop_last());
        let slot = color_index(colors, comets.last().color());
        if 0 <= slot < rest.len() {
            rest.update(slot, true)
        } else {
            rest
        }
    }
}

/// The images that the comets use, out of `count` images.
pub open spec fn image_flags<C, V, P>(count: nat, comets: Seq<CometView<C, V, P>>) -> Seq<bool>
    decreases comets.len(),
{
    if comets.len() == 0 {
        all_free(count)
    } else {
        let rest = image_flags(count, comets.drop_last());
        let image = comets.last().image_index as int;
        if image < rest.len() {
            rest.update(image, true)
        } else {
            rest
        }
    }
}

pub proof fn lemma_color_index_from(colors: Seq<ColorData>, color: ColorData, from: int)
    requires
        0 <= from <= colors.len(),
    ensures
        from <= color_index_from(colors, color, from) <= colors.len(),
        color_index_from(colors, color, from) < colors.len() ==> colors[color_index_from(
            colors,
            color,
            from,
        )] == color,
        forall|i: int|
            from <= i < color_index_from(colors, color, from) ==> colors[i] != color,
    decreases colors.len() - from,
{
    if from < colors.len() && colors[from] != color {
        lemma_color_index_from(colors, color, from + 1);
    }
}

/// Among distinct colors, the slot of the color at a place is that place.
pub proof fn lemma_color_index_of_member(colors: Seq<ColorData>, place: int)
    requires
        0 <= place < colors.len(),
        distinct_colors(colors),
    ensures
        color_index(colors, colors[place]) == place,
{
    lemma_color_index_from(colors, colors[place], 0);
}

proof fn lemma_color_flags_len<C, V, P>(colors: Seq<ColorData>, comets: Seq<CometView<C, V, P>>)
    ensures
        color_flags(colors, comets).len() == colors.len(),
    decreases comets.len(),
{
    if comets.len() > 0 {
        lemma_color_flags_len(colors, comets.drop_last());
    }
}

/// A slot is taken exactly where one of the comets has its color.
proof fn lemma_color_flags_meaning<C, V, P>(
    colors: Seq<ColorData>,
    comets: Seq<CometView<C, V, P>>,
    slot: int,
)
    requires
        0 <= slot < colors.len(),
    ensures
        color_flags(colors, comets).len() == colors.len(),
        color_flags(colors, comets)[slot] <==> exists|c: int|
            0 <= c < comets.len() && color_index(colors, #[trigger] comets[c].color()) == slot,
    decreases comets.len(),
{
    lemma_color_flags_len(colors, comets);
    if comets.len() > 0 {
        let rest = comets.drop_last();
        lemma_color_flags_meaning(colors, rest, slot);
        lemma_color_flags_len(colors, rest);
        if color_flags(colors, comets)[slot] {
            if color_index(colors, comets.last().color()) == slot {
                assert(comets[comets.len() - 1].color() == comets.last().color());
            } else {
                let c = choose|c: int|
                    0 <= c < rest.len() && color_index(colors, #[trigger] rest[c].color()) == slot;
                assert(comets[c] == rest[c]);
            }
        }
        if exists|c: int|
            0 <= c < comets.len() && color_index(colors, #[trigger] comets[c].color()) == slot {
            let c = choose|c: int|
                0 <= c < comets.len() && color_index(colors, #[trigger] comets[c].color()) == slot;
            if c < comets.len() - 1 {
                assert(rest[c] == comets[c]);
            }
        }
    }
}

proof fn lemma_image_flags_len<C, V, P>(count: nat, comets: Seq<CometView<C, V, P>>)
    ensures
        image_flags(count, comets).len() == count,
    decreases comets.len(),
{
    if comets.len() > 0 {
        lemma_image_flags_len(count, comets.drop_last());
    }
}

/// An image is in use exactly where one of the comets is drawn with it.
proof fn lemma_image_flags_meaning<C, V, P>(
    count: nat,
    comets: Seq<CometView<C, V, P>>,
    image: int,
)
    requires
        0 <= image < count,
    ensures
        image_flags(count, comets).len() == count,
        image_flags(count, comets)[image] <==> exists|c: int|
            0 <= c < comets.len() && (#[trigger] comets[c]).image_index == image,
    decreases comets.len(),
{
    lemma_image_flags_len(count, comets);
    if comets.len() > 0 {
        let rest = comets.drop_last();
        lemma_image_flags_meaning(count, rest, image);
        lemma_image_flags_len(count, rest);
        if image_flags(count, comets)[image] {
            if comets.last().image_index == image {
                assert(comets[comets.len() - 1].image_index == image);
            } else {
                let c = choose|c: int|
                    0 <= c < rest.len() && (#[trigger] rest[c]).image_index == image;
                assert(comets[c] == rest[c]);
            }
        }
        if exists|c: int| 0 <= c < comets.len() && (#[trigger] comets[c]).image_index == image {
            let c = choose|c: int|
                0 <= c < comets.len() && (#[trigger] comets[c]).image_index == image;
            if c < comets.len() - 1 {
                assert(rest[c] == comets[c]);
            }
        }
    }
}

/// Each comet uses one image at most, so at least as many images are free
/// as there are more images than comets.
proof fn lemma_image_flags_free<C, V, P>(count: nat, comets: Seq<CometView<C, V, P>>)
    ensures
        free_count(image_flags(count, comets)) + comets.len() >= count,
    decreases comets.len(),
{
    if comets.len() == 0 {
        lemma_all_free(count, 0);
    } else {
        let rest = image_flags(count, comets.drop_last());
        lemma_image_flags_free(count, comets.drop_last());
        lemma_image_flags_len(count, comets.drop_last());
        let image = comets.last().image_index as int;
        if image < rest.len() {
            lemma_free_from_update(rest, image, true, 0);
        }
    }
}

/// The images and the trajectory colors that new comets choose from.
pub struct CometPossibleValues {
    images: Vec<String>,
    colors: Vec<ColorData>,
}

/// The mathematical value of [`CometPossibleValues`].
pub ghost struct CatalogView {
    /// The paths of the images.
    pub images: Seq<Seq<char>>,
    pub colors: Seq<ColorData>,
}

impl CatalogView {
    /// Whether the catalog can serve `maximum` comets at a time: each of them
    /// can have an image and a trajectory color of its own, and the places
    /// of the images and colors fit into a byte.
    pub open spec fn fits(self, maximum: nat) -> bool {
        &&& maximum <= self.colors.len() <= 256
        &&& maximum <= self.images.len() <= 256
        &&& distinct_colors(self.colors)
    }
}

impl View for CometPossibleValues {
    type V = CatalogView;

    closed spec fn view(&self) -> CatalogView {
        CatalogView {
            images: Seq::new(self.images@.len(), |i: int| self.images@[i]@),
            colors: self.colors@,
        }
    }
}

impl CometPossibleValues {
    /// The catalog with the images at the given paths and the given colors.
    pub fn new(images: Vec<String>, colors: Vec<ColorData>) -> (values: Self)
        ensures
            values@.colors == colors@,
            values@.images == Seq::new(images@.len(), |i: int| images@[i]@),
    {
        CometPossibleValues { images, colors }
    }

    /// The path of the image at `index`.
    pub fn get_image_by_index(&self, index: u8) -> (image: &str)
        requires
            index < self@.images.len(),
        ensures
            image@ == self@.images[index as int],
    {
        self.images[index as usize].as_str()
    }

    /// The color in the slot `index`.
    pub fn get_color_by_index(&self, index: u8) -> (color: ColorData)
        requires
            index < self@.colors.len(),
        ensures
            color == self@.colors[index as int],
    {
        self.colors[index as usize]
    }

    pub fn images(&self) -> (images: &[String])
        ensures
            images@.len() == self@.images.len(),
            forall|i: int| 0 <= i < images@.len() ==> images@[i]@ == self@.images[i],
    {
        self.images.as_slice()
    }

    pub fn colors(&self) -> (colors: &[ColorData])
        ensures
            colors@ == self@.colors,
    {
        self.colors.as_slice()
    }

    /// The slot of `color`, or the number of colors where the catalog has no such color.
    pub fn color_slot(&self, color: ColorData) -> (slot: usize)
        ensures
            slot == color_index(self@.colors, color),
            slot <= self@.colors.len(),
    {
        let count = self.colors.len();
        let mut slot: usize = 0;
        proof {
            lemma_color_index_from(self.colors@, color, 0);
        }
        while slot < count
            invariant
                count == self.colors@.len(),
                slot <= count,
                color_index_from(self.colors@, color, slot as int) == color_index(
                    self.colors@,
                    color,
                ),
            decreases count - slot,
        {
            if self.colors[slot].same_channels(&color) {
                return slot;
            }
            slot = slot + 1;
        }
        slot
    }

    /// Whether the catalog can serve `maximum` comets at a time.
    pub fn fits(&self, maximum: u8) -> (fits: bool)
        ensures
            fits == self@.fits(maximum as nat),
    {
        let colors = self.colors.len();
        let images = self.images.len();
        if colors > 256 || images > 256 || colors < maximum as usize || images < maximum as usize {
            return false;
        }
        let mut j: usize = 0;
        while j < colors
            invariant
                colors == self.colors@.len(),
                j <= colors,
                forall|a: int, b: int| 0 <= a < b < j ==> self.colors@[a] != self.colors@[b],
            decreases colors - j,
        {
            let mut i: usize = 0;
            while i < j
                invariant
                    colors == self.colors@.len(),
                    i <= j < colors,
                    forall|a: int, b: int| 0 <= a < b < j ==> self.colors@[a] != self.colors@[b],
                    forall|a: int| 0 <= a < i ==> self.colors@[a] != self.colors@[j as int],
                decreases j - i,
            {
                if self.colors[i].same_channels(&self.colors[j]) {
                    return false;
                }
                i = i + 1;
            }
            j = j + 1;
        }
        true
    }
}

/// The mathematical value of a [`CometsState`].
pub ghost struct CometsView<C, V, P> {
    pub catalog: CatalogView,
    /// The most comets that may live at a time.
    pub maximum: nat,
    /// The live comets, the oldest first.
    pub comets: Seq<CometView<C, V, P>>,
    /// For each color slot of the catalog, whether a live comet holds it.
    pub taken_colors: Seq<bool>,
    /// The number that the next comet gets.
    pub next_number: nat,
}

impl<C, V, P> CometsView<C, V, P> {
    /// No comet, no color taken, the numbers starting at 1.
    pub open spec fn empty(catalog: CatalogView, maximum: nat) -> CometsView<C, V, P> {
        CometsView {
            catalog,
            maximum,
            comets: Seq::empty(),
            taken_colors: all_free(catalog.colors.len()),
            next_number: 1,
        }
    }

    pub open spec fn is_full(self) -> bool {
        self.comets.len() >= self.maximum
    }

    /// For each image of the catalog, whether a live comet is drawn with it.
    pub open spec fn used_images(self) -> Seq<bool> {
        image_flags(self.catalog.images.len(), self.comets)
    }

    /// The number of color slots that no live comet holds.
    pub open spec fn free_colors(self) -> nat {
        free_count(self.taken_colors)
    }

    /// The number of images that no live comet is drawn with.
    pub open spec fn free_images(self) -> nat {
        free_count(self.used_images())
    }

    /// The comet that is created when the free color slot of rank
    /// `color_rank` and the unused image of rank `image_rank` are chosen.
    pub open spec fn new_comet(
        self,
        color_rank: nat,
        image_rank: nat,
        body: CometBody<C, V, P>,
    ) -> CometView<C, V, P> {
        CometView::start(
            self.next_number,
            body,
            self.catalog.colors[nth_free(self.taken_colors, color_rank)],
            nth_free(self.used_images(), image_rank) as nat,
        )
    }

    /// The comets after one has been added with the chosen color and image.
    pub open spec fn added_with(
        self,
        color_rank: nat,
        image_rank: nat,
        body: CometBody<C, V, P>,
    ) -> CometsView<C, V, P> {
        CometsView {
            comets: self.comets.push(self.new_comet(color_rank, image_rank, body)),
            taken_colors: self.taken_colors.update(nth_free(self.taken_colors, color_rank), true),
            next_number: self.next_number + 1,
            ..self
        }
    }

    /// The comets after the one at `index` has been removed and its color
    /// slot released; nothing changes where there is no comet at `index`.
    pub open spec fn deleted(self, index: int) -> CometsView<C, V, P> {
        if 0 <= index < self.comets.len() {
            CometsView {
                comets: self.comets.remove(index),
                taken_colors: self.taken_colors.update(
                    color_index(self.catalog.colors, self.comets[index].color()),
                    false,
                ),
                ..self
            }
        } else {
            self
        }
    }

    /// The comets after one tick, each moved by its own step.
    pub open spec fn stepped(self, steps: Seq<MovementStep<V, P>>) -> CometsView<C, V, P>
        recommends
            steps.len() == self.comets.len(),
    {
        CometsView {
            comets: Seq::new(self.comets.len(), |c: int| self.comets[c].stepped(steps[c])),
            ..self
        }
    }

    /// The state that every well-formed collection of comets is in.
    pub open spec fn valid(self) -> bool {
        &&& self.maximum <= 255
        &&& self.catalog.fits(self.maximum)
        &&& self.comets.len() <= self.maximum
        &&& 1 <= self.next_number <= u16::MAX
        &&& self.taken_colors == color_flags(self.catalog.colors, self.comets)
        &&& free_count(self.taken_colors) + self.comets.len() == self.catalog.colors.len()
        &&& forall|c: int|
            0 <= c < self.comets.len() ==> {
                &&& 1 <= (#[trigger] self.comets[c]).number < self.next_number
                &&& self.comets[c].image_index < self.catalog.images.len()
                &&& color_index(self.catalog.colors, self.comets[c].color())
                    < self.catalog.colors.len()
            }
        &&& forall|a: int, b: int|
            0 <= a < b < self.comets.len() ==> {
                &&& (#[trigger] self.comets[a]).number < (#[trigger] self.comets[b]).number
                &&& self.comets[a].image_index != self.comets[b].image_index
                &&& self.comets[a].color() != self.comets[b].color()
            }
    }
}

/// The live comets, with the books on which colors and numbers are in use.
pub struct CometsState<C, V, P> {
    possible_values: CometPossibleValues,
    comets: Vec<Comet<C, V, P>>,
    maximum: u8,
    taken_colors: Vec<bool>,
    new_comet_number: u16,
}

impl<C, V, P> View for CometsState<C, V, P> {
    type V = CometsView<C, V, P>;

    closed spec fn view(&self) -> CometsView<C, V, P> {
        CometsView {
            catalog: self.possible_values@,
            maximum: self.maximum as nat,
            comets: Seq::new(self.comets@.len(), |c: int| self.comets@[c]@),
            taken_colors: self.taken_colors@,
            next_number: self.new_comet_number as nat,
        }
    }
}

impl<C: Copy, V: Copy, P: Copy> CometsState<C, V, P> {
    /// Every comet is well-formed.
    pub closed spec fn comets_wf(&self) -> bool {
        forall|c: int| 0 <= c < self.comets@.len() ==> self.comets@[c].wf()
    }

    pub open spec fn wf(&self) -> bool {
        self@.valid() && self.comets_wf()
    }

    /// No comets yet. The catalog has to hold an image and a color for each
    /// of the `maximum_number_of_comets` that may live at a time.
    pub fn new(possible_values: CometPossibleValues, maximum_number_of_comets: u8) -> (state: Self)
        requires
            possible_values@.fits(maximum_number_of_comets as nat),
        ensures
            state@ == CometsView::<C, V, P>::empty(
                possible_values@,
                maximum_number_of_comets as nat,
            ),
            state.wf(),
    {
        let slots = possible_values.colors.len();
        let mut taken_colors: Vec<bool> = Vec::new();
        while taken_colors.len() < slots
            invariant
                taken_colors@.len() <= slots,
                forall|i: int| 0 <= i < taken_colors@.len() ==> !taken_colors@[i],
            decreases slots - taken_colors@.len(),
        {
            taken_colors.push(false);
        }
        let state = CometsState {
            possible_values,
            comets: Vec::new(),
            maximum: maximum_number_of_comets,
            taken_colors,
            new_comet_number: 1,
        };
        proof {
            assert(state.taken_colors@ =~= all_free(state.possible_values@.colors.len()));
            assert(state@.comets =~= Seq::empty());
            lemma_all_free(state.possible_values@.colors.len(), 0);
        }
        state
    }

    pub fn possible_values(&self) -> (values: &CometPossibleValues)
        ensures
            values@ == self@.catalog,
    {
        &self.possible_values
    }

    /// The number of live comets.
    pub fn count(&self) -> (count: u8)
        requires
            self.wf(),
        ensures
            count == self@.comets.len(),
    {
        self.comets.len() as u8
    }

    /// The most comets that may live at a time.
    pub fn maximum(&self) -> (maximum: u8)
        ensures
            maximum == self@.maximum,
    {
        self.maximum
    }

    /// The live comets, the oldest first.
    pub fn as_slice(&self) -> (comets: &[Comet<C, V, P>])
        ensures
            comets@.len() == self@.comets.len(),
            forall|c: int| 0 <= c < comets@.len() ==> comets@[c]@ == self@.comets[c],
            self.wf() ==> forall|c: int| 0 <= c < comets@.len() ==> comets@[c].wf(),
    {
        self.comets.as_slice()
    }

    /// Whether a live comet holds the color slot `slot`.
    pub fn is_color_taken(&self, slot: u8) -> (taken: bool)
        requires
            slot < self@.taken_colors.len(),
        ensures
            taken == self@.taken_colors[slot as int],
    {
        self.taken_colors[slot as usize]
    }

    /// Whether a comet can be added: there is room for one, and a number left for it.
    pub fn can_add(&self) -> (possible: bool)
        ensures
            possible == (!self@.is_full() && self@.next_number < u16::MAX),
    {
        self.comets.len() < self.maximum as usize && self.new_comet_number < u16::MAX
    }

    /// For each image of the catalog, whether a live comet is drawn with it.
    pub fn used_images(&self) -> (used: Vec<bool>)
        requires
            self.wf(),
        ensures
            used@ == self@.used_images(),
    {
        let count = self.possible_values.images.len();
        let mut used: Vec<bool> = Vec::new();
        while used.len() < count
            invariant
                used@.len() <= count,
                forall|i: int| 0 <= i < used@.len() ==> !used@[i],
            decreases count - used@.len(),
        {
            used.push(false);
        }
        assert(used@ =~= all_free(count as nat));
        let comets = self.comets.len();
        let mut c: usize = 0;
        assert(self@.comets.take(0) =~= Seq::empty());
        while c < comets
            invariant
                self.wf(),
                count == self@.catalog.images.len(),
                comets == self.comets@.len(),
                c <= comets,
                used@ == image_flags(count as nat, self@.comets.take(c as int)),
            decreases comets - c,
        {
            let image = self.comets[c].image_index() as usize;
            proof {
                let next = self@.comets.take(c + 1);
                assert(next.drop_last() =~= self@.comets.take(c as int));
                assert(next.last() == self@.comets[c as int]);
                lemma_image_flags_len(count as nat, self@.comets.take(c as int));
            }
            used.set(image, true);
            c = c + 1;
        }
        assert(self@.comets.take(comets as int) =~= self@.comets);
        used
    }

    /// Adds a comet that takes the free color slot with `color_rank` free
    /// slots before it and the unused image with `image_rank` unused images
    /// before it. Nothing is added where as many comets live as may.
    pub fn add_comet_with(
        &mut self,
        color_rank: usize,
        image_rank: usize,
        body: CometBody<C, V, P>,
    ) -> (number: Option<u16>)
        requires
            old(self).wf(),
            !old(self)@.is_full() ==> old(self)@.next_number < u16::MAX,
            !old(self)@.is_full() ==> color_rank < old(self)@.free_colors(),
            !old(self)@.is_full() ==> image_rank < old(self)@.free_images(),
        ensures
            final(self).wf(),
            old(self)@.is_full() ==> number is None && final(self)@ == old(self)@,
            !old(self)@.is_full() ==> number == Some(old(self)@.next_number as u16) && final(self)@
                == old(self)@.added_with(color_rank as nat, image_rank as nat, body),
    {
        if self.comets.len() >= self.maximum as usize {
            return None;
        }
        proof {
            lemma_color_flags_len(self@.catalog.colors, self@.comets);
        }
        let slot = find_nth_free(&self.taken_colors, color_rank);
        let used = self.used_images();
        let image = find_nth_free(&used, image_rank);
        let number = self.new_comet_number;
        proof {
            lemma_image_flags_len(old(self)@.catalog.images.len(), old(self)@.comets);
        }
        let color = self.possible_values.colors[slot];
        let comet = Comet::new(number, body, color, image as u8);
        self.comets.push(comet);
        self.taken_colors.set(slot, true);
        self.new_comet_number = number + 1;
        proof {
            let before = old(self)@;
            let after = before.added_with(color_rank as nat, image_rank as nat, body);
            let colors = before.catalog.colors;
            assert(self@.comets =~= after.comets);
            assert(self@ == after);
            lemma_color_index_of_member(colors, slot as int);
            assert(after.comets.drop_last() =~= before.comets);
            lemma_color_flags_len(colors, before.comets);
            lemma_free_from_update(before.taken_colors, slot as int, true, 0);
            lemma_color_flags_meaning(colors, before.comets, slot as int);
            lemma_image_flags_meaning(before.catalog.images.len(), before.comets, image as int);
            assert forall|a: int, b: int| 0 <= a < b < after.comets.len() implies {
                &&& (#[trigger] after.comets[a]).number < (#[trigger] after.comets[b]).number
                &&& after.comets[a].image_index != after.comets[b].image_index
                &&& after.comets[a].color() != after.comets[b].color()
            } by {
                if b == before.comets.len() {
                    assert(after.comets[a] == before.comets[a]);
                    if after.comets[a].color() == after.comets[b].color() {
                        assert(color_index(colors, before.comets[a].color()) == slot);
                    }
                } else {
                    assert(after.comets[a] == before.comets[a]);
                    assert(after.comets[b] == before.comets[b]);
                }
            }
            assert forall|c: int| 0 <= c < after.comets.len() implies {
                &&& 1 <= (#[trigger] after.comets[c]).number < after.next_number
                &&& after.comets[c].image_index < after.catalog.images.len()
                &&& color_index(after.catalog.colors, after.comets[c].color())
                    < after.catalog.colors.len()
            } by {
                if c < before.comets.len() {
                    assert(after.comets[c] == before.comets[c]);
                }
            }
        }
        Some(number)
    }

    /// Adds a comet with a color slot and an image drawn by chance among
    /// those that no live comet has. Nothing is added where as many comets
    /// live as may.
    pub fn add_new_comet(&mut self, body: CometBody<C, V, P>) -> (number: Option<u16>)
        requires
            old(self).wf(),
            !old(self)@.is_full() ==> old(self)@.next_number < u16::MAX,
        ensures
            final(self).wf(),
            old(self)@.is_full() ==> number is None && final(self)@ == old(self)@,
            !old(self)@.is_full() ==> number == Some(old(self)@.next_number as u16) && exists|
                color_rank: nat,
                image_rank: nat,
            |
                {
                    &&& color_rank < old(self)@.free_colors()
                    &&& image_rank < old(self)@.free_images()
                    &&& final(self)@ == #[trigger] old(self)@.added_with(
                        color_rank,
                        image_rank,
                        body,
                    )
                },
    {
        if self.comets.len() >= self.maximum as usize {
            return None;
        }
        let free_colors = count_free(&self.taken_colors);
        let used = self.used_images();
        let free_images = count_free(&used);
        proof {
            lemma_image_flags_free(self@.catalog.images.len(), self@.comets);
            lemma_image_flags_len(self@.catalog.images.len(), self@.comets);
            lemma_free_from_bound(self@.taken_colors, 0);
            lemma_free_from_bound(used@, 0);
        }
        let color_rank = random_below(free_colors as u32) as usize;
        let image_rank = random_below(free_images as u32) as usize;
        self.add_comet_with(color_rank, image_rank, body)
    }

    /// Removes the comet at `index` and releases its color slot, which is
    /// found by looking the comet's trajectory color up in the catalog.
    /// Nothing happens where there is no comet at `index`.
    pub fn delete_comet(&mut self, index: u8)
        requires
            old(self).wf(),
        ensures
            final(self)@ == old(self)@.deleted(index as int),
            final(self).wf(),
    {
        let index = index as usize;
        if index >= self.comets.len() {
            return;
        }
        let color = self.comets[index].trajectory_color();
        let slot = self.possible_values.color_slot(color);
        proof {
            lemma_color_flags_len(self@.catalog.colors, self@.comets);
            assert(color == self@.comets[index as int].color());
        }
        let _ = self.comets.remove(index);
        self.taken_colors.set(slot, false);
        proof {
            let before = old(self)@;
            let after = before.deleted(index as int);
            let colors = before.catalog.colors;
            assert(self@.comets =~= after.comets);
            assert(self@ == after);
            lemma_color_flags_remove(colors, before.comets, index as int);
            lemma_color_flags_meaning(colors, before.comets, slot as int);
            lemma_free_from_update(before.taken_colors, slot as int, false, 0);
            assert forall|a: int, b: int| 0 <= a < b < after.comets.len() implies {
                &&& (#[trigger] after.comets[a]).number < (#[trigger] after.comets[b]).number
                &&& after.comets[a].image_index != after.comets[b].image_index
                &&& after.comets[a].color() != after.comets[b].color()
            } by {
                let a0 = if a < index { a } else { a + 1 };
                let b0 = if b < index { b } else { b + 1 };
                assert(after.comets[a] == before.comets[a0]);
                assert(after.comets[b] == before.comets[b0]);
            }
            assert forall|c: int| 0 <= c < after.comets.len() implies {
                &&& 1 <= (#[trigger] after.comets[c]).number < after.next_number
                &&& after.comets[c].image_index < after.catalog.images.len()
                &&& color_index(after.catalog.colors, after.comets[c].color())
                    < after.catalog.colors.len()
            } by {
                let c0 = if c < index { c } else { c + 1 };
                assert(after.comets[c] == before.comets[c0]);
            }
            assert forall|c: int| 0 <= c < self.comets@.len() implies self.comets@[c].wf() by {
                let c0 = if c < index { c } else { c + 1 };
                assert(self.comets@[c] == old(self).comets@[c0]);
            }
        }
    }

    /// Moves each comet by one tick, the comet at a place by the step at that place.
    pub fn update_positions(&mut self, steps: &Vec<MovementStep<V, P>>)
        requires
            old(self).wf(),
            steps@.len() == old(self)@.comets.len(),
        ensures
            final(self)@ == old(self)@.stepped(steps@),
            final(self).wf(),
    {
        let count = self.comets.len();
        let mut c: usize = 0;
        while c < count
            invariant
                c <= count,
                count == old(self).comets@.len(),
                count == self.comets@.len(),
                count == steps@.len(),
                self.possible_values == old(self).possible_values,
                self.maximum == old(self).maximum,
                self.taken_colors == old(self).taken_colors,
                self.new_comet_number == old(self).new_comet_number,
                forall|k: int| 0 <= k < count ==> self.comets@[k].wf(),
                forall|k: int|
                    0 <= k < c ==> self.comets@[k]@ == old(self).comets@[k]@.stepped(steps@[k]),
                forall|k: int| c <= k < count ==> self.comets@[k] == old(self).comets@[k],
            decreases count - c,
        {
            self.comets[c].update_position(steps[c]);
            c = c + 1;
        }
        proof {
            let before = old(self)@;
            let after = before.stepped(steps@);
            assert(self@.comets =~= after.comets);
            assert forall|k: int| 0 <= k < before.comets.len() implies (
            #[trigger] before.comets[k]).color() == after.comets[k].color() by {}
            lemma_color_flags_same_colors(before.catalog.colors, before.comets, after.comets);
        }
    }

    /// Removes every comet, releases every color slot and starts the numbers at 1 again.
    pub fn reload(&mut self)
        requires
            old(self).wf(),
        ensures
            final(self)@ == CometsView::<C, V, P>::empty(old(self)@.catalog, old(self)@.maximum),
            final(self).wf(),
    {
        proof {
            lemma_color_flags_len(self@.catalog.colors, self@.comets);
        }
        self.comets.clear();
        let slots = self.taken_colors.len();
        let mut slot: usize = 0;
        while slot < slots
            invariant
                slots == self.taken_colors@.len(),
                slot <= slots,
                self.possible_values == old(self).possible_values,
                self.maximum == old(self).maximum,
                self.comets@.len() == 0,
                forall|i: int| 0 <= i < slot ==> !self.taken_colors@[i],
            decreases slots - slot,
        {
            self.taken_colors.set(slot, false);
            slot = slot + 1;
        }
        self.new_comet_number = 1;
        proof {
            assert(self.taken_colors@ =~= all_free(self.possible_values@.colors.len()));
            assert(self@.comets =~= Seq::empty());
            lemma_all_free(self.possible_values@.colors.len(), 0);
        }
    }
}

/// Where the comets have colors of their own, each in a slot of the
/// catalog, removing a comet frees its slot and no other.
proof fn lemma_color_flags_remove<C, V, P>(
    colors: Seq<ColorData>,
    comets: Seq<CometView<C, V, P>>,
    index: int,
)
    requires
        0 <= index < comets.len(),
        forall|c: int|
            0 <= c < comets.len() ==> color_index(colors, (#[trigger] comets[c]).color())
                < colors.len(),
        forall|a: int, b: int|
            0 <= a < b < comets.len() ==> (#[trigger] comets[a]).color() != (
            #[trigger] comets[b]).color(),
    ensures
        color_flags(colors, comets.remove(index)) == color_flags(colors, comets).update(
            color_index(colors, comets[index].color()),
            false,
        ),
    decreases comets.len(),
{
    let slot = color_index(colors, comets[index].color());
    let rest = comets.drop_last();
    let last_slot = color_index(colors, comets.last().color());
    lemma_color_flags_len(colors, rest);
    lemma_color_flags_len(colors, comets);
    lemma_color_index_from(colors, comets[index].color(), 0);
    lemma_color_index_from(colors, comets.last().color(), 0);
    if index == comets.len() - 1 {
        assert(comets.remove(index) =~= rest);
        lemma_color_flags_meaning(colors, rest, slot);
        if color_flags(colors, rest)[slot] {
            let c = choose|c: int|
                0 <= c < rest.len() && color_index(colors, #[trigger] rest[c].color()) == slot;
            assert(rest[c] == comets[c]);
            lemma_color_index_from(colors, comets[c].color(), 0);
            assert(comets[c].color() == comets[index].color());
        }
        assert(color_flags(colors, rest) =~= color_flags(colors, comets).update(slot, false));
    } else {
        assert(comets.remove(index).drop_last() =~= rest.remove(index));
        assert(comets.remove(index).last() == comets.last());
        assert(rest[index] == comets[index]);
        assert forall|c: int| 0 <= c < rest.len() implies color_index(
            colors,
            (#[trigger] rest[c]).color(),
        ) < colors.len() by {
            assert(rest[c] == comets[c]);
        }
        assert forall|a: int, b: int| 0 <= a < b < rest.len() implies (#[trigger] rest[a]).color()
            != (#[trigger] rest[b]).color() by {
            assert(rest[a] == comets[a]);
            assert(rest[b] == comets[b]);
        }
        lemma_color_flags_remove(colors, rest, index);
        lemma_color_flags_len(colors, rest.remove(index));
        assert(slot != last_slot) by {
            if slot == last_slot {
                assert(comets[index].color() == comets[comets.len() - 1].color());
            }
        }
        assert(color_flags(colors, comets.remove(index)) =~= color_flags(colors, comets).update(
            slot,
            false,
        ));
    }
}

/// Which slots are taken depends on the colors of the comets alone.
proof fn lemma_color_flags_same_colors<C, V, P>(
    colors: Seq<ColorData>,
    a: Seq<CometView<C, V, P>>,
    b: Seq<CometView<C, V, P>>,
)
    requires
        a.len() == b.len(),
        forall|c: int| 0 <= c < a.len() ==> (#[trigger] a[c]).color() == b[c].color(),
    ensures
        color_flags(colors, a) == color_flags(colors, b),
    decreases a.len(),
{
    if a.len() > 0 {
        assert forall|c: int| 0 <= c < a.drop_last().len() implies (#[trigger] a.drop_last()[c]).color()
            == b.drop_last()[c].color() by {
            assert(a.drop_last()[c] == a[c]);
            assert(b.drop_last()[c] == b[c]);
        }
        lemma_color_flags_same_colors(colors, a.drop_last(), b.drop_last());
        assert(a.last() == a[a.len() - 1]);
    }
}

/// A new comet never gets the trajectory color of a live comet, nor its image.
pub proof fn law_new_comet_shares_nothing<C, V, P>(
    comets: CometsView<C, V, P>,
    color_rank: nat,
    image_rank: nat,
    body: CometBody<C, V, P>,
)
    requires
        comets.valid(),
        color_rank < comets.free_colors(),
        image_rank < comets.free_images(),
    ensures
        forall|c: int|
            0 <= c < comets.comets.len() ==> {
                &&& (#[trigger] comets.comets[c]).color() != comets.new_comet(
                    color_rank,
                    image_rank,
                    body,
                ).color()
                &&& comets.comets[c].image_index != comets.new_comet(
                    color_rank,
                    image_rank,
                    body,
                ).image_index
            },
{
    let colors = comets.catalog.colors;
    let slot = nth_free(comets.taken_colors, color_rank);
    let image = nth_free(comets.used_images(), image_rank);
    lemma_nth_free_is_free(comets.taken_colors, 0, color_rank);
    lemma_nth_free_is_free(comets.used_images(), 0, image_rank);
    lemma_color_flags_len(colors, comets.comets);
    lemma_image_flags_len(comets.catalog.images.len(), comets.comets);
    lemma_color_flags_meaning(colors, comets.comets, slot);
    lemma_image_flags_meaning(comets.catalog.images.len(), comets.comets, image);
    lemma_color_index_of_member(colors, slot);
    assert forall|c: int| 0 <= c < comets.comets.len() implies {
        &&& (#[trigger] comets.comets[c]).color() != comets.new_comet(
            color_rank,
            image_rank,
            body,
        ).color()
        &&& comets.comets[c].image_index != comets.new_comet(
            color_rank,
            image_rank,
            body,
        ).image_index
    } by {
        if comets.comets[c].color() == colors[slot] {
            assert(color_index(colors, comets.comets[c].color()) == slot);
        }
    }
}

/// The color of a deleted comet is free again: right after the deletion a
/// new comet can be given exactly that color.
pub proof fn law_deleted_color_can_return<C, V, P>(
    comets: CometsView<C, V, P>,
    index: int,
    image_rank: nat,
    body: CometBody<C, V, P>,
) -> (color_rank: nat)
    requires
        comets.valid(),
        0 <= index < comets.comets.len(),
    ensures
        color_rank < comets.deleted(index).free_colors(),
        comets.deleted(index).new_comet(color_rank, image_rank, body).color()
            == comets.comets[index].color(),
{
    let colors = comets.catalog.colors;
    let slot = color_index(colors, comets.comets[index].color());
    let after = comets.deleted(index);
    lemma_color_flags_len(colors, comets.comets);
    lemma_color_index_from(colors, comets.comets[index].color(), 0);
    let color_rank = free_before(after.taken_colors, slot);
    lemma_free_slot_has_rank(after.taken_colors, 0, slot);
    color_rank
}

/// Comets can be added until as many live as may, each addition raising
/// their number by one; then adding changes nothing until one is deleted.
pub proof fn law_capacity<C, V, P>(
    comets: CometsView<C, V, P>,
    color_rank: nat,
    image_rank: nat,
    body: CometBody<C, V, P>,
)
    requires
        comets.valid(),
    ensures
        comets.comets.len() <= comets.maximum,
        !comets.is_full() ==> comets.free_colors() > 0 && comets.free_images() > 0,
        comets.added_with(color_rank, image_rank, body).comets.len() == comets.comets.len() + 1,
{
    lemma_image_flags_free(comets.catalog.images.len(), comets.comets);
}

} // verus!
