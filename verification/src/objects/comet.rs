use vstd::prelude::*;
use vstd::string::StringExecFns;
use crate::color::ColorData;
use crate::decimal::{append_decimal, decimal};
use crate::movement::{MovementStep, MovementView, ObjectMovement};
use crate::objects::ObjectValues;
use crate::trajectory::Direction;

verus! {

/// What the simulation draws by chance for a new comet: its constants, and
/// where and how it sets out.
#[derive(Clone, Copy, Debug)]
pub struct CometBody<C, V, P> {
    pub consts: C,
    pub velocity: V,
    pub direction: Direction,
    pub position: P,
}

/// The mathematical value of a [`Comet`].
pub ghost struct CometView<C, V, P> {
    pub number: nat,
    pub consts: C,
    pub movement: MovementView<V, P>,
    pub image_index: nat,
}

/// The name of the comet with the given number.
pub open spec fn comet_name(number: nat) -> Seq<char> {
    seq!['C', 'o', 'm', 'e', 't', ' '] + decimal(number)
}

impl<C, V, P> CometView<C, V, P> {
    /// A comet that has not moved yet.
    pub open spec fn start(
        number: nat,
        body: CometBody<C, V, P>,
        trajectory_color: ColorData,
        image_index: nat,
    ) -> CometView<C, V, P> {
        CometView {
            number,
            consts: body.consts,
            movement: MovementView::start(
                body.velocity,
                body.direction,
                body.position,
                trajectory_color,
            ),
            image_index,
        }
    }

    pub open spec fn name(self) -> Seq<char> {
        comet_name(self.number)
    }

    pub open spec fn color(self) -> ColorData {
        self.movement.trajectory.color
    }

    /// The comet after one tick.
    pub open spec fn stepped(self, step: MovementStep<V, P>) -> CometView<C, V, P> {
        CometView { movement: self.movement.stepped(step), ..self }
    }
}

/// A body that the user has sent into the system.
pub struct Comet<C, V, P> {
    number: u16,
    name: String,
    movement: ObjectMovement<V, P>,
    consts: C,
    image_index: u8,
}

impl<C, V, P> View for Comet<C, V, P> {
    type V = CometView<C, V, P>;

    closed spec fn view(&self) -> CometView<C, V, P> {
        CometView {
            number: self.number as nat,
            consts: self.consts,
            movement: self.movement@,
            image_index: self.image_index as nat,
        }
    }
}

impl<C: Copy, V: Copy, P: Copy> Comet<C, V, P> {
    pub closed spec fn wf(&self) -> bool {
        &&& self.movement.wf()
        &&& self.name@ == comet_name(self.number as nat)
    }

    /// The comet with the number `comet_number`, drawn with the image at
    /// `image_index` of the catalog, leaving a trajectory of the given color.
    pub fn new(
        comet_number: u16,
        body: CometBody<C, V, P>,
        trajectory_color: ColorData,
        image_index: u8,
    ) -> (comet: Self)
        ensures
            comet@ == CometView::start(
                comet_number as nat,
                body,
                trajectory_color,
                image_index as nat,
            ),
            comet.wf(),
    {
        proof {
            reveal_strlit("Comet ");
        }
        let mut name = String::from_str("Comet ");
        append_decimal(&mut name, comet_number as u32);
        assert(name@ =~= comet_name(comet_number as nat));
        Comet {
            number: comet_number,
            name,
            movement: ObjectMovement::new_comet_movement(
                body.velocity,
                body.direction,
                body.position,
                trajectory_color,
            ),
            consts: body.consts,
            image_index,
        }
    }

    pub fn number(&self) -> (number: u16)
        ensures
            number == self@.number,
    {
        self.number
    }

    pub fn name(&self) -> (name: &str)
        requires
            self.wf(),
        ensures
            name@ == self@.name(),
    {
        self.name.as_str()
    }

    pub fn consts(&self) -> (consts: C)
        ensures
            consts == self@.consts,
    {
        self.consts
    }

    pub fn position(&self) -> (position: P)
        ensures
            position == self@.movement.position,
    {
        self.movement.position()
    }

    /// The place of the comet's image in the catalog.
    pub fn image_index(&self) -> (index: u8)
        ensures
            index == self@.image_index,
    {
        self.image_index
    }

    pub fn trajectory_color(&self) -> (color: ColorData)
        ensures
            color == self@.color(),
    {
        self.movement.trajectory_color()
    }

    pub fn movement(&self) -> (movement: &ObjectMovement<V, P>)
        ensures
            movement@ == self@.movement,
            self.wf() ==> movement.wf(),
    {
        &self.movement
    }

    pub fn values(&self) -> (values: ObjectValues<C, P>)
        ensures
            values == (ObjectValues { position: self@.movement.position, consts: self@.consts }),
    {
        ObjectValues { position: self.movement.position(), consts: self.consts }
    }

    /// Moves the comet by one tick.
    pub fn update_position(&mut self, step: MovementStep<V, P>)
        requires
            old(self).wf(),
        ensures
            final(self)@ == old(self)@.stepped(step),
            final(self).wf(),
    {
        self.movement.update_position(step);
    }
}

} // verus!
