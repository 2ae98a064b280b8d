use vstd::prelude::*;
use crate::objects::ObjectValues;

verus! {

/// The mathematical value of a [`Sun`].
pub ghost struct SunView<C, P> {
    pub consts: C,
    pub position: P,
    pub image: Seq<char>,
}

/// The star in the middle. It has no movement: it stays where it was put.
pub struct Sun<C, P> {
    consts: C,
    position: P,
    image: String,
}

impl<C, P> View for Sun<C, P> {
    type V = SunView<C, P>;

    closed spec fn view(&self) -> SunView<C, P> {
        SunView { consts: self.consts, position: self.position, image: self.image@ }
    }
}

impl<C: Copy, P: Copy> Sun<C, P> {
    /// The sun with its constants, at `position`, drawn with the image at the path `image`.
    pub fn new(consts: C, position: P, image: String) -> (sun: Self)
        ensures
            sun@ == (SunView { consts, position, image: image@ }),
    {
        Sun { consts, position, image }
    }

    pub fn name(&self) -> (name: &'static str)
        ensures
            name@ == "Sun"@,
    {
        "Sun"
    }

    pub fn consts(&self) -> (consts: C)
        ensures
            consts == self@.consts,
    {
        self.consts
    }

    pub fn position(&self) -> (position: P)
        ensures
            position == self@.position,
    {
        self.position
    }

    pub fn image(&self) -> (image: &str)
        ensures
            image@ == self@.image,
    {
        self.image.as_str()
    }

    pub fn values(&self) -> (values: ObjectValues<C, P>)
        ensures
            values == (ObjectValues { position: self@.position, consts: self@.consts }),
    {
        ObjectValues { position: self.position, consts: self.consts }
    }
}

} // verus!
