use vstd::prelude::*;
use vstd::string::StringExecFns;

verus! {

/// How fast the simulation runs: a factor and the seconds that one tick simulates at it.
#[derive(Clone, Copy, PartialEq, Eq, Structural, Debug)]
pub enum Speed {
    /// The speed at which a simulation starts.
    X1(u16),
    X2(u16),
    X4(u16),
    X8(u16),
    X16(u16),
}

impl Speed {
    /// The seconds that one tick simulates.
    pub open spec fn seconds(self) -> nat {
        match self {
            Speed::X1(value) => value as nat,
            Speed::X2(value) => value as nat,
            Speed::X4(value) => value as nat,
            Speed::X8(value) => value as nat,
            Speed::X16(value) => value as nat,
        }
    }

    /// The factor by which the simulation is faster than at the start.
    pub open spec fn factor(self) -> nat {
        match self {
            Speed::X1(_) => 1,
            Speed::X2(_) => 2,
            Speed::X4(_) => 4,
            Speed::X8(_) => 8,
            Speed::X16(_) => 16,
        }
    }

    /// The next faster speed, with twice the seconds per tick; the fastest stays as it is.
    pub open spec fn faster(self) -> Speed
        recommends
            self is X16 || self.seconds() * 2 <= u16::MAX,
    {
        match self {
            Speed::X1(value) => Speed::X2((value * 2) as u16),
            Speed::X2(value) => Speed::X4((value * 2) as u16),
            Speed::X4(value) => Speed::X8((value * 2) as u16),
            Speed::X8(value) => Speed::X16((value * 2) as u16),
            Speed::X16(value) => Speed::X16(value),
        }
    }

    /// The next slower speed, with half the seconds per tick, rounded down;
    /// the slowest stays as it is.
    pub open spec fn slower(self) -> Speed {
        match self {
            Speed::X1(value) => Speed::X1(value),
            Speed::X2(value) => Speed::X1(value / 2),
            Speed::X4(value) => Speed::X2(value / 2),
            Speed::X8(value) => Speed::X4(value / 2),
            Speed::X16(value) => Speed::X8(value / 2),
        }
    }

    /// The speed's name: the letter x and the factor.
    pub open spec fn text(self) -> Seq<char> {
        match self {
            Speed::X1(_) => seq!['x', '1'],
            Speed::X2(_) => seq!['x', '2'],
            Speed::X4(_) => seq!['x', '4'],
            Speed::X8(_) => seq!['x', '8'],
            Speed::X16(_) => seq!['x', '1', '6'],
        }
    }

    /// The starting speed, at which one tick simulates `base_time_between_ticks` seconds.
    pub fn new(base_time_between_ticks: u16) -> (speed: Self)
        ensures
            speed == Speed::X1(base_time_between_ticks),
    {
        Speed::X1(base_time_between_ticks)
    }

    /// Whether [`Self::set_next`] can double the seconds per tick.
    pub fn can_set_next(&self) -> (fits: bool)
        ensures
            fits == (*self is X16 || self.seconds() * 2 <= u16::MAX),
    {
        match self {
            Speed::X16(_) => true,
            _ => self.value() <= u16::MAX / 2,
        }
    }

    pub fn set_next(&mut self)
        requires
            *old(self) is X16 || old(self).seconds() * 2 <= u16::MAX,
        ensures
            *final(self) == old(self).faster(),
    {
        let next = match *self {
            Speed::X1(time) => Speed::X2(time * 2),
            Speed::X2(time) => Speed::X4(time * 2),
            Speed::X4(time) => Speed::X8(time * 2),
            Speed::X8(time) => Speed::X16(time * 2),
            Speed::X16(time) => Speed::X16(time),
        };
        *self = next;
    }

    pub fn set_previous(&mut self)
        ensures
            *final(self) == old(self).slower(),
    {
        let previous = match *self {
            Speed::X1(time) => Speed::X1(time),
            Speed::X2(time) => Speed::X1(time / 2),
            Speed::X4(time) => Speed::X2(time / 2),
            Speed::X8(time) => Speed::X4(time / 2),
            Speed::X16(time) => Speed::X8(time / 2),
        };
        *self = previous;
    }

    /// The seconds that one tick simulates.
    pub fn value(&self) -> (seconds: u16)
        ensures
            seconds == self.seconds(),
    {
        match *self {
            Speed::X1(value) => value,
            Speed::X2(value) => value,
            Speed::X4(value) => value,
            Speed::X8(value) => value,
            Speed::X16(value) => value,
        }
    }

    /// Goes back to the starting speed.
    pub fn reload(&mut self, base_time_between_ticks: u16)
        ensures
            *final(self) == Speed::X1(base_time_between_ticks),
    {
        *self = Speed::new(base_time_between_ticks);
    }

    pub fn to_string(&self) -> (text: String)
        ensures
            text@ == self.text(),
    {
        proof {
            reveal_strlit("x1");
            reveal_strlit("x2");
            reveal_strlit("x4");
            reveal_strlit("x8");
            reveal_strlit("x16");
        }
        let literal = match *self {
            Speed::X1(_) => "x1",
            Speed::X2(_) => "x2",
            Speed::X4(_) => "x4",
            Speed::X8(_) => "x8",
            Speed::X16(_) => "x16",
        };
        assert(literal@ =~= self.text());
        String::from_str(literal)
    }
}

/// Slowing down undoes speeding up; between the slowest and the fastest
/// speed, the seconds per tick double and halve with the factor.
pub proof fn law_slower_undoes_faster(speed: Speed)
    requires
        !(speed is X16),
        speed.seconds() * 2 <= u16::MAX,
    ensures
        speed.faster().slower() == speed,
        speed.faster().factor() == 2 * speed.factor(),
        speed.faster().seconds() == 2 * speed.seconds(),
{
}

} // verus!
