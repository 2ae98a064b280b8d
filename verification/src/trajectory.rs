use vstd::prelude::*;
use std::collections::VecDeque;
use crate::color::ColorData;

verus! {

/// The most positions that a trajectory keeps.
pub const TRAJECTORY_CAPACITY: usize = 10_000;

/// The quadrant into which a body moves. The vertical axis points down.
#[derive(Clone, Copy, PartialEq, Eq, Structural, Debug)]
pub enum Direction {
    LeftDown,
    LeftUp,
    RightDown,
    RightUp,
}

impl Direction {
    /// The quadrant of a vector by the signs of its two components.
    pub open spec fn of_signs(x_negative: bool, y_negative: bool) -> Direction {
        if !x_negative && !y_negative {
            Direction::RightDown
        } else if !x_negative && y_negative {
            Direction::RightUp
        } else if x_negative && !y_negative {
            Direction::LeftDown
        } else {
            Direction::LeftUp
        }
    }

    pub fn from_signs(x_negative: bool, y_negative: bool) -> (direction: Direction)
        ensures
            direction == Direction::of_signs(x_negative, y_negative),
    {
        if !x_negative && !y_negative {
            Direction::RightDown
        } else if !x_negative && y_negative {
            Direction::RightUp
        } else if x_negative && !y_negative {
            Direction::LeftDown
        } else {
            Direction::LeftUp
        }
    }
}

/// What an open trajectory remembers in order to notice that it repeats.
#[derive(Clone, Copy, PartialEq, Eq, Structural, Debug)]
pub struct TrajectoryClosing {
    /// The quadrant of the latest movement.
    pub direction: Direction,
    pub is_left_down_used: bool,
    pub is_left_up_used: bool,
    pub is_right_down_used: bool,
    pub is_right_up_used: bool,
    /// Set by the turn that completed the four quadrants.
    pub is_all_directions_used: bool,
}

impl TrajectoryClosing {
    /// The bookkeeping of a body that starts out towards `initial`.
    pub open spec fn fresh(initial: Direction) -> TrajectoryClosing {
        TrajectoryClosing {
            direction: initial,
            is_left_down_used: false,
            is_left_up_used: false,
            is_right_down_used: false,
            is_right_up_used: false,
            is_all_directions_used: false,
        }
    }

    /// Whether the body has turned into `direction` before.
    pub open spec fn is_used(self, direction: Direction) -> bool {
        match direction {
            Direction::LeftDown => self.is_left_down_used,
            Direction::LeftUp => self.is_left_up_used,
            Direction::RightDown => self.is_right_down_used,
            Direction::RightUp => self.is_right_up_used,
        }
    }

    /// Whether the body has turned into each of the four quadrants.
    pub open spec fn every_direction_used(self) -> bool {
        self.is_left_down_used && self.is_left_up_used && self.is_right_down_used
            && self.is_right_up_used
    }

    /// The bookkeeping once the body has turned into `direction`.
    pub open spec fn marked(self, direction: Direction) -> TrajectoryClosing {
        let moving = TrajectoryClosing { direction, ..self };
        match direction {
            Direction::LeftDown => TrajectoryClosing { is_left_down_used: true, ..moving },
            Direction::LeftUp => TrajectoryClosing { is_left_up_used: true, ..moving },
            Direction::RightDown => TrajectoryClosing { is_right_down_used: true, ..moving },
            Direction::RightUp => TrajectoryClosing { is_right_up_used: true, ..moving },
        }
    }

    /// One movement towards `direction`: the bookkeeping afterwards, or `None`
    /// where this movement closes the trajectory. A movement in the latest
    /// quadrant changes nothing. A turn marks its quadrant; the turn that
    /// completes the four quadrants is remembered, and the turn after it closes.
    pub open spec fn moved(self, direction: Direction) -> Option<TrajectoryClosing> {
        if direction == self.direction {
            Some(self)
        } else {
            let marked = self.marked(direction);
            if !marked.every_direction_used() {
                Some(marked)
            } else if !marked.is_all_directions_used {
                Some(TrajectoryClosing { is_all_directions_used: true, ..marked })
            } else {
                None
            }
        }
    }

    pub fn new(initial: Direction) -> (closing: Self)
        ensures
            closing == Self::fresh(initial),
    {
        TrajectoryClosing {
            direction: initial,
            is_left_down_used: false,
            is_left_up_used: false,
            is_right_down_used: false,
            is_right_up_used: false,
            is_all_directions_used: false,
        }
    }

    /// Takes one movement into account (see [`Self::moved`]).
    pub fn move_towards(self, direction: Direction) -> (after: Option<Self>)
        ensures
            after == self.moved(direction),
    {
        let mut closing = self;
        if closing.direction == direction {
            return Some(closing);
        }
        match direction {
            Direction::LeftDown => closing.is_left_down_used = true,
            Direction::LeftUp => closing.is_left_up_used = true,
            Direction::RightDown => closing.is_right_down_used = true,
            Direction::RightUp => closing.is_right_up_used = true,
        }
        closing.direction = direction;
        if closing.is_left_down_used && closing.is_left_up_used && closing.is_right_down_used
            && closing.is_right_up_used {
            if !closing.is_all_directions_used {
                closing.is_all_directions_used = true;
                return Some(closing);
            }
            return None;
        }
        Some(closing)
    }
}

/// The bookkeeping after one more movement; a closed trajectory stays closed.
pub open spec fn closing_moved(
    closing: Option<TrajectoryClosing>,
    direction: Direction,
) -> Option<TrajectoryClosing> {
    match closing {
        Some(open) => open.moved(direction),
        None => None,
    }
}

/// The bookkeeping after a series of movements.
pub open spec fn closing_after(
    closing: Option<TrajectoryClosing>,
    directions: Seq<Direction>,
) -> Option<TrajectoryClosing>
    decreases directions.len(),
{
    if directions.len() == 0 {
        closing
    } else {
        closing_after(closing_moved(closing, directions[0]), directions.drop_first())
    }
}

/// The turns among a series of movements: each movement that goes into
/// another quadrant than the one before it, `current` being the quadrant
/// before the first.
pub open spec fn turns(current: Direction, directions: Seq<Direction>) -> Seq<Direction>
    decreases directions.len(),
{
    if directions.len() == 0 {
        Seq::empty()
    } else if directions[0] == current {
        turns(current, directions.drop_first())
    } else {
        seq![directions[0]] + turns(directions[0], directions.drop_first())
    }
}

/// The positions kept of `positions` when only every `step`-th is taken,
/// the first included.
pub open spec fn stepped<P>(positions: Seq<P>, step: nat) -> Seq<P>
    recommends
        step > 0,
{
    Seq::new(((positions.len() + step - 1) / (step as int)) as nat, |i: int| positions[i * step])
}

/// The mathematical value of a [`Trajectory`].
pub ghost struct TrajectoryView<P> {
    /// The closure bookkeeping while the trajectory is open, `None` once it is closed.
    pub closing: Option<TrajectoryClosing>,
    pub color: ColorData,
    /// The recorded positions, oldest first.
    pub positions: Seq<P>,
}

impl<P> TrajectoryView<P> {
    /// A trajectory that holds its starting position only.
    pub open spec fn start(
        initial: Direction,
        starting_position: P,
        color: ColorData,
    ) -> TrajectoryView<P> {
        TrajectoryView {
            closing: Some(TrajectoryClosing::fresh(initial)),
            color,
            positions: seq![starting_position],
        }
    }

    pub open spec fn is_closed(self) -> bool {
        self.closing is None
    }

    /// Whether the next position pushes the oldest one out: always once the
    /// trajectory is closed, and before that only when it is full.
    pub open spec fn evicts(self) -> bool {
        self.is_closed() || self.positions.len() >= TRAJECTORY_CAPACITY
    }

    /// The trajectory after the body has moved to `position`, towards `direction`.
    pub open spec fn added(self, position: P, direction: Direction) -> TrajectoryView<P> {
        TrajectoryView {
            closing: closing_moved(self.closing, direction),
            color: self.color,
            positions: if self.evicts() {
                self.positions.push(position).drop_first()
            } else {
                self.positions.push(position)
            },
        }
    }

    /// The trajectory after a series of movements, each a position and its direction.
    pub open spec fn added_all(self, movements: Seq<(P, Direction)>) -> TrajectoryView<P>
        decreases movements.len(),
    {
        if movements.len() == 0 {
            self
        } else {
            self.added(movements[0].0, movements[0].1).added_all(movements.drop_first())
        }
    }
}

/// The recorded path of a moving body. It grows while it is open, up to
/// [`TRAJECTORY_CAPACITY`] positions, and keeps its length once it is closed.
pub struct Trajectory<P> {
    is_closed: bool,
    closing: Option<TrajectoryClosing>,
    color: ColorData,
    positions: VecDeque<P>,
}

impl<P> View for Trajectory<P> {
    type V = TrajectoryView<P>;

    closed spec fn view(&self) -> TrajectoryView<P> {
        TrajectoryView { closing: self.closing, color: self.color, positions: self.positions@ }
    }
}

impl<P> Trajectory<P> {
    /// The flag and the bookkeeping agree.
    pub closed spec fn flag_agrees(&self) -> bool {
        self.is_closed == (self.closing is None)
    }

    /// A trajectory holds at least one position and never more than its capacity.
    pub open spec fn wf(&self) -> bool {
        &&& self.flag_agrees()
        &&& 1 <= self@.positions.len() <= TRAJECTORY_CAPACITY
    }

    pub fn new(initial_direction: Direction, starting_position: P, color: ColorData) -> (trajectory:
        Self)
        ensures
            trajectory@ == TrajectoryView::start(initial_direction, starting_position, color),
            trajectory.wf(),
    {
        let mut positions = VecDeque::with_capacity(TRAJECTORY_CAPACITY);
        positions.push_back(starting_position);
        assert(positions@ =~= seq![starting_position]);
        Trajectory {
            is_closed: false,
            closing: Some(TrajectoryClosing::new(initial_direction)),
            color,
            positions,
        }
    }

    pub fn color(&self) -> (color: ColorData)
        ensures
            color == self@.color,
    {
        self.color
    }

    pub fn is_closed(&self) -> (closed: bool)
        requires
            self.wf(),
        ensures
            closed == self@.is_closed(),
    {
        self.is_closed
    }

    /// The number of recorded positions.
    pub fn len(&self) -> (len: usize)
        ensures
            len == self@.positions.len(),
    {
        self.positions.len()
    }

    /// Records the position that the body has moved to, with the direction of
    /// the movement.
    pub fn add_position(&mut self, position: P, direction: Direction)
        requires
            old(self).wf(),
        ensures
            final(self)@ == old(self)@.added(position, direction),
            final(self).wf(),
    {
        let full = self.positions.len() >= TRAJECTORY_CAPACITY;
        self.positions.push_back(position);
        if self.is_closed || full {
            let _ = self.positions.pop_front();
        }
        assert(self.positions@ =~= old(self)@.added(position, direction).positions);
        if self.is_closed {
            return;
        }
        match self.closing {
            Some(closing) => {
                self.closing = closing.move_towards(direction);
                self.is_closed = self.closing.is_none();
            },
            None => {},
        }
    }
}

impl<P: Copy> Trajectory<P> {
    /// Every `step`-th recorded position, starting with the oldest.
    pub fn positions(&self, step: u32) -> (points: Vec<P>)
        requires
            self.wf(),
            step > 0,
        ensures
            points@ == stepped(self@.positions, step as nat),
    {
        let len: u64 = self.positions.len() as u64;
        let step: u64 = step as u64;
        let mut points: Vec<P> = Vec::new();
        let mut index: u64 = 0;
        assert(points@.len() * step == 0) by (nonlinear_arith)
            requires
                points@.len() == 0,
        ;
        while index < len
            invariant
                len == self.positions@.len(),
                len <= TRAJECTORY_CAPACITY,
                0 < step <= u32::MAX,
                index == points@.len() * step,
                points@.len() == 0 || (points@.len() - 1) * step < len,
                forall|i: int| 0 <= i < points@.len() ==> points@[i] == self.positions@[i * step],
            decreases len + step - index,
        {
            let ghost taken = points@.len() as int;
            points.push(self.positions[index as usize]);
            index = index + step;
            assert((taken + 1) * step == taken * step + step) by (nonlinear_arith);
            assert forall|i: int| 0 <= i < points@.len() implies points@[i] == self.positions@[i
                * step] by {
                if i < taken {
                } else {
                    assert(i * step == taken * step);
                }
            }
        }
        proof {
            let count = points@.len() as int;
            let expected = (len + step - 1) / (step as int);
            assert(count == expected) by (nonlinear_arith)
                requires
                    step > 0,
                    len >= 1,
                    count * step >= len,
                    count == 0 || (count - 1) * step < len,
                    expected == (len + step - 1) / (step as int),
            ;
            assert(points@ =~= stepped(self@.positions, step as nat));
        }
        points
    }
}

/// A closed trajectory stays closed, whatever the body does.
pub proof fn law_closed_stays_closed(directions: Seq<Direction>)
    ensures
        closing_after(None, directions) is None,
    decreases directions.len(),
{
    if directions.len() > 0 {
        law_closed_stays_closed(directions.drop_first());
    }
}

/// Only turns count: a series of movements leaves the bookkeeping as its
/// turns alone would, however many movements lie between two turns.
pub proof fn law_only_turns_count(closing: TrajectoryClosing, directions: Seq<Direction>)
    ensures
        closing_after(Some(closing), directions) == closing_after(
            Some(closing),
            turns(closing.direction, directions),
        ),
    decreases directions.len(),
{
    if directions.len() > 0 {
        let first = directions[0];
        let rest = directions.drop_first();
        if first == closing.direction {
            law_only_turns_count(closing, rest);
        } else {
            let turned = turns(first, rest);
            assert((seq![first] + turned).drop_first() =~= turned);
            match closing.moved(first) {
                Some(next) => {
                    law_only_turns_count(next, rest);
                },
                None => {
                    law_closed_stays_closed(rest);
                    law_closed_stays_closed(turned);
                },
            }
        }
    }
}

/// A body that never leaves the quadrant it started in never closes its trajectory.
pub proof fn law_straight_path_stays_open(initial: Direction, directions: Seq<Direction>)
    requires
        forall|i: int| 0 <= i < directions.len() ==> directions[i] == initial,
    ensures
        closing_after(Some(TrajectoryClosing::fresh(initial)), directions) == Some(
            TrajectoryClosing::fresh(initial),
        ),
    decreases directions.len(),
{
    if directions.len() > 0 {
        law_straight_path_stays_open(initial, directions.drop_first());
    }
}

/// A body that goes round through the four quadrants, starting in `first`,
/// still has an open trajectory when it is back in `first`, and closes it
/// with the next turn, into `second`.
pub proof fn law_round_trip_closes(
    first: Direction,
    second: Direction,
    third: Direction,
    fourth: Direction,
)
    requires
        first != second,
        first != third,
        first != fourth,
        second != third,
        second != fourth,
        third != fourth,
    ensures
        closing_after(Some(TrajectoryClosing::fresh(first)), seq![second, third, fourth, first])
            is Some,
        closing_after(
            Some(TrajectoryClosing::fresh(first)),
            seq![second, third, fourth, first, second],
        ) is None,
{
    let start = Some(TrajectoryClosing::fresh(first));
    let round = seq![second, third, fourth, first];
    let more = seq![second, third, fourth, first, second];
    reveal_with_fuel(closing_after, 6);
    assert(round.drop_first() =~= seq![third, fourth, first]);
    assert(seq![third, fourth, first].drop_first() =~= seq![fourth, first]);
    assert(seq![fourth, first].drop_first() =~= seq![first]);
    assert(seq![first].drop_first() =~= Seq::<Direction>::empty());
    assert(more.drop_first() =~= seq![third, fourth, first, second]);
    assert(seq![third, fourth, first, second].drop_first() =~= seq![fourth, first, second]);
    assert(seq![fourth, first, second].drop_first() =~= seq![first, second]);
    assert(seq![first, second].drop_first() =~= seq![second]);
    assert(seq![second].drop_first() =~= Seq::<Direction>::empty());
}

/// The number of quadrants that the bookkeeping has marked.
pub open spec fn used_count(closing: TrajectoryClosing) -> nat {
    (if closing.is_left_down_used {
        1nat
    } else {
        0nat
    }) + (if closing.is_left_up_used {
        1nat
    } else {
        0nat
    }) + (if closing.is_right_down_used {
        1nat
    } else {
        0nat
    }) + (if closing.is_right_up_used {
        1nat
    } else {
        0nat
    })
}

/// How far a trajectory is on its way to being closed: the number of
/// quadrants marked while it is open, 5 once it is closed. Each movement
/// raises it by one at most.
pub open spec fn progress(closing: Option<TrajectoryClosing>) -> nat {
    match closing {
        Some(open) => used_count(open),
        None => 5,
    }
}

proof fn lemma_progress_grows_slowly(closing: Option<TrajectoryClosing>, direction: Direction)
    requires
        closing matches Some(open) ==> (open.is_all_directions_used
            ==> open.every_direction_used()),
    ensures
        progress(closing_moved(closing, direction)) <= progress(closing) + 1,
        closing_moved(closing, direction) matches Some(open) ==> (open.is_all_directions_used
            ==> open.every_direction_used()),
{
}

proof fn lemma_progress_after(closing: Option<TrajectoryClosing>, directions: Seq<Direction>)
    requires
        closing matches Some(open) ==> (open.is_all_directions_used
            ==> open.every_direction_used()),
    ensures
        progress(closing_after(closing, directions)) <= progress(closing) + directions.len(),
    decreases directions.len(),
{
    if directions.len() > 0 {
        lemma_progress_grows_slowly(closing, directions[0]);
        lemma_progress_after(closing_moved(closing, directions[0]), directions.drop_first());
    }
}

/// No trajectory closes with fewer than five movements: it takes four turns
/// to see the four quadrants and one more to close.
pub proof fn law_never_closes_before_five_turns(initial: Direction, directions: Seq<Direction>)
    requires
        directions.len() < 5,
    ensures
        closing_after(Some(TrajectoryClosing::fresh(initial)), directions) is Some,
{
    lemma_progress_after(Some(TrajectoryClosing::fresh(initial)), directions);
}

/// Once closed, a trajectory keeps its length and stays closed with every
/// position added: the oldest position leaves as the new one comes.
pub proof fn law_closed_trajectory_is_a_ring<P>(
    trajectory: TrajectoryView<P>,
    position: P,
    direction: Direction,
)
    requires
        trajectory.is_closed(),
        trajectory.positions.len() >= 1,
    ensures
        trajectory.added(position, direction).is_closed(),
        trajectory.added(position, direction).positions.len() == trajectory.positions.len(),
        trajectory.added(position, direction).positions == trajectory.positions.subrange(
            1,
            trajectory.positions.len() as int,
        ).push(position),
{
    assert(trajectory.added(position, direction).positions =~= trajectory.positions.subrange(
        1,
        trajectory.positions.len() as int,
    ).push(position));
}

/// While it is open and not yet full, a trajectory grows by each position added.
pub proof fn law_open_trajectory_grows<P>(
    trajectory: TrajectoryView<P>,
    position: P,
    direction: Direction,
)
    requires
        !trajectory.is_closed(),
        trajectory.positions.len() < TRAJECTORY_CAPACITY,
    ensures
        trajectory.added(position, direction).positions == trajectory.positions.push(position),
{
}

/// The directions of a series of movements.
pub open spec fn directions_of<P>(movements: Seq<(P, Direction)>) -> Seq<Direction> {
    Seq::new(movements.len(), |i: int| movements[i].1)
}

/// Whether a trajectory is closed depends on the directions of the
/// movements alone, not on the positions: after a series of movements its
/// bookkeeping is what the directions make of it.
pub proof fn law_closure_follows_directions<P>(
    trajectory: TrajectoryView<P>,
    movements: Seq<(P, Direction)>,
)
    ensures
        trajectory.added_all(movements).closing == closing_after(
            trajectory.closing,
            directions_of(movements),
        ),
        trajectory.added_all(movements).color == trajectory.color,
    decreases movements.len(),
{
    if movements.len() > 0 {
        let next = trajectory.added(movements[0].0, movements[0].1);
        law_closure_follows_directions(next, movements.drop_first());
        assert(directions_of(movements).drop_first() =~= directions_of(movements.drop_first()));
    }
}

/// A closed trajectory has the same number of positions after any series
/// of movements, and never more than the capacity while it is open.
pub proof fn law_length_is_bounded<P>(trajectory: TrajectoryView<P>, movements: Seq<(P, Direction)>)
    requires
        1 <= trajectory.positions.len() <= TRAJECTORY_CAPACITY,
    ensures
        1 <= trajectory.added_all(movements).positions.len() <= TRAJECTORY_CAPACITY,
        trajectory.is_closed() ==> trajectory.added_all(movements).positions.len()
            == trajectory.positions.len(),
    decreases movements.len(),
{
    if movements.len() > 0 {
        let next = trajectory.added(movements[0].0, movements[0].1);
        law_length_is_bounded(next, movements.drop_first());
    }
}

} // verus!
