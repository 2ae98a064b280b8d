use vstd::prelude::*;
use crate::color::ColorData;
use crate::random::random_below;

verus! {

/// Each channel of a trajectory color is one of this many values, from 0 on.
pub const CHANNEL_VALUES: u32 = 255;

/// The number of trajectory colors.
pub const COLOR_COUNT: u32 = 16_581_375;

/// The place of a color among the trajectory colors, ordered by red, then
/// green, then blue.
pub open spec fn color_code(color: ColorData) -> nat {
    (color.red * 65025 + color.green * 255 + color.blue) as nat
}

/// The trajectory color at the place `code`.
pub open spec fn code_color(code: nat) -> ColorData {
    ColorData {
        red: (code / 65025) as u8,
        green: ((code / 255) % 255) as u8,
        blue: (code % 255) as u8,
    }
}

/// Whether a color is a trajectory color: no channel has the highest value of a byte.
pub open spec fn is_trajectory_color(color: ColorData) -> bool {
    color.red < 255 && color.green < 255 && color.blue < 255
}

/// The number of codes below `bound` among `used`.
pub open spec fn count_below(used: Seq<u32>, bound: int) -> nat
    decreases used.len(),
{
    if used.len() == 0 {
        0
    } else if used.last() < bound {
        1 + count_below(used.drop_last(), bound)
    } else {
        count_below(used.drop_last(), bound)
    }
}

/// The number of codes up to and including `code` among `used`.
pub open spec fn count_up_to(used: Seq<u32>, code: int) -> nat {
    count_below(used, code + 1)
}

/// No code occurs twice.
pub open spec fn distinct_codes(used: Seq<u32>) -> bool {
    forall|i: int, j: int| 0 <= i < j < used.len() ==> used[i] != used[j]
}

/// The number of free codes below `code`, free meaning not among `used`.
pub open spec fn free_rank(used: Seq<u32>, code: int) -> int {
    code - count_below(used, code)
}

proof fn lemma_count_below_bounds(used: Seq<u32>, lower: int, higher: int)
    requires
        lower <= higher,
    ensures
        count_below(used, lower) <= count_below(used, higher) <= used.len(),
    decreases used.len(),
{
    if used.len() > 0 {
        lemma_count_below_bounds(used.drop_last(), lower, higher);
    }
}

/// Among distinct codes, a code counts once if it is there and not at all if not.
proof fn lemma_count_one_more(used: Seq<u32>, code: int)
    requires
        distinct_codes(used),
    ensures
        count_below(used, code + 1) == count_below(used, code) + (if exists|i: int|
            0 <= i < used.len() && used[i] == code {
            1nat
        } else {
            0nat
        }),
    decreases used.len(),
{
    if used.len() > 0 {
        let rest = used.drop_last();
        assert forall|i: int, j: int| 0 <= i < j < rest.len() implies rest[i] != rest[j] by {
            assert(rest[i] == used[i] && rest[j] == used[j]);
        }
        lemma_count_one_more(rest, code);
        if used.last() == code {
            assert(used[used.len() - 1] == code);
            if exists|i: int| 0 <= i < rest.len() && rest[i] == code {
                let i = choose|i: int| 0 <= i < rest.len() && rest[i] == code;
                assert(used[i] == rest[i]);
                assert(false);
            }
        } else {
            if exists|i: int| 0 <= i < used.len() && used[i] == code {
                let i = choose|i: int| 0 <= i < used.len() && used[i] == code;
                assert(rest[i] == used[i]);
            }
            if exists|i: int| 0 <= i < rest.len() && rest[i] == code {
                let i = choose|i: int| 0 <= i < rest.len() && rest[i] == code;
                assert(used[i] == rest[i]);
            }
        }
    }
}

/// The code of a trajectory color is below the number of colors, and leads back to the color.
pub proof fn lemma_code_round_trip(code: nat)
    requires
        code < COLOR_COUNT,
    ensures
        is_trajectory_color(code_color(code)),
        color_code(code_color(code)) == code,
{
}

/// The trajectory colors that have been given out, so that none is given twice.
pub struct TrajectoryColors {
    used: Vec<u32>,
}

impl View for TrajectoryColors {
    type V = Seq<ColorData>;

    /// The colors given out so far, the first given first.
    closed spec fn view(&self) -> Seq<ColorData> {
        Seq::new(self.used@.len(), |i: int| code_color(self.used@[i] as nat))
    }
}

/// No color occurs twice.
pub open spec fn distinct(colors: Seq<ColorData>) -> bool {
    forall|i: int, j: int| 0 <= i < j < colors.len() ==> colors[i] != colors[j]
}

/// The codes of the colors.
pub open spec fn codes_of(colors: Seq<ColorData>) -> Seq<u32> {
    Seq::new(colors.len(), |i: int| color_code(colors[i]) as u32)
}

impl TrajectoryColors {
    /// The colors given out are trajectory colors, each given once.
    pub closed spec fn wf(&self) -> bool {
        &&& distinct_codes(self.used@)
        &&& forall|i: int| 0 <= i < self.used@.len() ==> self.used@[i] < COLOR_COUNT
    }

    /// What being well-formed means for the colors.
    pub proof fn lemma_wf(&self)
        requires
            self.wf(),
        ensures
            distinct(self@),
            forall|i: int| 0 <= i < self@.len() ==> is_trajectory_color(#[trigger] self@[i]),
            self@.len() <= COLOR_COUNT,
            distinct_codes(codes_of(self@)),
    {
        self.lemma_codes();
    }

    proof fn lemma_codes(&self)
        requires
            self.wf(),
        ensures
            distinct(self@),
            forall|i: int| 0 <= i < self@.len() ==> is_trajectory_color(#[trigger] self@[i]),
            self@.len() <= COLOR_COUNT,
            codes_of(self@) == self.used@,
    {
        assert forall|i: int| 0 <= i < self@.len() implies is_trajectory_color(
            #[trigger] self@[i],
        ) && color_code(self@[i]) == self.used@[i] by {
            lemma_code_round_trip(self.used@[i] as nat);
        }
        assert(codes_of(self@) =~= self.used@);
        assert forall|i: int, j: int| 0 <= i < j < self@.len() implies self@[i] != self@[j] by {
            assert(color_code(self@[i]) == self.used@[i]);
            assert(color_code(self@[j]) == self.used@[j]);
        }
        lemma_distinct_codes_are_few(self.used@, COLOR_COUNT as int);
    }

    /// No color given out yet.
    pub fn new() -> (colors: Self)
        ensures
            colors@ == Seq::<ColorData>::empty(),
            colors.wf(),
    {
        let colors = TrajectoryColors { used: Vec::new() };
        assert(colors@ =~= Seq::<ColorData>::empty());
        colors
    }

    /// The number of colors given out.
    pub fn len(&self) -> (len: usize)
        ensures
            len == self@.len(),
    {
        self.used.len()
    }

    /// The number of codes up to and including `code` that have been given out.
    fn used_up_to(&self, code: u32) -> (count: u32)
        requires
            self.used@.len() <= COLOR_COUNT,
        ensures
            count == count_up_to(self.used@, code as int),
    {
        let len = self.used.len();
        let mut count: u32 = 0;
        let mut i: usize = 0;
        assert(self.used@.take(0) =~= Seq::empty());
        while i < len
            invariant
                i <= len,
                len == self.used@.len(),
                len <= COLOR_COUNT,
                count <= i,
                count == count_up_to(self.used@.take(i as int), code as int),
            decreases len - i,
        {
            proof {
                let next = self.used@.take(i + 1);
                assert(next.drop_last() =~= self.used@.take(i as int));
                assert(next.last() == self.used@[i as int]);
            }
            if self.used[i] <= code {
                count = count + 1;
            }
            i = i + 1;
        }
        assert(self.used@.take(len as int) =~= self.used@);
        count
    }

    /// Gives out the free color that has `rank` free colors before it.
    pub fn take_free_color(&mut self, rank: u32) -> (color: ColorData)
        requires
            old(self).wf(),
            rank < COLOR_COUNT - old(self)@.len(),
        ensures
            final(self).wf(),
            final(self)@ == old(self)@.push(color),
            is_trajectory_color(color),
            !old(self)@.contains(color),
            free_rank(codes_of(old(self)@), color_code(color) as int) == rank,
    {
        proof {
            self.lemma_codes();
        }
        let ghost used = self.used@;
        let mut code: u32 = rank;
        let mut found = false;
        proof {
            assert forall|x: int| 0 <= x < code implies x < rank + #[trigger] count_up_to(used, x) by {}
        }
        while !found
            invariant
                used == self.used@,
                self.wf(),
                used.len() <= COLOR_COUNT,
                rank < COLOR_COUNT - used.len(),
                rank <= code <= rank + count_up_to(used, code as int),
                found ==> code == rank + count_up_to(used, code as int),
                forall|x: int| 0 <= x < code ==> x < rank + #[trigger] count_up_to(used, x),
            decreases rank + used.len() - code, if found { 0int } else { 1int },
        {
            let taken = self.used_up_to(code);
            proof {
                lemma_count_below_bounds(used, code as int + 1, code as int + 1);
            }
            if rank + taken == code {
                found = true;
            } else {
                let next = rank + taken;
                proof {
                    assert forall|x: int| 0 <= x < next implies x < rank + #[trigger] count_up_to(
                        used,
                        x,
                    ) by {
                        if x >= code {
                            lemma_count_below_bounds(used, code as int + 1, x + 1);
                        }
                    }
                    lemma_count_below_bounds(used, code as int + 1, next as int + 1);
                }
                code = next;
            }
        }
        proof {
            lemma_count_one_more(used, code as int);
            if exists|i: int| 0 <= i < used.len() && used[i] == code {
                if code > 0 {
                    assert(code - 1 < rank + count_up_to(used, code - 1));
                }
            }
            lemma_count_below_bounds(used, code as int, code as int);
            lemma_code_round_trip(code as nat);
        }
        let color = ColorData {
            red: (code / 65025) as u8,
            green: ((code / 255) % 255) as u8,
            blue: (code % 255) as u8,
        };
        self.used.push(code);
        proof {
            assert(self@ =~= old(self)@.push(color));
            if old(self)@.contains(color) {
                let i = choose|i: int| 0 <= i < old(self)@.len() && old(self)@[i] == color;
                lemma_code_round_trip(used[i] as nat);
                assert(used[i] == code);
            }
            assert forall|i: int, j: int| 0 <= i < j < self.used@.len() implies self.used@[i]
                != self.used@[j] by {
                if j == used.len() {
                    assert(self.used@[i] == used[i]);
                }
            }
        }
        color
    }

    /// Gives out a color that has not been given out before, drawn by
    /// chance among all such colors.
    pub fn generate_object_trajectory_color(&mut self) -> (color: ColorData)
        requires
            old(self).wf(),
            old(self)@.len() < COLOR_COUNT,
        ensures
            final(self).wf(),
            final(self)@ == old(self)@.push(color),
            is_trajectory_color(color),
            !old(self)@.contains(color),
    {
        let free = COLOR_COUNT - self.used.len() as u32;
        let rank = random_below(free);
        self.take_free_color(rank)
    }
}

/// Distinct codes below a bound are no more than the bound.
proof fn lemma_distinct_codes_are_few(used: Seq<u32>, bound: int)
    requires
        distinct_codes(used),
        forall|i: int| 0 <= i < used.len() ==> used[i] < bound,
        bound >= 0,
    ensures
        used.len() <= bound,
    decreases bound,
{
    if bound == 0 {
        if used.len() > 0 {
            assert(used[0] < 0);
        }
    } else {
        if exists|i: int| 0 <= i < used.len() && used[i] == bound - 1 {
            let i = choose|i: int| 0 <= i < used.len() && used[i] == bound - 1;
            let rest = used.remove(i);
            assert forall|a: int, b: int| 0 <= a < b < rest.len() implies rest[a] != rest[b] by {
                let a0 = if a < i { a } else { a + 1 };
                let b0 = if b < i { b } else { b + 1 };
                assert(rest[a] == used[a0] && rest[b] == used[b0]);
            }
            assert forall|a: int| 0 <= a < rest.len() implies rest[a] < bound - 1 by {
                let a0 = if a < i { a } else { a + 1 };
                assert(rest[a] == used[a0]);
            }
            lemma_distinct_codes_are_few(rest, bound - 1);
        } else {
            assert forall|a: int| 0 <= a < used.len() implies used[a] < bound - 1 by {
                if used[a] == bound - 1 {
                    assert(false);
                }
            }
            lemma_distinct_codes_are_few(used, bound - 1);
        }
    }
}

} // verus!
