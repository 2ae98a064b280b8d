use vstd::prelude::*;

verus! {

/// Countdown that decides on which ticks the scene has to be drawn again.
pub struct RedrawState {
    ticks_until_redraw: u32,
    ticks_between_redraws: u32,
}

impl RedrawState {
    /// Ticks left before the next redraw.
    pub closed spec fn until_redraw(&self) -> nat {
        self.ticks_until_redraw as nat
    }

    /// Ticks skipped between two redraws.
    pub closed spec fn between_redraws(&self) -> nat {
        self.ticks_between_redraws as nat
    }

    pub fn new(ticks_between_redraws: u32) -> (state: Self)
        ensures
            state.until_redraw() == 0,
            state.between_redraws() == ticks_between_redraws,
    {
        Self { ticks_until_redraw: 0, ticks_between_redraws }
    }

    /// Says whether the current tick is drawn, and advances the countdown.
    pub fn redraw_on_tick(&mut self) -> (redraw: bool)
        ensures
            redraw == (old(self).until_redraw() == 0),
            final(self).between_redraws() == old(self).between_redraws(),
            redraw ==> final(self).until_redraw() == old(self).between_redraws(),
            !redraw ==> final(self).until_redraw() == old(self).until_redraw() - 1,
    {
        let redraw = self.ticks_until_redraw == 0;
        if redraw {
            self.ticks_until_redraw = self.ticks_between_redraws;
        } else {
            self.ticks_until_redraw = self.ticks_until_redraw - 1;
        }
        redraw
    }

    pub fn reload(&mut self)
        ensures
            final(self).until_redraw() == 0,
            final(self).between_redraws() == old(self).between_redraws(),
    {
        self.ticks_until_redraw = 0;
    }
}

} // verus!
