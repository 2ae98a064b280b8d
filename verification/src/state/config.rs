use vstd::prelude::*;

verus! {

/// The values that the program is configured with.
pub struct Config {
    /// The seconds that one tick simulates at the slowest speed.
    pub seconds_per_tick: u16,
    /// What one notch of the mouse wheel changes the scale by, at the least.
    pub base_scale_change_factor: u32,
    /// The path of the file that describes the bodies.
    pub path_to_solar_system_values: String,
    /// The scale at which one position more of each trajectory is left out of the picture.
    pub step_formation: u32,
    /// The time between two ticks, in nanoseconds.
    pub time_between_ticks_in_nanos: u16,
    /// The number of ticks that pass without a redraw.
    pub ticks_between_redraws: u32,
    /// The scale at which a simulation starts.
    pub default_scale: u32,
    /// The number of stars in the background.
    pub background_stars_count: u16,
    /// The path of the directory with the images.
    pub path_to_assets: String,
    /// The most comets that may live at a time.
    pub maximum_number_of_comets: u8,
}

impl Config {
    /// Whether a simulation can run with these values: the trajectories can
    /// be thinned out, and the seconds per tick can be doubled up to the
    /// fastest speed.
    pub open spec fn usable(&self) -> bool {
        self.step_formation > 0 && self.seconds_per_tick * 16 <= u16::MAX
    }

    pub fn is_usable(&self) -> (usable: bool)
        ensures
            usable == self.usable(),
    {
        self.step_formation > 0 && self.seconds_per_tick <= u16::MAX / 16
    }
}

} // verus!
