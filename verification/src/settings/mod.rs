use vstd::prelude::*;
use crate::decimal::decimal;
use crate::settings::scale::{Scale, ScaleView};
use crate::settings::speed::Speed;

pub mod scale;
pub mod speed;

verus! {

/// What the user has set: speed, scale, and whether the simulation runs.
pub struct Settings {
    speed: Speed,
    scale: Scale,
    is_running: bool,
}

/// The mathematical value of [`Settings`].
pub ghost struct SettingsView {
    pub speed: Speed,
    pub scale: ScaleView,
    pub is_running: bool,
}

impl SettingsView {
    /// The settings with which a simulation starts: paused, at the slowest
    /// speed and the default scale.
    pub open spec fn start(base_time_between_ticks: u16, default_scale: u32) -> SettingsView {
        SettingsView {
            speed: Speed::X1(base_time_between_ticks),
            scale: ScaleView { value: default_scale as nat, text: decimal(default_scale as nat) },
            is_running: false,
        }
    }
}

impl View for Settings {
    type V = SettingsView;

    closed spec fn view(&self) -> SettingsView {
        SettingsView { speed: self.speed, scale: self.scale@, is_running: self.is_running }
    }
}

impl Settings {
    pub fn new(base_time_between_ticks: u16, default_scale: u32) -> (settings: Self)
        ensures
            settings@ == SettingsView::start(base_time_between_ticks, default_scale),
    {
        Settings {
            speed: Speed::new(base_time_between_ticks),
            scale: Scale::new(default_scale),
            is_running: false,
        }
    }

    pub fn speed(&self) -> (speed: &Speed)
        ensures
            *speed == self@.speed,
    {
        &self.speed
    }

    pub fn speed_mut(&mut self) -> (speed: &mut Speed)
        ensures
            *speed == old(self)@.speed,
            final(self)@ == (SettingsView { speed: *final(speed), ..old(self)@ }),
    {
        &mut self.speed
    }

    pub fn scale(&self) -> (scale: &Scale)
        ensures
            scale@ == self@.scale,
    {
        &self.scale
    }

    pub fn scale_mut(&mut self) -> (scale: &mut Scale)
        ensures
            scale@ == old(self)@.scale,
            final(self)@ == (SettingsView { scale: final(scale)@, ..old(self)@ }),
    {
        &mut self.scale
    }

    pub fn is_running(&self) -> (running: bool)
        ensures
            running == self@.is_running,
    {
        self.is_running
    }

    pub fn toggle_running(&mut self)
        ensures
            final(self)@ == (SettingsView { is_running: !old(self)@.is_running, ..old(self)@ }),
    {
        self.is_running = !self.is_running;
    }

    /// Goes back to the settings of a starting simulation.
    pub fn reload(&mut self, base_time_between_ticks: u16, default_scale: u32)
        ensures
            final(self)@ == SettingsView::start(base_time_between_ticks, default_scale),
    {
        self.speed.reload(base_time_between_ticks);
        self.scale.reload(default_scale);
        self.is_running = false;
    }
}

} // verus!
