use vstd::prelude::*;
use vstd::string::StringExecFns;
use crate::comets::CometPossibleValues;
use crate::decimal::{decimal, parse_number, parsed_number};
use crate::input::{trim, trimmed};
use crate::movement::MovementStep;
use crate::objects::comet::CometBody;
use crate::objects::planet::Planet;
use crate::objects::sun::Sun;
use crate::objects::{PlanetStart, PlanetStep};
use crate::redraw::RedrawState;
use crate::settings::scale::ScaleView;
use crate::settings::speed::Speed;
use crate::settings::{Settings, SettingsView};
use crate::space::SpaceState;
use crate::state::config::Config;
use crate::state::view::{PanelsView, ViewState};
use crate::time::{Moment, Time};

pub mod config;
pub mod system_position;
pub mod view;

verus! {

/// What has to be drawn again after a command.
#[derive(Clone, Copy, PartialEq, Eq, Structural, Debug)]
pub enum Redraw {
    Nothing,
    /// The bodies and their trajectories.
    System,
    /// The bodies, their trajectories and the background.
    All,
}

/// Whether the seconds per tick can be doubled up to the fastest speed.
pub open spec fn speed_can_double(speed: Speed) -> bool {
    match speed {
        Speed::X1(seconds) => seconds * 16 <= u16::MAX,
        Speed::X2(seconds) => seconds * 8 <= u16::MAX,
        Speed::X4(seconds) => seconds * 4 <= u16::MAX,
        Speed::X8(seconds) => seconds * 2 <= u16::MAX,
        Speed::X16(_) => true,
    }
}

/// How many positions of each trajectory the picture leaves out between
/// two that it draws, plus one: it grows with the scale.
pub open spec fn trajectory_step(config: Config, scale: nat) -> nat {
    scale / (config.step_formation as nat) + 1
}

/// What `notches` notches of the mouse wheel change the scale by.
pub open spec fn scale_change_amount(config: Config, scale: nat, notches: int) -> nat {
    (config.base_scale_change_factor * trajectory_step(config, scale) * (if notches >= 0 {
        notches
    } else {
        -notches
    })) as nat
}

/// The scale after the mouse wheel has been turned: towards the user the
/// scale gets smaller and the picture larger, away from the user the other
/// way round. `None` where the new scale would be no positive number of 32 bits.
pub open spec fn changed_scale(config: Config, scale: nat, notches: int) -> Option<u32> {
    let amount = scale_change_amount(config, scale, notches);
    if notches > 0 {
        if scale - amount >= 1 {
            Some((scale - amount) as u32)
        } else {
            None
        }
    } else {
        if scale + amount <= u32::MAX {
            Some((scale + amount) as u32)
        } else {
            None
        }
    }
}

/// Everything that the simulation knows: the clock, the settings, the
/// bodies, the open panels, the configuration and the redraw countdown.
pub struct State<C, V, P> {
    pub view: ViewState,
    pub time: Time,
    pub settings: Settings,
    pub space: SpaceState<C, V, P>,
    pub config: Config,
    pub redraw: RedrawState,
}

impl<C: Copy, V: Copy, P: Copy> State<C, V, P> {
    pub open spec fn wf(&self) -> bool {
        &&& self.view.wf()
        &&& self.time.wf()
        &&& self.space.wf()
        &&& self.config.usable()
        &&& speed_can_double(self.settings@.speed)
    }

    /// The state in which a program starts: the clock at the start, paused,
    /// at the slowest speed and the default scale, without comets.
    pub fn new(
        config: Config,
        sun: Sun<C, P>,
        planets: Vec<Planet<C, V, P>>,
        comet_possible_values: CometPossibleValues,
    ) -> (state: Self)
        requires
            config.usable(),
            forall|i: int| 0 <= i < planets@.len() ==> planets@[i].wf(),
            comet_possible_values@.fits(config.maximum_number_of_comets as nat),
        ensures
            state.wf(),
            state.config == config,
            state.time@ == Moment::start(),
            state.settings@ == SettingsView::start(config.seconds_per_tick, config.default_scale),
            state.redraw.until_redraw() == 0,
            state.redraw.between_redraws() == config.ticks_between_redraws,
            state.space@.sun == sun@,
            state.space@.planets == crate::space::planet_views(planets@),
            state.space@.comets.comets.len() == 0,
            state.view@.planet_names == Seq::new(planets@.len(), |i: int| planets@[i]@.name),
            state.view@.planets_views_opened,
            state.view@.comets_views_opened,
            state.view@.scale_input_correct,
            forall|i: int| 0 <= i < planets@.len() ==> !state.view@.satellites_views_opened[i],
    {
        let mut names: Vec<String> = Vec::new();
        let mut i: usize = 0;
        while i < planets.len()
            invariant
                i <= planets@.len(),
                names@.len() == i,
                forall|k: int| 0 <= k < i ==> names@[k]@ == planets@[k]@.name,
            decreases planets@.len() - i,
        {
            names.push(String::from_str(planets[i].name()));
            i = i + 1;
        }
        let settings = Settings::new(config.seconds_per_tick, config.default_scale);
        let redraw = RedrawState::new(config.ticks_between_redraws);
        let space = SpaceState::new(
            sun,
            planets,
            comet_possible_values,
            config.maximum_number_of_comets,
        );
        let view = ViewState::new(names);
        assert(view@.planet_names =~= Seq::new(planets@.len(), |i: int| planets@[i]@.name));
        State { view, time: Time::new(), settings, space, config, redraw }
    }

    /// Whether [`Self::step`] fits into 32 bits.
    pub fn has_step(&self) -> (fits: bool)
        requires
            self.wf(),
        ensures
            fits == (trajectory_step(self.config, self.settings@.scale.value) <= u32::MAX),
    {
        self.settings.scale().value() / self.config.step_formation < u32::MAX
    }

    /// How many positions of each trajectory the picture steps over at the
    /// current scale.
    pub fn step(&self) -> (step: u32)
        requires
            self.wf(),
            trajectory_step(self.config, self.settings@.scale.value) <= u32::MAX,
        ensures
            step == trajectory_step(self.config, self.settings@.scale.value),
            step > 0,
    {
        self.settings.scale().value() / self.config.step_formation + 1
    }

    /// Whether the clock can take one more tick at the current speed.
    pub fn can_update(&self) -> (possible: bool)
        requires
            self.wf(),
        ensures
            possible == (self.time@.after_seconds(self.settings@.speed.seconds()).year
                <= u16::MAX),
    {
        self.time.can_add_seconds(self.settings.speed().value())
    }

    /// One tick. Every moving body makes its step; then the comets that
    /// have crashed are removed, the clock goes on by the seconds that a
    /// tick simulates at the current speed, and the redraw countdown
    /// advances. The result says whether the picture has to be drawn again.
    ///
    /// `overlaps` tells which circles have a point in common once the
    /// bodies have made their steps (see
    /// [`SpaceState::remove_crashed_comets`]).
    pub fn update(
        &mut self,
        planet_steps: &Vec<PlanetStep<V, P>>,
        comet_steps: &Vec<MovementStep<V, P>>,
        overlaps: &Vec<Vec<bool>>,
    ) -> (redraw: bool)
        requires
            old(self).wf(),
            old(self).space@.steps_fit(planet_steps@, comet_steps@),
            old(self).space@.overlaps_fit(overlaps@),
            old(self).time@.after_seconds(old(self).settings@.speed.seconds()).year <= u16::MAX,
        ensures
            final(self).wf(),
            final(self).space@ == old(self).space@.moved(planet_steps@, comet_steps@).swept(
                overlaps@,
            ),
            final(self).time@ == old(self).time@.after_seconds(old(self).settings@.speed.seconds()),
            redraw == (old(self).redraw.until_redraw() == 0),
            final(self).redraw.between_redraws() == old(self).redraw.between_redraws(),
            final(self).redraw.until_redraw() == if redraw {
                old(self).redraw.between_redraws()
            } else {
                (old(self).redraw.until_redraw() - 1) as nat
            },
            final(self).settings@ == old(self).settings@,
            final(self).view@ == old(self).view@,
            final(self).config == old(self).config,
    {
        self.space.move_objects(planet_steps, comet_steps);
        self.space.remove_crashed_comets(overlaps);
        self.time.add_seconds(self.settings.speed().value());
        self.redraw.redraw_on_tick()
    }

    /// Changes the scale by `scale_change` notches of the mouse wheel. Where
    /// the new scale is out of range, the scale stays and the scale input
    /// is marked as wrong.
    pub fn change_scale(&mut self, scale_change: i16) -> (redraw: Redraw)
        requires
            old(self).wf(),
        ensures
            final(self).wf(),
            final(self).time == old(self).time,
            final(self).space == old(self).space,
            final(self).config == old(self).config,
            final(self).redraw == old(self).redraw,
            match changed_scale(
                old(self).config,
                old(self).settings@.scale.value,
                scale_change as int,
            ) {
                Some(scale) => {
                    &&& redraw == Redraw::System
                    &&& final(self).view@ == old(self).view@
                    &&& final(self).settings@ == (SettingsView {
                        scale: ScaleView { value: scale as nat, text: decimal(scale as nat) },
                        ..old(self).settings@
                    })
                },
                None => {
                    &&& redraw == Redraw::Nothing
                    &&& final(self).settings@ == old(self).settings@
                    &&& final(self).view@ == (PanelsView {
                        scale_input_correct: false,
                        ..old(self).view@
                    })
                },
            },
    {
        let scale: u64 = self.settings.scale().value() as u64;
        let step: u64 = scale / (self.config.step_formation as u64) + 1;
        let base: u64 = self.config.base_scale_change_factor as u64;
        assert(base * step <= u64::MAX) by (nonlinear_arith)
            requires
                base <= u32::MAX,
                step <= u32::MAX + 1,
        ;
        let factor: u64 = base * step;
        let notches: u64 = if scale_change >= 0 {
            scale_change as u64
        } else {
            (-(scale_change as i32)) as u64
        };
        let ghost amount = scale_change_amount(
            self.config,
            self.settings@.scale.value,
            scale_change as int,
        );
        assert(amount == factor * notches) by (nonlinear_arith)
            requires
                amount == self.config.base_scale_change_factor * step * notches,
                factor == base * step,
                base == self.config.base_scale_change_factor,
        ;
        let new_scale: Option<u32> = match factor.checked_mul(notches) {
            Some(change) => {
                if scale_change > 0 {
                    if change < scale {
                        Some((scale - change) as u32)
                    } else {
                        None
                    }
                } else if change <= u32::MAX as u64 - scale {
                    Some((scale + change) as u32)
                } else {
                    None
                }
            },
            None => None,
        };
        match new_scale {
            Some(scale) => {
                self.settings.scale_mut().set(scale);
                Redraw::System
            },
            None => {
                self.view.set_incorrect_scale_color();
                Redraw::Nothing
            },
        }
    }

    /// Takes what the user has typed into the scale input. Where its text,
    /// without the white space at its ends, is a number, the input is
    /// marked as right and the number, unless it is zero, becomes the
    /// scale; where it is not, the input is marked as wrong. Either way the
    /// input shows what was typed.
    pub fn set_scale_from_input(&mut self, scale_string: String) -> (redraw: Redraw)
        requires
            old(self).wf(),
        ensures
            final(self).wf(),
            final(self).time == old(self).time,
            final(self).space == old(self).space,
            final(self).config == old(self).config,
            final(self).redraw == old(self).redraw,
            redraw == Self::redraw_after_input(parsed_number(trimmed(scale_string@))),
            final(self).view@ == Self::panels_after_input(
                old(self).view@,
                parsed_number(trimmed(scale_string@)),
            ),
            final(self).settings@ == Self::settings_after_input(
                old(self).settings@,
                parsed_number(trimmed(scale_string@)),
                scale_string@,
            ),
    {
        let parsed = parse_number(trim(scale_string.as_str()));
        self.set_scale_from_parsed(parsed, scale_string)
    }

    /// What has to be drawn again after the scale input has changed.
    pub open spec fn redraw_after_input(parsed: Option<u32>) -> Redraw {
        if parsed is Some {
            Redraw::System
        } else {
            Redraw::Nothing
        }
    }

    /// The panels after the scale input has changed.
    pub open spec fn panels_after_input(panels: PanelsView, parsed: Option<u32>) -> PanelsView {
        PanelsView { scale_input_correct: parsed is Some, ..panels }
    }

    /// The settings after the scale input has changed to `text`.
    pub open spec fn settings_after_input(
        settings: SettingsView,
        parsed: Option<u32>,
        text: Seq<char>,
    ) -> SettingsView {
        SettingsView {
            scale: ScaleView {
                value: match parsed {
                    Some(scale) => if scale > 0 {
                        scale as nat
                    } else {
                        settings.scale.value
                    },
                    None => settings.scale.value,
                },
                text,
            },
            ..settings
        }
    }

    /// Takes the number that was read from the scale input, if one was, and
    /// the text of the input as it was typed.
    pub fn set_scale_from_parsed(&mut self, parsed: Option<u32>, scale_string: String) -> (redraw:
        Redraw)
        requires
            old(self).wf(),
        ensures
            final(self).wf(),
            final(self).time == old(self).time,
            final(self).space == old(self).space,
            final(self).config == old(self).config,
            final(self).redraw == old(self).redraw,
            redraw == Self::redraw_after_input(parsed),
            final(self).view@ == Self::panels_after_input(old(self).view@, parsed),
            final(self).settings@ == Self::settings_after_input(
                old(self).settings@,
                parsed,
                scale_string@,
            ),
    {
        let redraw = match parsed {
            Some(scale) => {
                self.settings.scale_mut().set_value(scale);
                self.view.set_correct_scale_color();
                Redraw::System
            },
            None => {
                self.view.set_incorrect_scale_color();
                Redraw::Nothing
            },
        };
        self.settings.scale_mut().set_string_value(scale_string);
        redraw
    }

    /// Starts the simulation if it is paused and pauses it if it runs.
    pub fn toggle_play_pause(&mut self)
        requires
            old(self).wf(),
        ensures
            final(self).wf(),
            final(self).settings@ == (SettingsView {
                is_running: !old(self).settings@.is_running,
                ..old(self).settings@
            }),
            final(self).view == old(self).view,
            final(self).time == old(self).time,
            final(self).space == old(self).space,
            final(self).config == old(self).config,
            final(self).redraw == old(self).redraw,
    {
        self.settings.toggle_running();
    }

    /// Makes the simulation run at the next faster speed.
    pub fn increase_speed(&mut self)
        requires
            old(self).wf(),
        ensures
            final(self).wf(),
            final(self).settings@ == (SettingsView {
                speed: old(self).settings@.speed.faster(),
                ..old(self).settings@
            }),
            final(self).view == old(self).view,
            final(self).time == old(self).time,
            final(self).space == old(self).space,
            final(self).config == old(self).config,
            final(self).redraw == old(self).redraw,
    {
        self.settings.speed_mut().set_next();
    }

    /// Makes the simulation run at the next slower speed.
    pub fn decrease_speed(&mut self)
        requires
            old(self).wf(),
        ensures
            final(self).wf(),
            final(self).settings@ == (SettingsView {
                speed: old(self).settings@.speed.slower(),
                ..old(self).settings@
            }),
            final(self).view == old(self).view,
            final(self).time == old(self).time,
            final(self).space == old(self).space,
            final(self).config == old(self).config,
            final(self).redraw == old(self).redraw,
    {
        self.settings.speed_mut().set_previous();
    }

    /// Whether a comet can be added: there is room for one, and a number left for it.
    pub fn can_add_comet(&self) -> (possible: bool)
        ensures
            possible == (!self.space@.comets.is_full() && self.space@.comets.next_number
                < u16::MAX),
    {
        self.space.comets().can_add()
    }

    /// Adds a comet (see [`SpaceState::add_new_comet`]).
    pub fn add_comet(&mut self, body: CometBody<C, V, P>) -> (number: Option<u16>)
        requires
            old(self).wf(),
            !old(self).space@.comets.is_full() ==> old(self).space@.comets.next_number < u16::MAX,
        ensures
            final(self).wf(),
            final(self).view == old(self).view,
            final(self).time == old(self).time,
            final(self).settings == old(self).settings,
            final(self).config == old(self).config,
            final(self).redraw == old(self).redraw,
            old(self).space@.comets.is_full() ==> number is None && final(self).space@ == old(
                self,
            ).space@,
            !old(self).space@.comets.is_full() ==> number == Some(
                old(self).space@.comets.next_number as u16,
            ) && exists|color_rank: nat, image_rank: nat|
                {
                    &&& color_rank < old(self).space@.comets.free_colors()
                    &&& image_rank < old(self).space@.comets.free_images()
                    &&& final(self).space@ == #[trigger] old(self).space@.added_with(
                        color_rank,
                        image_rank,
                        body,
                    )
                },
    {
        self.space.add_new_comet(body)
    }

    /// Removes the comet at `index`; nothing happens where there is none.
    pub fn delete_comet(&mut self, index: u8)
        requires
            old(self).wf(),
        ensures
            final(self).wf(),
            final(self).space@ == old(self).space@.deleted(index as int),
            final(self).view == old(self).view,
            final(self).time == old(self).time,
            final(self).settings == old(self).settings,
            final(self).config == old(self).config,
            final(self).redraw == old(self).redraw,
    {
        self.space.delete_comet(index);
    }

    /// Puts the simulation back to its start: the clock, the settings, the
    /// bodies and the redraw countdown. The panels stay as they are.
    pub fn reload(&mut self, starts: &Vec<PlanetStart<V, P>>) -> (redraw: Redraw)
        requires
            old(self).wf(),
            old(self).space@.starts_fit(starts@),
        ensures
            final(self).wf(),
            redraw == Redraw::All,
            final(self).time@ == Moment::start(),
            final(self).settings@ == SettingsView::start(
                old(self).config.seconds_per_tick,
                old(self).config.default_scale,
            ),
            final(self).space@ == old(self).space@.reloaded(starts@),
            final(self).redraw.until_redraw() == 0,
            final(self).redraw.between_redraws() == old(self).redraw.between_redraws(),
            final(self).view == old(self).view,
            final(self).config == old(self).config,
    {
        self.time.restart();
        self.settings.reload(self.config.seconds_per_tick, self.config.default_scale);
        self.space.reload(starts);
        self.redraw.reload();
        Redraw::All
    }

    /// Opens or closes the list of planets.
    pub fn planets_view_toggle(&mut self)
        ensures
            final(self).view@ == (PanelsView {
                planets_views_opened: !old(self).view@.planets_views_opened,
                ..old(self).view@
            }),
            final(self).time == old(self).time,
            final(self).settings == old(self).settings,
            final(self).space == old(self).space,
            final(self).config == old(self).config,
            final(self).redraw == old(self).redraw,
    {
        self.view.toggle_planets_view();
    }

    /// Opens or closes the list of comets.
    pub fn comets_view_toggle(&mut self)
        ensures
            final(self).view@ == (PanelsView {
                comets_views_opened: !old(self).view@.comets_views_opened,
                ..old(self).view@
            }),
            final(self).time == old(self).time,
            final(self).settings == old(self).settings,
            final(self).space == old(self).space,
            final(self).config == old(self).config,
            final(self).redraw == old(self).redraw,
    {
        self.view.toggle_comets_view();
    }

    /// Opens or closes the list of the satellites of the planet called `planet_name`.
    pub fn satellites_view_toggle(&mut self, planet_name: String)
        requires
            old(self).view.wf(),
        ensures
            final(self).view@ == old(self).view@.toggled(planet_name@),
            final(self).view.wf(),
            final(self).time == old(self).time,
            final(self).settings == old(self).settings,
            final(self).space == old(self).space,
            final(self).config == old(self).config,
            final(self).redraw == old(self).redraw,
    {
        self.view.toggle_satellites_view(planet_name);
    }
}

} // verus!
