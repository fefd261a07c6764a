//! The settings screen: theme, animations, refresh rate.

use crate::session::{wrapped_down, wrapped_up};
use crate::ui::states::lines::{lines_of, owned_lines};
use vstd::prelude::*;

verus! {

/// The colour themes on offer.
#[derive(Debug, Clone, Copy, PartialEq, Eq, Structural)]
pub enum Theme {
    Default,
    Dark,
    Light,
    Colorful,
}

/// The lowest refresh rate, in milliseconds.
pub const MIN_REFRESH_RATE: u64 = 50;

/// The highest refresh rate, in milliseconds.
pub const MAX_REFRESH_RATE: u64 = 1000;

/// By how much one step changes the refresh rate.
pub const REFRESH_RATE_STEP: u64 = 50;

/// The state of the settings screen.
#[derive(Debug)]
pub struct SettingsState {
    /// The entry the cursor is on.
    pub selected_option: usize,
    /// The entries, top to bottom.
    pub options: Vec<String>,
    pub theme: Theme,
    pub show_animations: bool,
    /// The refresh rate in milliseconds.
    pub refresh_rate: u64,
}

/// The theme that follows `theme` when themes are cycled through.
pub open spec fn next_theme(theme: Theme) -> Theme {
    match theme {
        Theme::Default => Theme::Dark,
        Theme::Dark => Theme::Light,
        Theme::Light => Theme::Colorful,
        Theme::Colorful => Theme::Default,
    }
}

/// The name a theme is shown under.
pub open spec fn theme_name(theme: Theme) -> Seq<char> {
    match theme {
        Theme::Default => "Default"@,
        Theme::Dark => "Dark"@,
        Theme::Light => "Light"@,
        Theme::Colorful => "Colorful"@,
    }
}

/// The entries of the settings menu.
pub open spec fn settings_options() -> Seq<Seq<char>> {
    seq!["Theme"@, "Animations"@, "Refresh Rate"@, "Back to Main Menu"@]
}

impl SettingsState {
    /// The menu has entries, the selection is on one of them, and the
    /// refresh rate is within its limits.
    pub open spec fn wf(&self) -> bool {
        &&& self.selected_option < self.options.len()
        &&& MIN_REFRESH_RATE <= self.refresh_rate <= MAX_REFRESH_RATE
    }

    pub fn new() -> (state: Self)
        ensures
            state.wf(),
            state.selected_option == 0,
            lines_of(state.options@) == settings_options(),
            state.theme == Theme::Default,
            state.show_animations,
            state.refresh_rate == 250,
    {
        let options = owned_lines(vec!["Theme", "Animations", "Refresh Rate", "Back to Main Menu"]);
        assert(options@.len() == lines_of(options@).len());
        Self {
            selected_option: 0,
            options,
            theme: Theme::Default,
            show_animations: true,
            refresh_rate: 250,
        }
    }

    /// Moves the selection up, around the top to the last entry.
    pub fn select_up(&mut self)
        requires
            old(self).selected_option > 0 || old(self).options@.len() > 0,
        ensures
            old(self).wf() ==> final(self).wf(),
            *final(self) == (SettingsState {
                selected_option: wrapped_up(
                    old(self).selected_option as nat,
                    old(self).options@.len(),
                ) as usize,
                ..*old(self)
            }),
    {
        self.selected_option = if self.selected_option == 0 {
            self.options.len() - 1
        } else {
            self.selected_option - 1
        };
    }

    /// Moves the selection down, around the bottom to the first entry.
    pub fn select_down(&mut self)
        requires
            old(self).options@.len() > 0,
            old(self).selected_option < usize::MAX,
        ensures
            old(self).wf() ==> final(self).wf(),
            *final(self) == (SettingsState {
                selected_option: wrapped_down(
                    old(self).selected_option as nat,
                    old(self).options@.len(),
                ) as usize,
                ..*old(self)
            }),
    {
        let count = self.options.len();
        self.selected_option = (self.selected_option + 1) % count;
    }

    /// Goes on to the next theme.
    pub fn cycle_theme(&mut self)
        ensures
            *final(self) == (SettingsState { theme: next_theme(old(self).theme), ..*old(self) }),
    {
        self.theme = match self.theme {
            Theme::Default => Theme::Dark,
            Theme::Dark => Theme::Light,
            Theme::Light => Theme::Colorful,
            Theme::Colorful => Theme::Default,
        };
    }

    /// Switches animations on or off.
    pub fn toggle_animations(&mut self)
        ensures
            *final(self) == (SettingsState {
                show_animations: !old(self).show_animations,
                ..*old(self)
            }),
    {
        self.show_animations = !self.show_animations;
    }

    /// Raises the refresh rate by one step, up to the highest rate.
    pub fn increase_refresh_rate(&mut self)
        requires
            old(self).refresh_rate + REFRESH_RATE_STEP <= u64::MAX,
        ensures
            old(self).wf() ==> final(self).wf(),
            *final(self) == (SettingsState {
                refresh_rate: if old(self).refresh_rate + REFRESH_RATE_STEP <= MAX_REFRESH_RATE {
                    (old(self).refresh_rate + REFRESH_RATE_STEP) as u64
                } else {
                    MAX_REFRESH_RATE
                },
                ..*old(self)
            }),
    {
        let raised = self.refresh_rate + REFRESH_RATE_STEP;
        self.refresh_rate = if raised <= MAX_REFRESH_RATE {
            raised
        } else {
            MAX_REFRESH_RATE
        };
    }

    /// Lowers the refresh rate by one step, down to the lowest rate.
    pub fn decrease_refresh_rate(&mut self)
        ensures
            old(self).wf() ==> final(self).wf(),
            *final(self) == (SettingsState {
                refresh_rate: if old(self).refresh_rate - REFRESH_RATE_STEP >= MIN_REFRESH_RATE {
                    (old(self).refresh_rate - REFRESH_RATE_STEP) as u64
                } else {
                    MIN_REFRESH_RATE
                },
                ..*old(self)
            }),
    {
        self.refresh_rate = if self.refresh_rate >= MIN_REFRESH_RATE + REFRESH_RATE_STEP {
            self.refresh_rate - REFRESH_RATE_STEP
        } else {
            MIN_REFRESH_RATE
        };
    }

    /// The entry the selection is on.
    pub fn get_selected_option(&self) -> (option: &str)
        requires
            self.selected_option < self.options@.len(),
        ensures
            option@ == self.options@[self.selected_option as int]@,
    {
        self.options[self.selected_option].as_str()
    }

    /// The name of the theme in use.
    pub fn get_theme_name(&self) -> (name: &'static str)
        ensures
            name@ == theme_name(self.theme),
    {
        match self.theme {
            Theme::Default => "Default",
            Theme::Dark => "Dark",
            Theme::Light => "Light",
            Theme::Colorful => "Colorful",
        }
    }
}

} // verus!
