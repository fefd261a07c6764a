//! The screens of the console application and the switch between them.

pub mod help;
pub mod lines;
pub mod main_menu;
pub mod pokedex;
pub mod settings;

use crate::pokemon::pokemon_indexer::PokemonStatBlock;
use crate::ui::states::help::HelpState;
use crate::ui::states::main_menu::MainMenuState;
use crate::ui::states::pokedex::PokedexState;
use crate::ui::states::settings::SettingsState;
use vstd::prelude::*;

verus! {

/// The screens of the console application.
#[derive(Debug, Clone, Copy, PartialEq, Eq, Structural)]
pub enum AppState {
    /// The main menu with its counter.
    MainMenu,
    /// The pokedex.
    Pokedex,
    /// The settings.
    Settings,
    /// The help texts.
    Help,
}

/// Which screen is shown, which one was shown before, and whether the
/// application is to end.
#[derive(Debug, Clone, Copy, PartialEq, Eq, Structural)]
pub struct StateManager {
    pub current_state: AppState,
    /// The screen to go back to, if any.
    pub previous_state: Option<AppState>,
    pub should_quit: bool,
    /// The time of the last tick, as the caller counts it.
    pub last_tick: u64,
}

impl StateManager {
    /// The manager after a switch to `new_state`: the screen shown so far
    /// is the one to go back to.
    pub open spec fn switched(self, new_state: AppState) -> StateManager {
        StateManager {
            previous_state: Some(self.current_state),
            current_state: new_state,
            ..self
        }
    }

    /// The manager after going back: the screen before is shown again, and
    /// there is none to go back to any more. With no screen before, nothing
    /// changes.
    pub open spec fn gone_back(self) -> StateManager {
        match self.previous_state {
            Some(previous) => StateManager {
                current_state: previous,
                previous_state: None,
                ..self
            },
            None => self,
        }
    }

    pub open spec fn quitting(self) -> StateManager {
        StateManager { should_quit: true, ..self }
    }

    /// The manager of an application that has just started, at time `now`.
    pub fn new(now: u64) -> (manager: Self)
        ensures
            manager == (StateManager {
                current_state: AppState::MainMenu,
                previous_state: None,
                should_quit: false,
                last_tick: now,
            }),
    {
        Self {
            current_state: AppState::MainMenu,
            previous_state: None,
            should_quit: false,
            last_tick: now,
        }
    }

    /// Shows `new_state` and remembers the screen shown so far.
    pub fn switch_to(&mut self, new_state: AppState)
        ensures
            *final(self) == old(self).switched(new_state),
    {
        self.previous_state = Some(self.current_state);
        self.current_state = new_state;
    }

    /// Shows the screen before again, if there is one.
    pub fn go_back(&mut self)
        ensures
            *final(self) == old(self).gone_back(),
    {
        match self.previous_state {
            Some(previous) => {
                self.current_state = previous;
                self.previous_state = None;
            },
            None => {},
        }
    }

    pub fn switch_to_main_menu(&mut self)
        ensures
            *final(self) == old(self).switched(AppState::MainMenu),
    {
        self.switch_to(AppState::MainMenu);
    }

    pub fn switch_to_pokedex(&mut self)
        ensures
            *final(self) == old(self).switched(AppState::Pokedex),
    {
        self.switch_to(AppState::Pokedex);
    }

    pub fn switch_to_settings(&mut self)
        ensures
            *final(self) == old(self).switched(AppState::Settings),
    {
        self.switch_to(AppState::Settings);
    }

    pub fn switch_to_help(&mut self)
        ensures
            *final(self) == old(self).switched(AppState::Help),
    {
        self.switch_to(AppState::Help);
    }

    /// Asks the application to end.
    pub fn quit(&mut self)
        ensures
            *final(self) == old(self).quitting(),
    {
        self.should_quit = true;
    }

    /// Notes the time of a tick.
    pub fn tick(&mut self, now: u64)
        ensures
            *final(self) == (StateManager { last_tick: now, ..*old(self) }),
    {
        self.last_tick = now;
    }
}

/// The console application: the switch between the screens and the state
/// of each.
#[derive(Debug)]
pub struct App {
    pub state_manager: StateManager,
    pub main_menu: MainMenuState,
    pub pokedex: PokedexState,
    pub settings: SettingsState,
    pub help: HelpState,
}

impl App {
    /// Every screen is in order.
    pub open spec fn wf(&self) -> bool {
        &&& self.main_menu.wf()
        &&& self.pokedex.wf()
        &&& self.settings.wf()
        &&& self.help.wf()
    }

    /// `after` is `self` with `manager` for its switch.
    pub open spec fn managed(&self, after: &App, manager: StateManager) -> bool {
        *after == (App { state_manager: manager, ..*self })
    }

    /// The application as it starts at time `now`, on the main menu,
    /// without tables.
    pub fn new(now: u64) -> (app: Self)
        ensures
            app.wf(),
            app.state_manager == (StateManager {
                current_state: AppState::MainMenu,
                previous_state: None,
                should_quit: false,
                last_tick: now,
            }),
            app.main_menu.table is None,
            app.main_menu.counter == 0,
            app.pokedex.table is None,
    {
        Self {
            state_manager: StateManager::new(now),
            main_menu: MainMenuState::new(),
            pokedex: PokedexState::new(),
            settings: SettingsState::new(),
            help: HelpState::new(),
        }
    }

    /// The application as it starts at time `now`, with the table of names
    /// that `table` holds and the figures in `stats`.
    pub fn with_tables(now: u64, table: Option<String>, stats: Vec<(String, PokemonStatBlock)>) -> (app:
        Self)
        ensures
            app.wf(),
            app.state_manager.current_state == AppState::MainMenu,
            !app.state_manager.should_quit,
            app.main_menu.table == table,
            app.pokedex.table == table,
            app.pokedex.stats == stats,
    {
        let copy = match &table {
            Some(text) => Some(text.clone()),
            None => None,
        };
        Self {
            state_manager: StateManager::new(now),
            main_menu: MainMenuState::with_table(table),
            pokedex: PokedexState::with_tables(copy, stats),
            settings: SettingsState::new(),
            help: HelpState::new(),
        }
    }

    /// The switch between the screens.
    pub fn state_manager(&self) -> (manager: &StateManager)
        ensures
            *manager == self.state_manager,
    {
        &self.state_manager
    }

    /// The switch between the screens, to be changed in place.
    pub fn state_manager_mut(&mut self) -> (manager: &mut StateManager)
        ensures
            *manager == old(self).state_manager,
            *final(self) == (App { state_manager: *final(manager), ..*old(self) }),
    {
        &mut self.state_manager
    }

    /// The screen that is shown.
    pub fn current_state(&self) -> (state: &AppState)
        ensures
            *state == self.state_manager.current_state,
    {
        &self.state_manager.current_state
    }

    /// Whether the application is to end.
    pub fn should_quit(&self) -> (quit: bool)
        ensures
            quit == self.state_manager.should_quit,
    {
        self.state_manager.should_quit
    }

    /// Notes the time of a tick.
    pub fn tick(&mut self, now: u64)
        ensures
            old(self).managed(
                final(self),
                StateManager { last_tick: now, ..old(self).state_manager },
            ),
    {
        self.state_manager.tick(now);
    }

    pub fn switch_to_main_menu(&mut self)
        ensures
            old(self).managed(final(self), old(self).state_manager.switched(AppState::MainMenu)),
    {
        self.state_manager.switch_to_main_menu();
    }

    pub fn switch_to_pokedex(&mut self)
        ensures
            old(self).managed(final(self), old(self).state_manager.switched(AppState::Pokedex)),
    {
        self.state_manager.switch_to_pokedex();
    }

    pub fn switch_to_settings(&mut self)
        ensures
            old(self).managed(final(self), old(self).state_manager.switched(AppState::Settings)),
    {
        self.state_manager.switch_to_settings();
    }

    pub fn switch_to_help(&mut self)
        ensures
            old(self).managed(final(self), old(self).state_manager.switched(AppState::Help)),
    {
        self.state_manager.switch_to_help();
    }

    /// Shows the screen before again, if there is one.
    pub fn go_back(&mut self)
        ensures
            old(self).managed(final(self), old(self).state_manager.gone_back()),
    {
        self.state_manager.go_back();
    }

    /// Asks the application to end.
    pub fn quit(&mut self)
        ensures
            old(self).managed(final(self), old(self).state_manager.quitting()),
    {
        self.state_manager.quit();
    }
}

} // verus!
