//! Routing of console input to the screen that is shown.
//!
//! A few keys mean the same on every screen and are looked at first. Any
//! other key goes to the screen that is shown. Mouse and resize events
//! change nothing.

use crate::keys::{Event, KeyCode, KeyEvent};
use crate::session::{wrapped_down, wrapped_up};
use crate::ui::states::help::HelpState;
use crate::ui::states::main_menu::MainMenuState;
use crate::ui::states::pokedex::{number_after, number_before, FIRST_NUMBER};
use crate::ui::states::settings::{
    next_theme, SettingsState, MAX_REFRESH_RATE, MIN_REFRESH_RATE, REFRESH_RATE_STEP,
};
use crate::ui::states::{App, AppState, StateManager};
use vstd::prelude::*;

verus! {

/// Whether `key` means the same on every screen: Escape, F1, and Control
/// with `c`.
pub open spec fn is_global_shortcut(key: KeyEvent) -> bool {
    ||| key.code == KeyCode::Esc
    ||| key.code == KeyCode::F(1)
    ||| (key.code == KeyCode::Char('c') && key.modifiers.control)
}

/// The switch after a key that means the same on every screen. Escape ends
/// the application on the main menu and goes back anywhere else; F1 shows
/// the help; Control with `c` ends the application.
pub open spec fn after_shortcut(manager: StateManager, key: KeyEvent) -> StateManager {
    if key.code == KeyCode::Esc {
        if manager.current_state == AppState::MainMenu {
            manager.quitting()
        } else {
            manager.gone_back()
        }
    } else if key.code == KeyCode::F(1) {
        manager.switched(AppState::Help)
    } else {
        manager.quitting()
    }
}

/// What Enter does on the main menu, by the entry selected.
pub open spec fn main_menu_chosen(before: &App, after: &App) -> bool {
    let menu = before.main_menu;
    let choice = menu.selected_option;
    let manager = before.state_manager;
    if choice == 0 {
        &&& menu.counted(
            &after.main_menu,
            if menu.counter < u32::MAX {
                (menu.counter + 1) as u32
            } else {
                u32::MAX
            },
        )
        &&& *after == (App { main_menu: after.main_menu, ..*before })
    } else if choice == 1 {
        &&& menu.counted(
            &after.main_menu,
            if menu.counter > 0 {
                (menu.counter - 1) as u32
            } else {
                0
            },
        )
        &&& *after == (App { main_menu: after.main_menu, ..*before })
    } else if choice == 2 {
        &&& menu.counted(&after.main_menu, 0)
        &&& *after == (App { main_menu: after.main_menu, ..*before })
    } else if choice == 3 {
        before.managed(after, manager.switched(AppState::Pokedex))
    } else if choice == 4 {
        before.managed(after, manager.switched(AppState::Settings))
    } else if choice == 5 {
        before.managed(after, manager.switched(AppState::Help))
    } else if choice == 6 {
        before.managed(after, manager.quitting())
    } else {
        *after == *before
    }
}

/// What a key does on the main menu.
pub open spec fn main_menu_handled(before: &App, key: KeyEvent, after: &App) -> bool {
    let menu = before.main_menu;
    let count = menu.options@.len();
    match key.code {
        KeyCode::Up => *after == (App {
            main_menu: MainMenuState {
                selected_option: wrapped_up(
                    menu.selected_option as nat,
                    count,
                ) as usize,
                ..menu
            },
            ..*before
        }),
        KeyCode::Down => *after == (App {
            main_menu: MainMenuState {
                selected_option: wrapped_down(
                    menu.selected_option as nat,
                    count,
                ) as usize,
                ..menu
            },
            ..*before
        }),
        KeyCode::Enter => main_menu_chosen(before, after),
        _ => *after == *before,
    }
}

/// Which way a key turns the pages of the pokedex: 1 forward, -1 back, 0
/// not at all.
pub open spec fn page_turn(key: KeyEvent) -> int {
    match key.code {
        KeyCode::Up => 1,
        KeyCode::Down => -1,
        KeyCode::Char(c) => if c == '+' || c == '=' {
            1
        } else if c == '-' {
            -1
        } else {
            0
        },
        _ => 0,
    }
}

/// What a key does on the pokedex.
pub open spec fn pokedex_handled(before: &App, key: KeyEvent, after: &App) -> bool {
    let dex = before.pokedex;
    let turn = page_turn(key);
    if turn == 0 {
        *after == *before
    } else {
        &&& dex.shows(
            &after.pokedex,
            if turn > 0 {
                number_after(dex.pokemon_number)
            } else {
                number_before(dex.pokemon_number)
            },
        )
        &&& *after == (App { pokedex: after.pokedex, ..*before })
    }
}

/// The settings after Enter, by the entry selected; the last entry leads
/// back to the main menu instead.
pub open spec fn settings_chosen(before: &App, after: &App) -> bool {
    let settings = before.settings;
    let choice = settings.selected_option;
    if choice == 0 {
        *after == (App {
            settings: SettingsState {
                theme: next_theme(settings.theme),
                ..settings
            },
            ..*before
        })
    } else if choice == 1 {
        *after == (App {
            settings: SettingsState { show_animations: !settings.show_animations, ..settings },
            ..*before
        })
    } else if choice == 3 {
        before.managed(after, before.state_manager.switched(AppState::MainMenu))
    } else {
        *after == *before
    }
}

/// The refresh rate one step away from `rate`, up or down, within its
/// limits.
pub open spec fn rate_stepped(rate: u64, up: bool) -> u64 {
    if up {
        if rate + REFRESH_RATE_STEP
            <= MAX_REFRESH_RATE {
            (rate + REFRESH_RATE_STEP) as u64
        } else {
            MAX_REFRESH_RATE
        }
    } else {
        if rate - REFRESH_RATE_STEP
            >= MIN_REFRESH_RATE {
            (rate - REFRESH_RATE_STEP) as u64
        } else {
            MIN_REFRESH_RATE
        }
    }
}

/// What a key does on the settings screen.
pub open spec fn settings_handled(before: &App, key: KeyEvent, after: &App) -> bool {
    let settings = before.settings;
    let count = settings.options@.len();
    match key.code {
        KeyCode::Up => *after == (App {
            settings: SettingsState {
                selected_option: wrapped_up(
                    settings.selected_option as nat,
                    count,
                ) as usize,
                ..settings
            },
            ..*before
        }),
        KeyCode::Down => *after == (App {
            settings: SettingsState {
                selected_option: wrapped_down(
                    settings.selected_option as nat,
                    count,
                ) as usize,
                ..settings
            },
            ..*before
        }),
        KeyCode::Enter => settings_chosen(before, after),
        KeyCode::Char(c) => if (c == '+' || c == '=' || c == '-') && settings.selected_option
            == 2 {
            *after == (App {
                settings: SettingsState {
                    refresh_rate: rate_stepped(settings.refresh_rate, c != '-'),
                    ..settings
                },
                ..*before
            })
        } else {
            *after == *before
        },
        _ => *after == *before,
    }
}

/// What a key does on the help screen.
pub open spec fn help_handled(before: &App, key: KeyEvent, after: &App) -> bool {
    let help = before.help;
    let count = help.sections@.len();
    match key.code {
        KeyCode::Up => *after == (App {
            help: HelpState {
                selected_section: wrapped_up(
                    help.selected_section as nat,
                    count,
                ) as usize,
                ..help
            },
            ..*before
        }),
        KeyCode::Down => *after == (App {
            help: HelpState {
                selected_section: wrapped_down(
                    help.selected_section as nat,
                    count,
                ) as usize,
                ..help
            },
            ..*before
        }),
        KeyCode::Enter => before.managed(after, before.state_manager.gone_back()),
        _ => *after == *before,
    }
}

/// Whether the selection of a menu of `count` entries can take `code`: Up
/// from the first entry needs an entry to go round to, and Down needs an
/// entry and a selection that can still be counted up.
pub open spec fn can_move(selected: usize, count: nat, code: KeyCode) -> bool {
    match code {
        KeyCode::Up => selected > 0 || count > 0,
        KeyCode::Down => count > 0 && selected < usize::MAX,
        _ => true,
    }
}

/// Whether the application can take `event` as it stands: the screen that
/// is shown can move its selection where the event asks for that, the
/// pokedex has a page before the one shown where the event turns back, and
/// the refresh rate can still be counted up where the event raises it. Any
/// application whose screens are in order can take any event.
pub open spec fn can_handle(app: &App, event: Event) -> bool {
    match event {
        Event::Key(key) => is_global_shortcut(key) || match app.state_manager.current_state {
            AppState::MainMenu => can_move(
                app.main_menu.selected_option,
                app.main_menu.options@.len(),
                key.code,
            ),
            AppState::Pokedex => page_turn(key) < 0 ==> app.pokedex.pokemon_number >= FIRST_NUMBER,
            AppState::Settings => {
                &&& can_move(app.settings.selected_option, app.settings.options@.len(), key.code)
                &&& raises_rate(app, key) ==> app.settings.refresh_rate + REFRESH_RATE_STEP
                    <= u64::MAX
            },
            AppState::Help => can_move(
                app.help.selected_section,
                app.help.sections@.len(),
                key.code,
            ),
        },
        _ => true,
    }
}

/// Whether `key` raises the refresh rate: `+` or `=` on the entry of the
/// refresh rate.
pub open spec fn raises_rate(app: &App, key: KeyEvent) -> bool {
    key.code matches KeyCode::Char(c) && (c == '+' || c == '=') && app.settings.selected_option
        == 2
}

/// An application whose screens are in order can take any event.
pub proof fn lemma_in_order_can_handle(app: &App, event: Event)
    requires
        app.wf(),
    ensures
        can_handle(app, event),
{
}

/// What an event does to the application.
pub open spec fn handled(before: &App, event: Event, after: &App) -> bool {
    match event {
        Event::Key(key) => if is_global_shortcut(key) {
            before.managed(after, after_shortcut(before.state_manager, key))
        } else {
            match before.state_manager.current_state {
                AppState::MainMenu => main_menu_handled(before, key, after),
                AppState::Pokedex => pokedex_handled(before, key, after),
                AppState::Settings => settings_handled(before, key, after),
                AppState::Help => help_handled(before, key, after),
            }
        },
        _ => *after == *before,
    }
}

fn handle_global_shortcuts(app: &mut App, key_event: &KeyEvent) -> (taken: bool)
    ensures
        taken == is_global_shortcut(*key_event),
        taken ==> old(app).managed(final(app), after_shortcut(old(app).state_manager, *key_event)),
        !taken ==> *final(app) == *old(app),
{
    match key_event.code {
        KeyCode::Esc => {
            match app.state_manager.current_state {
                AppState::MainMenu => app.quit(),
                _ => app.go_back(),
            }
            true
        },
        KeyCode::F(n) => {
            if n == 1 {
                app.switch_to_help();
                true
            } else {
                false
            }
        },
        KeyCode::Char(c) => {
            if c == 'c' && key_event.modifiers.control {
                app.quit();
                true
            } else {
                false
            }
        },
        _ => false,
    }
}

fn handle_main_menu_selection(app: &mut App)
    ensures
        main_menu_chosen(old(app), final(app)),
{
    let choice = app.main_menu.selected_option;
    if choice == 0 {
        app.main_menu.increment_counter();
    } else if choice == 1 {
        app.main_menu.decrement_counter();
    } else if choice == 2 {
        app.main_menu.reset_counter();
    } else if choice == 3 {
        app.switch_to_pokedex();
    } else if choice == 4 {
        app.switch_to_settings();
    } else if choice == 5 {
        app.switch_to_help();
    } else if choice == 6 {
        app.quit();
    }
}

fn handle_main_menu_input(app: &mut App, key_event: &KeyEvent)
    requires
        can_move(
            old(app).main_menu.selected_option,
            old(app).main_menu.options@.len(),
            key_event.code,
        ),
    ensures
        old(app).wf() ==> final(app).wf(),
        main_menu_handled(old(app), *key_event, final(app)),
{
    match key_event.code {
        KeyCode::Up => app.main_menu.select_up(),
        KeyCode::Down => app.main_menu.select_down(),
        KeyCode::Enter => handle_main_menu_selection(app),
        _ => {},
    }
}

fn handle_pokedex_input(app: &mut App, key_event: &KeyEvent)
    requires
        page_turn(*key_event) < 0 ==> old(app).pokedex.pokemon_number >= FIRST_NUMBER,
    ensures
        old(app).wf() ==> final(app).wf(),
        pokedex_handled(old(app), *key_event, final(app)),
{
    match key_event.code {
        KeyCode::Up => app.pokedex.increment_number(),
        KeyCode::Down => app.pokedex.decrement_number(),
        KeyCode::Char(c) => {
            if c == '+' || c == '=' {
                app.pokedex.increment_number();
            } else if c == '-' {
                app.pokedex.decrement_number();
            }
        },
        _ => {},
    }
}

fn handle_settings_selection(app: &mut App)
    ensures
        old(app).wf() ==> final(app).wf(),
        settings_chosen(old(app), final(app)),
{
    let choice = app.settings.selected_option;
    if choice == 0 {
        app.settings.cycle_theme();
    } else if choice == 1 {
        app.settings.toggle_animations();
    } else if choice == 3 {
        app.switch_to_main_menu();
    }
}

fn handle_settings_input(app: &mut App, key_event: &KeyEvent)
    requires
        can_move(
            old(app).settings.selected_option,
            old(app).settings.options@.len(),
            key_event.code,
        ),
        raises_rate(old(app), *key_event) ==> old(app).settings.refresh_rate + REFRESH_RATE_STEP
            <= u64::MAX,
    ensures
        old(app).wf() ==> final(app).wf(),
        settings_handled(old(app), *key_event, final(app)),
{
    match key_event.code {
        KeyCode::Up => app.settings.select_up(),
        KeyCode::Down => app.settings.select_down(),
        KeyCode::Enter => handle_settings_selection(app),
        KeyCode::Char(c) => {
            if app.settings.selected_option == 2 {
                if c == '+' || c == '=' {
                    app.settings.increase_refresh_rate();
                } else if c == '-' {
                    app.settings.decrease_refresh_rate();
                }
            }
        },
        _ => {},
    }
}

fn handle_help_input(app: &mut App, key_event: &KeyEvent)
    requires
        can_move(
            old(app).help.selected_section,
            old(app).help.sections@.len(),
            key_event.code,
        ),
    ensures
        old(app).wf() ==> final(app).wf(),
        help_handled(old(app), *key_event, final(app)),
{
    match key_event.code {
        KeyCode::Up => app.help.select_up(),
        KeyCode::Down => app.help.select_down(),
        KeyCode::Enter => app.go_back(),
        _ => {},
    }
}

/// Takes one event of the console: a key that means the same everywhere
/// is acted on at once, any other key goes to the screen that is shown,
/// and anything that is no key is passed over.
pub fn handle_input(app: &mut App, event: Event)
    requires
        can_handle(old(app), event),
    ensures
        old(app).wf() ==> final(app).wf(),
        handled(old(app), event, final(app)),
{
    match event {
        Event::Key(key_event) => {
            if handle_global_shortcuts(app, &key_event) {
                return ;
            }
            match app.state_manager.current_state {
                AppState::MainMenu => handle_main_menu_input(app, &key_event),
                AppState::Pokedex => handle_pokedex_input(app, &key_event),
                AppState::Settings => handle_settings_input(app, &key_event),
                AppState::Help => handle_help_input(app, &key_event),
            }
        },
        _ => {},
    }
}

} // verus!
