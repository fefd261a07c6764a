//! The menu state machine: one step takes a session and an event and gives
//! the session afterwards and a request to the supervisor. It reads no
//! clock, sends no mail and touches no other session.

use crate::keys::{KeyCode, KeyEvent, KeyEventKind};
use crate::menus::auth_menu;
use crate::menus::menu_system::MenuSystem;
use crate::session::{App, AppState, AppView, AuthState, Effect, SessionEvent};
use crate::ui_tooling::text_input::InputMode;
use vstd::prelude::*;

verus! {

/// The menu state machine. It holds nothing: a session is all its state.
pub struct MenuStateMachine;

impl MenuStateMachine {
    fn leave_to_main_menu(app: &mut App)
        ensures
            final(app)@ == old(app)@.at_main_menu(),
    {
        app.state = AppState::MainMenu;
        app.selected = 0;
    }

    fn auth_choice(app: &mut App) -> (effect: Effect)
        ensures
            (final(app)@, effect@) == old(app)@.auth_choice(),
    {
        match app.auth_state {
            AuthState::InputEmail => {
                if app.selected == 0 {
                    auth_menu::input(app)
                } else if app.selected == 1 {
                    Effect::Quit
                } else {
                    Effect::Nothing
                }
            },
            AuthState::VerifyEmail => {
                if app.selected == 0 {
                    auth_menu::input(app)
                } else if app.selected == 1 {
                    auth_menu::resend_email(app)
                } else if app.selected == 2 {
                    app.auth_state = AuthState::InputEmail;
                    app.selected = 0;
                    app.strikes = 0;
                    Effect::Nothing
                } else if app.selected == 3 {
                    Self::leave_to_main_menu(app);
                    Effect::Nothing
                } else {
                    Effect::Nothing
                }
            },
            AuthState::LoggedIn => Effect::Nothing,
        }
    }

    fn enter(app: &mut App) -> (effect: Effect)
        ensures
            (final(app)@, effect@) == old(app)@.on_enter(),
    {
        match app.state {
            AppState::Auth => {
                match app.email_input.mode {
                    InputMode::Editing => {
                        let effect = if app.selected == 0 {
                            auth_menu::input(app)
                        } else {
                            Effect::Nothing
                        };
                        app.email_input.set_mode(InputMode::Normal);
                        effect
                    },
                    InputMode::Normal => Self::auth_choice(app),
                }
            },
            AppState::MainMenu => {
                if app.selected == 0 {
                    app.state = AppState::Auth;
                    app.email_input.set_mode(InputMode::Editing);
                    Effect::Nothing
                } else if app.selected == 1 {
                    app.state = AppState::Settings;
                    app.selected = 0;
                    Effect::Nothing
                } else if app.selected == 2 {
                    app.state = AppState::Pokedex;
                    app.selected = 0;
                    Effect::Nothing
                } else if app.selected == 3 {
                    Effect::Quit
                } else {
                    Effect::Nothing
                }
            },
            _ => {
                if app.selected == 3 {
                    Self::leave_to_main_menu(app);
                }
                Effect::Nothing
            },
        }
    }

    fn escape(app: &mut App) -> (effect: Effect)
        ensures
            (final(app)@, effect@) == old(app)@.on_escape(),
    {
        match app.state {
            AppState::Auth => {
                match app.email_input.mode {
                    InputMode::Editing => app.email_input.set_mode(InputMode::Normal),
                    InputMode::Normal => Self::leave_to_main_menu(app),
                }
                Effect::Nothing
            },
            AppState::MainMenu => Effect::Quit,
            _ => {
                Self::leave_to_main_menu(app);
                Effect::Nothing
            },
        }
    }

    fn tab(app: &mut App)
        ensures
            final(app)@ == old(app)@.on_tab(),
    {
        match app.state {
            AppState::Auth => {
                match app.email_input.mode {
                    InputMode::Editing => app.email_input.set_mode(InputMode::Normal),
                    InputMode::Normal => app.email_input.set_mode(InputMode::Editing),
                }
            },
            _ => {},
        }
    }

    fn move_up(app: &mut App)
        ensures
            final(app)@ == (AppView { selected: old(app)@.moved_up(), ..old(app)@ }),
    {
        if app.wrap_around {
            let size = MenuSystem::get_menu_size(app.state, app.auth_state);
            app.selected = if app.selected == 0 {
                size - 1
            } else {
                app.selected - 1
            };
        } else {
            MenuSystem::handle_up_arrow(&mut app.selected, app.state, app.auth_state);
        }
    }

    fn move_down(app: &mut App)
        ensures
            final(app)@ == (AppView { selected: old(app)@.moved_down(), ..old(app)@ }),
    {
        if app.wrap_around {
            let size = MenuSystem::get_menu_size(app.state, app.auth_state);
            app.selected = ((app.selected as u128 + 1) % (size as u128)) as usize;
        } else {
            MenuSystem::handle_down_arrow(&mut app.selected, app.state, app.auth_state);
        }
    }

    fn is_editing(app: &App) -> (editing: bool)
        ensures
            editing == app@.editing(),
    {
        match app.email_input.mode {
            InputMode::Editing => true,
            InputMode::Normal => false,
        }
    }

    fn text_key(app: &mut App, key: &KeyEvent)
        ensures
            final(app)@ == old(app)@.on_text_key(*key),
    {
        match app.state {
            AppState::Auth => {
                if Self::is_editing(app) {
                    let _ = app.email_input.handle_key(key);
                }
            },
            _ => {},
        }
    }

    fn press(app: &mut App, key: &KeyEvent) -> (effect: Effect)
        ensures
            (final(app)@, effect@) == old(app)@.on_press(*key),
    {
        match key.code {
            KeyCode::Char(c) => {
                let at_main_menu = match app.state {
                    AppState::MainMenu => true,
                    _ => false,
                };
                if c == 'q' && (key.modifiers.control || at_main_menu) {
                    Effect::Quit
                } else {
                    Self::text_key(app, key);
                    Effect::Nothing
                }
            },
            KeyCode::Up => {
                if !Self::is_editing(app) {
                    Self::move_up(app);
                }
                Effect::Nothing
            },
            KeyCode::Down => {
                if !Self::is_editing(app) {
                    Self::move_down(app);
                }
                Effect::Nothing
            },
            KeyCode::Enter => Self::enter(app),
            KeyCode::Tab => {
                Self::tab(app);
                Effect::Nothing
            },
            KeyCode::Esc => Self::escape(app),
            _ => {
                Self::text_key(app, key);
                Effect::Nothing
            },
        }
    }

    /// One step for a key event.
    pub fn handle_key(app: &mut App, key: &KeyEvent) -> (effect: Effect)
        ensures
            (final(app)@, effect@) == old(app)@.on_key(*key),
            final(app)@.selected < final(app)@.size(),
    {
        let effect = match key.kind {
            KeyEventKind::Press => Self::press(app, key),
            _ => Effect::Nothing,
        };
        MenuSystem::clamp_selection(&mut app.selected, app.state, app.auth_state);
        effect
    }

    /// One step of the state machine: `app` becomes the session after
    /// `event`, and the result says what the supervisor is to do. After
    /// every step the selection names an entry of the menu then on screen.
    pub fn next(app: &mut App, event: &SessionEvent) -> (effect: Effect)
        ensures
            (final(app)@, effect@) == old(app)@.next(event@),
            final(app)@.selected < final(app)@.size(),
    {
        match event {
            SessionEvent::Key(key) => Self::handle_key(app, key),
            SessionEvent::Resize { columns, rows } => {
                app.columns = *columns;
                app.rows = *rows;
                MenuSystem::clamp_selection(&mut app.selected, app.state, app.auth_state);
                Effect::Nothing
            },
            SessionEvent::EmailDispatched { code, delivered } => {
                auth_menu::email_dispatched(app, code.clone());
                MenuSystem::clamp_selection(&mut app.selected, app.state, app.auth_state);
                Effect::Nothing
            },
            SessionEvent::CodeChecked { matched } => {
                auth_menu::code_checked(app, *matched);
                MenuSystem::clamp_selection(&mut app.selected, app.state, app.auth_state);
                Effect::Nothing
            },
            SessionEvent::Tick => {
                MenuSystem::clamp_selection(&mut app.selected, app.state, app.auth_state);
                Effect::Nothing
            },
        }
    }
}

} // verus!
