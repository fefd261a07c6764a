//! One place that knows which menu each screen shows. Both the state
//! machine and the renderer look their menus up here.

use crate::session::{menu_size, selection_clamped, selection_down, selection_up, AppState, AuthState};
use vstd::prelude::*;

verus! {

/// A menu: its entries, top to bottom, and its title.
pub struct Menu {
    pub items: Vec<&'static str>,
    pub title: &'static str,
}

impl Menu {
    /// The entries as character sequences.
    pub open spec fn labels(self) -> Seq<Seq<char>> {
        Seq::new(self.items@.len(), |i: int| self.items@[i]@)
    }

    pub fn new(items: Vec<&'static str>, title: &'static str) -> (menu: Self)
        ensures
            menu.items == items,
            menu.title == title,
    {
        Self { items, title }
    }

    pub fn len(&self) -> (n: usize)
        ensures
            n == self.items@.len(),
    {
        self.items.len()
    }

    pub fn is_empty(&self) -> (empty: bool)
        ensures
            empty == (self.items@.len() == 0),
    {
        self.items.len() == 0
    }
}

/// The entries of the menu that `(app_state, auth_state)` shows.
pub open spec fn menu_labels(app_state: AppState, auth_state: AuthState) -> Seq<Seq<char>> {
    match app_state {
        AppState::MainMenu => seq!["Start"@, "Settings"@, "Pokedex"@, "Quit"@],
        AppState::Settings => seq!["Option 1"@, "Option 2"@, "Option 3"@, "Back"@],
        AppState::Pokedex => seq!["Search Pokemon"@, "View All"@, "Favorites"@, "Back"@],
        AppState::Auth => match auth_state {
            AuthState::InputEmail => seq!["Send Verification Email"@, "Exit"@],
            AuthState::VerifyEmail => seq!["Submit"@, "Resend Email"@, "Change Email"@, "Exit"@],
            AuthState::LoggedIn => seq!["Continue"@, "Logout"@],
        },
    }
}

/// The title of the menu that `(app_state, auth_state)` shows.
pub open spec fn menu_title(app_state: AppState, auth_state: AuthState) -> Seq<char> {
    match app_state {
        AppState::MainMenu => "Main Menu"@,
        AppState::Settings => "Settings"@,
        AppState::Pokedex => "Pokedex"@,
        AppState::Auth => match auth_state {
            AuthState::InputEmail => "Email Input"@,
            AuthState::VerifyEmail => "Verification"@,
            AuthState::LoggedIn => "Logged In"@,
        },
    }
}

/// Every menu has as many entries as [`menu_size`] says.
pub proof fn lemma_menu_labels_len(app_state: AppState, auth_state: AuthState)
    ensures
        menu_labels(app_state, auth_state).len() == menu_size(app_state, auth_state),
        menu_size(app_state, auth_state) > 0,
{
}

/// Centralized menu management.
pub struct MenuSystem;

impl MenuSystem {
    /// The menu that the given state shows.
    pub fn get_current_menu(app_state: AppState, auth_state: AuthState) -> (menu: Menu)
        ensures
            menu.labels() == menu_labels(app_state, auth_state),
            menu.title@ == menu_title(app_state, auth_state),
            menu.items@.len() == menu_size(app_state, auth_state),
    {
        let menu = match app_state {
            AppState::MainMenu => Menu::new(vec!["Start", "Settings", "Pokedex", "Quit"], "Main Menu"),
            AppState::Settings => Menu::new(
                vec!["Option 1", "Option 2", "Option 3", "Back"],
                "Settings",
            ),
            AppState::Pokedex => Menu::new(
                vec!["Search Pokemon", "View All", "Favorites", "Back"],
                "Pokedex",
            ),
            AppState::Auth => match auth_state {
                AuthState::InputEmail => Menu::new(
                    vec!["Send Verification Email", "Exit"],
                    "Email Input",
                ),
                AuthState::VerifyEmail => Menu::new(
                    vec!["Submit", "Resend Email", "Change Email", "Exit"],
                    "Verification",
                ),
                AuthState::LoggedIn => Menu::new(vec!["Continue", "Logout"], "Logged In"),
            },
        };
        menu
    }

    /// The number of entries of the current menu.
    pub fn get_menu_size(app_state: AppState, auth_state: AuthState) -> (size: usize)
        ensures
            size == menu_size(app_state, auth_state),
    {
        match app_state {
            AppState::Auth => match auth_state {
                AuthState::VerifyEmail => 4,
                _ => 2,
            },
            _ => 4,
        }
    }

    /// Whether the current menu has an entry `selection`.
    pub fn is_valid_selection(selection: usize, app_state: AppState, auth_state: AuthState) -> (valid:
        bool)
        ensures
            valid == (selection < menu_size(app_state, auth_state)),
    {
        selection < Self::get_menu_size(app_state, auth_state)
    }

    /// Brings the selection into the range of the current menu.
    pub fn clamp_selection(selection: &mut usize, app_state: AppState, auth_state: AuthState)
        ensures
            *final(selection) == selection_clamped(
                *old(selection) as nat,
                menu_size(app_state, auth_state),
            ),
            *final(selection) < menu_size(app_state, auth_state),
    {
        let size = Self::get_menu_size(app_state, auth_state);
        if *selection >= size {
            *selection = size - 1;
        }
    }

    /// Puts the selection on the first entry, as every change of menu does.
    pub fn reset_selection_for_state_change(
        selection: &mut usize,
        app_state: AppState,
        auth_state: AuthState,
    )
        ensures
            *final(selection) == 0,
    {
        *selection = 0;
    }

    /// Moves the selection one entry up; on the first entry it stays.
    pub fn handle_up_arrow(selection: &mut usize, app_state: AppState, auth_state: AuthState)
        ensures
            *final(selection) == selection_up(*old(selection) as nat),
    {
        if *selection > 0 {
            *selection -= 1;
        }
    }

    /// Moves the selection one entry down; on the last entry it stays.
    pub fn handle_down_arrow(selection: &mut usize, app_state: AppState, auth_state: AuthState)
        ensures
            *final(selection) == selection_down(
                *old(selection) as nat,
                menu_size(app_state, auth_state),
            ),
    {
        let size = Self::get_menu_size(app_state, auth_state);
        if *selection < size - 1 {
            *selection += 1;
        }
    }
}

} // verus!
