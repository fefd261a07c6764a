//! The main menu of the console application: a counter, the name filed
//! under the counter's value, and the menu itself.

use crate::pokemon::pokemon_indexer::{get_pokemon_by_number, name_by_number};
use crate::ui::states::lines::{labels_of, lines_of, owned_lines};
use crate::session::{wrapped_down, wrapped_up};
use vstd::prelude::*;
use vstd::string::*;

verus! {

/// The state of the main menu.
#[derive(Debug)]
pub struct MainMenuState {
    pub counter: u32,
    /// The name filed under the counter's value, as of the last update.
    pub pokemon: String,
    /// The entry the cursor is on.
    pub selected_option: usize,
    /// The entries, top to bottom.
    pub options: Vec<String>,
    /// The table of names as JSON text; `None` where it could not be read.
    pub table: Option<String>,
}

/// The entries of the main menu.
pub open spec fn main_menu_options() -> Seq<&'static str> {
    seq![
        "Increment Counter",
        "Decrement Counter",
        "Reset Counter",
        "Open Pokedex",
        "Settings",
        "Help",
        "Quit",
    ]
}

/// The text of a table that a state keeps, as the specifications see it.
pub open spec fn table_text(table: Option<String>) -> Option<Seq<char>> {
    match table {
        Some(text) => Some(text@),
        None => None,
    }
}

/// The number under which the name for `counter` is filed.
pub open spec fn number_of(counter: u32) -> i32 {
    counter as i32
}

/// Looks a name up in a table that a state keeps.
pub fn name_from_table(table: &Option<String>, number: i32) -> (name: String)
    ensures
        name@ == name_by_number(table_text(*table), number),
{
    match table {
        Some(text) => get_pokemon_by_number(Some(text.as_str()), number),
        None => get_pokemon_by_number(None, number),
    }
}

impl MainMenuState {
    /// The menu has entries and the selection is on one of them.
    pub open spec fn wf(&self) -> bool {
        self.selected_option < self.options.len()
    }

    /// The state with the counter at `counter` and the name that belongs
    /// to it; all else as in `self`.
    pub open spec fn counted(&self, after: &MainMenuState, counter: u32) -> bool {
        &&& after.counter == counter
        &&& after.pokemon@ == name_by_number(table_text(self.table), number_of(counter))
        &&& after.selected_option == self.selected_option
        &&& after.options == self.options
        &&& after.table == self.table
    }

    /// The main menu without a table of names: the counter at zero, no
    /// name yet, the first entry selected.
    pub fn new() -> (state: Self)
        ensures
            state.wf(),
            state.counter == 0,
            state.pokemon@ == "None"@,
            state.selected_option == 0,
            lines_of(state.options@) == labels_of(main_menu_options()),
            state.table is None,
    {
        Self::with_table(None)
    }

    /// The main menu with the table of names that `table` holds.
    pub fn with_table(table: Option<String>) -> (state: Self)
        ensures
            state.wf(),
            state.counter == 0,
            state.pokemon@ == "None"@,
            state.selected_option == 0,
            lines_of(state.options@) == labels_of(main_menu_options()),
            state.table == table,
    {
        let items = vec![
            "Increment Counter",
            "Decrement Counter",
            "Reset Counter",
            "Open Pokedex",
            "Settings",
            "Help",
            "Quit",
        ];
        let options = owned_lines(items);
        assert(options@.len() == lines_of(options@).len());
        Self { counter: 0, pokemon: String::from_str("None"), selected_option: 0, options, table }
    }

    /// Counts one up, stopping at the highest value, and looks the name up.
    pub fn increment_counter(&mut self)
        ensures
            old(self).counted(
                final(self),
                if old(self).counter < u32::MAX {
                    (old(self).counter + 1) as u32
                } else {
                    u32::MAX
                },
            ),
    {
        self.counter = if self.counter < u32::MAX {
            self.counter + 1
        } else {
            u32::MAX
        };
        self.update_pokemon();
    }

    /// Counts one down, stopping at zero, and looks the name up.
    pub fn decrement_counter(&mut self)
        ensures
            old(self).counted(
                final(self),
                if old(self).counter > 0 {
                    (old(self).counter - 1) as u32
                } else {
                    0
                },
            ),
    {
        self.counter = if self.counter > 0 {
            self.counter - 1
        } else {
            0
        };
        self.update_pokemon();
    }

    /// Puts the counter back to zero and looks the name up.
    pub fn reset_counter(&mut self)
        ensures
            old(self).counted(final(self), 0),
    {
        self.counter = 0;
        self.update_pokemon();
    }

    /// Looks up the name that belongs to the counter's value.
    pub fn update_pokemon(&mut self)
        ensures
            old(self).counted(final(self), old(self).counter),
    {
        self.pokemon = name_from_table(&self.table, self.counter as i32);
    }

    /// Moves the selection up, around the top to the last entry.
    pub fn select_up(&mut self)
        requires
            old(self).selected_option > 0 || old(self).options@.len() > 0,
        ensures
            old(self).wf() ==> final(self).wf(),
            *final(self) == (MainMenuState {
                selected_option: wrapped_up(
                    old(self).selected_option as nat,
                    old(self).options@.len(),
                ) as usize,
                ..*old(self)
            }),
    {
        self.selected_option = if self.selected_option == 0 {
            self.options.len() - 1
        } else {
            self.selected_option - 1
        };
    }

    /// Moves the selection down, around the bottom to the first entry.
    pub fn select_down(&mut self)
        requires
            old(self).options@.len() > 0,
            old(self).selected_option < usize::MAX,
        ensures
            old(self).wf() ==> final(self).wf(),
            *final(self) == (MainMenuState {
                selected_option: wrapped_down(
                    old(self).selected_option as nat,
                    old(self).options@.len(),
                ) as usize,
                ..*old(self)
            }),
    {
        let count = self.options.len();
        self.selected_option = (self.selected_option + 1) % count;
    }

    /// The entry the selection is on.
    pub fn get_selected_option(&self) -> (option: &str)
        requires
            self.selected_option < self.options@.len(),
        ensures
            option@ == self.options@[self.selected_option as int]@,
    {
        self.options[self.selected_option].as_str()
    }

    /// The number of entries.
    pub fn option_count(&self) -> (count: usize)
        ensures
            count == self.options@.len(),
    {
        self.options.len()
    }
}

} // verus!
