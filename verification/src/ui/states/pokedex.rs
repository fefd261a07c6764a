//! The pokedex screen: one entry at a time, chosen by its number.

use crate::pokemon::pokemon_indexer::{
    get_pokemon_stat_block, name_by_number, stat_block_of, PokemonStatBlock,
};
use crate::ui::states::main_menu::{name_from_table, number_of, table_text};
use vstd::prelude::*;
use vstd::string::*;

verus! {

/// The lowest number of an entry.
pub const FIRST_NUMBER: u32 = 1;

/// The highest number of an entry.
pub const LAST_NUMBER: u32 = 151;

/// The state of the pokedex screen.
#[derive(Debug)]
pub struct PokedexState {
    /// The number of the entry shown, from 1 to 151.
    pub pokemon_number: u32,
    /// The name of the entry shown.
    pub pokemon_name: String,
    /// The table of names as JSON text; `None` where it could not be read.
    pub table: Option<String>,
    /// The figures of the entries, each under its name.
    pub stats: Vec<(String, PokemonStatBlock)>,
}

/// The number behind `number`; behind the last comes the first.
pub open spec fn number_after(number: u32) -> u32 {
    (number % LAST_NUMBER + 1) as u32
}

/// The number before `number`; before the first comes the last.
pub open spec fn number_before(number: u32) -> u32 {
    if number == FIRST_NUMBER {
        LAST_NUMBER
    } else {
        (number - 1) as u32
    }
}

/// `number`, or the nearest number that an entry has.
pub open spec fn number_within(number: u32) -> u32 {
    if number < FIRST_NUMBER {
        FIRST_NUMBER
    } else if number > LAST_NUMBER {
        LAST_NUMBER
    } else {
        number
    }
}

impl PokedexState {
    /// The number is that of an entry.
    pub open spec fn wf(&self) -> bool {
        FIRST_NUMBER <= self.pokemon_number <= LAST_NUMBER
    }

    /// `after` shows the entry `number` under the name that belongs to it;
    /// all else is as in `self`.
    pub open spec fn shows(&self, after: &PokedexState, number: u32) -> bool {
        &&& after.pokemon_number == number
        &&& after.pokemon_name@ == name_by_number(table_text(self.table), number_of(number))
        &&& after.table == self.table
        &&& after.stats == self.stats
    }

    /// The pokedex on its first entry, without tables.
    pub fn new() -> (state: Self)
        ensures
            state.wf(),
            state.pokemon_number == FIRST_NUMBER,
            state.pokemon_name@ == "Bulbasaur"@,
            state.table is None,
            state.stats@.len() == 0,
    {
        Self::with_tables(None, Vec::new())
    }

    /// The pokedex on its first entry, with the table of names that
    /// `table` holds and the figures in `stats`.
    pub fn with_tables(table: Option<String>, stats: Vec<(String, PokemonStatBlock)>) -> (state:
        Self)
        ensures
            state.wf(),
            state.pokemon_number == FIRST_NUMBER,
            state.pokemon_name@ == "Bulbasaur"@,
            state.table == table,
            state.stats == stats,
    {
        Self {
            pokemon_number: FIRST_NUMBER,
            pokemon_name: String::from_str("Bulbasaur"),
            table,
            stats,
        }
    }

    /// Goes on to the next entry, from the last to the first.
    pub fn increment_number(&mut self)
        ensures
            final(self).wf(),
            old(self).shows(final(self), number_after(old(self).pokemon_number)),
    {
        self.pokemon_number = (self.pokemon_number % LAST_NUMBER) + 1;
        self.update_pokemon_name();
    }

    /// Goes back to the entry before, from the first to the last.
    pub fn decrement_number(&mut self)
        requires
            old(self).pokemon_number >= FIRST_NUMBER,
        ensures
            old(self).wf() ==> final(self).wf(),
            old(self).shows(final(self), number_before(old(self).pokemon_number)),
    {
        self.pokemon_number = if self.pokemon_number == FIRST_NUMBER {
            LAST_NUMBER
        } else {
            self.pokemon_number - 1
        };
        self.update_pokemon_name();
    }

    /// Goes to entry `number`, or to the nearest there is.
    pub fn set_number(&mut self, number: u32)
        ensures
            final(self).wf(),
            old(self).shows(final(self), number_within(number)),
    {
        self.pokemon_number = if number < FIRST_NUMBER {
            FIRST_NUMBER
        } else if number > LAST_NUMBER {
            LAST_NUMBER
        } else {
            number
        };
        self.update_pokemon_name();
    }

    /// Looks up the name of the entry shown.
    pub fn update_pokemon_name(&mut self)
        ensures
            old(self).shows(final(self), old(self).pokemon_number),
    {
        self.pokemon_name = name_from_table(&self.table, self.pokemon_number as i32);
    }

    /// The number of the entry shown.
    pub fn get_pokemon_number(&self) -> (number: u32)
        ensures
            number == self.pokemon_number,
    {
        self.pokemon_number
    }

    /// The name of the entry shown.
    pub fn get_pokemon_name(&self) -> (name: &str)
        ensures
            name@ == self.pokemon_name@,
    {
        self.pokemon_name.as_str()
    }

    /// The figures of the entry shown, if the state has any under its name.
    pub fn get_pokemon_stats(&self) -> (stats: Option<PokemonStatBlock>)
        ensures
            stats == stat_block_of(self.stats@, self.pokemon_name@),
    {
        get_pokemon_stat_block(&self.stats, self.pokemon_name.as_str())
    }
}

} // verus!
