//! Names by number.
//!
//! The table comes as JSON text, an object whose keys are numbers and whose
//! values are names. Reading the file is the caller's business; a file that
//! could not be read is handed over as `None`. Whatever goes wrong, a name
//! is always given: where the table has none, the number itself stands in.

use crate::decimal::{decimal_text, push_decimal};
use rand::Rng;
use std::collections::HashMap;
use vstd::prelude::*;
use vstd::string::*;

verus! {

broadcast use vstd::std_specs::hash::group_hash_axioms;

/// The figures of one entry, as the data file spells them.
#[derive(Clone, Debug)]
pub struct PokemonStatBlock {
    pub number: String,
    pub hp: String,
    pub attack: String,
    pub defense: String,
    pub sp_attack: String,
    pub sp_defense: String,
    pub speed: String,
    pub type1: String,
    /// The second type, or the word "none".
    pub type2: String,
}

impl PokemonStatBlock {
    /// A copy, field for field.
    pub fn duplicate(&self) -> (copy: PokemonStatBlock)
        ensures
            copy == *self,
    {
        PokemonStatBlock {
            number: self.number.clone(),
            hp: self.hp.clone(),
            attack: self.attack.clone(),
            defense: self.defense.clone(),
            sp_attack: self.sp_attack.clone(),
            sp_defense: self.sp_defense.clone(),
            speed: self.speed.clone(),
            type1: self.type1.clone(),
            type2: self.type2.clone(),
        }
    }
}

/// The table that a JSON text holds, or `None` where the text is no table
/// of names by number.
pub uninterp spec fn parsed_names(json: Seq<char>) -> Option<Map<i32, Seq<char>>>;

/// The names of a table as character sequences.
pub open spec fn names_of(table: Map<i32, String>) -> Map<i32, Seq<char>> {
    table.map_values(|name: String| name@)
}

/// Reads `json` with `serde_json::from_str` as a map from numbers to
/// names. The outcome depends on the text alone, so it has a name; what it
/// is for a given text is the business of that crate.
#[verifier::external_body]
fn parse_names(json: &str) -> (table: Option<HashMap<i32, String>>)
    ensures
        match table {
            Some(names) => parsed_names(json@) == Some(names_of(names@)),
            None => parsed_names(json@) is None,
        },
{
    serde_json::from_str(json).ok()
}

/// The name that stands in where the table has none: the words
/// `Pokemon #` and the number.
pub open spec fn fallback_name(number: i32) -> Seq<char> {
    "Pokemon #"@ + decimal_text(number as int)
}

/// The name under `number` in `names`, or the stand-in.
pub open spec fn name_in(names: Map<i32, Seq<char>>, number: i32) -> Seq<char> {
    if names.dom().contains(number) {
        names[number]
    } else {
        fallback_name(number)
    }
}

/// The name under `number` in the table that `json` holds. A text that is
/// missing or is no table counts as a table without entries.
pub open spec fn name_by_number(json: Option<Seq<char>>, number: i32) -> Seq<char> {
    match json {
        Some(text) => match parsed_names(text) {
            Some(names) => name_in(names, number),
            None => fallback_name(number),
        },
        None => fallback_name(number),
    }
}

/// The stand-in name for `number`.
pub fn make_fallback_name(number: i32) -> (name: String)
    ensures
        name@ == fallback_name(number),
{
    let mut name = String::from_str("Pokemon #");
    push_decimal(&mut name, number);
    name
}

/// Looks `number` up in a table that has been read.
pub fn lookup_name(names: &HashMap<i32, String>, number: i32) -> (name: String)
    ensures
        name@ == name_in(names_of(names@), number),
{
    match names.get(&number) {
        Some(found) => found.clone(),
        None => make_fallback_name(number),
    }
}

/// The name under `number` in the table that `json` holds; `json` is
/// `None` where the table could not be read.
pub fn get_pokemon_by_number(json: Option<&str>, number: i32) -> (name: String)
    ensures
        name@ == name_by_number(
            match json {
                Some(text) => Some(text@),
                None => None,
            },
            number,
        ),
{
    match json {
        Some(text) => match parse_names(text) {
            Some(names) => lookup_name(&names, number),
            None => make_fallback_name(number),
        },
        None => make_fallback_name(number),
    }
}

/// The figures filed under `name` in `stats`: those of the first entry
/// with that name, or `None` where there is no such entry.
pub open spec fn stat_block_of(stats: Seq<(String, PokemonStatBlock)>, name: Seq<char>) -> Option<
    PokemonStatBlock,
>
    decreases stats.len(),
{
    if stats.len() == 0 {
        None
    } else if stats[0].0@ == name {
        Some(stats[0].1)
    } else {
        stat_block_of(stats.skip(1), name)
    }
}

/// Looks the figures of `name` up in `stats`. The entries come as pairs of
/// a name and its figures, in a vector, because vstd says nothing of a map
/// whose keys are strings.
pub fn get_pokemon_stat_block(stats: &Vec<(String, PokemonStatBlock)>, name: &str) -> (found:
    Option<PokemonStatBlock>)
    ensures
        found == stat_block_of(stats@, name@),
{
    let wanted = String::from_str(name);
    let mut i: usize = 0;
    assert(stats@.skip(0) =~= stats@);
    while i < stats.len()
        invariant
            i <= stats.len(),
            wanted@ == name@,
            stat_block_of(stats@, name@) == stat_block_of(stats@.skip(i as int), name@),
        decreases stats.len() - i,
    {
        assert(stats@.skip(i as int).skip(1) =~= stats@.skip(i + 1));
        if stats[i].0 == wanted {
            return Some(stats[i].1.duplicate());
        }
        i += 1;
    }
    None
}

/// The numbers that `names` has names under, each once, in no particular
/// order.
pub fn numbers_of(names: &HashMap<i32, String>) -> (numbers: Vec<i32>)
    ensures
        numbers@.len() == names@.len(),
        numbers@.no_duplicates(),
        forall|j: int| 0 <= j < numbers@.len() ==> names@.dom().contains(#[trigger] numbers@[j]),
{
    let mut numbers: Vec<i32> = Vec::new();
    for number in iter: names.keys()
        invariant
            numbers@.len() == iter.index(),
            iter.seq().len() == names@.len(),
            iter.seq().no_duplicates(),
            numbers@.no_duplicates(),
            forall|j: int| 0 <= j < numbers@.len() ==> numbers@[j] == *(#[trigger] iter.seq()[j]),
            forall|j: int| 0 <= j < numbers@.len() ==> names@.dom().contains(#[trigger] numbers@[j]),
    {
        assert forall|j: int| 0 <= j < numbers@.len() implies numbers@[j] != *number by {
            assert(iter.seq()[j] != iter.seq()[iter.index() as int]);
        }
        numbers.push(*number);
    }
    numbers
}

/// Draws a number below `count` with `rand::Rng::gen_range` on the thread's
/// generator. Which number comes is chance; only its range is promised.
#[verifier::external_body]
pub(crate) fn random_below(count: usize) -> (number: usize)
    requires
        count > 0,
    ensures
        number < count,
{
    rand::thread_rng().gen_range(0..count)
}

/// The name given where no name can be drawn.
pub open spec fn unknown_name() -> Seq<char> {
    "Unknown Pokemon"@
}

/// Whether `name` may come out of drawing a name from `names`: it is one
/// of the names, or, where there are none, the word for an unknown one.
pub open spec fn drawn_from(names: Map<i32, Seq<char>>, name: Seq<char>) -> bool {
    if exists|number: i32| names.dom().contains(number) {
        exists|number: i32| names.dom().contains(number) && names[number] == name
    } else {
        name == unknown_name()
    }
}

/// Whether `name` may come out of drawing a name from the table that
/// `json` holds. A text that is missing or is no table gives the word for
/// an unknown name.
pub open spec fn drawn_by_chance(json: Option<Seq<char>>, name: Seq<char>) -> bool {
    match json {
        Some(text) => match parsed_names(text) {
            Some(names) => drawn_from(names, name),
            None => name == unknown_name(),
        },
        None => name == unknown_name(),
    }
}

/// Draws one of the names in `names` by chance.
pub fn draw_name(names: &HashMap<i32, String>) -> (name: String)
    ensures
        drawn_from(names_of(names@), name@),
{
    let numbers = numbers_of(names);
    if numbers.len() == 0 {
        proof {
            names@.dom().lemma_len0_is_empty();
        }
        return String::from_str("Unknown Pokemon");
    }
    let number = numbers[random_below(numbers.len())];
    let name = lookup_name(names, number);
    name
}

/// Draws a name by chance from the table that `json` holds; `json` is
/// `None` where the table could not be read.
pub fn get_random_pokemon(json: Option<&str>) -> (name: String)
    ensures
        drawn_by_chance(
            match json {
                Some(text) => Some(text@),
                None => None,
            },
            name@,
        ),
{
    match json {
        Some(text) => match parse_names(text) {
            Some(names) => draw_name(&names),
            None => String::from_str("Unknown Pokemon"),
        },
        None => String::from_str("Unknown Pokemon"),
    }
}

} // verus!
