//! What the screens of the console application say.
//!
//! Laying the words out and colouring them is left to whoever draws; which
//! words stand on a screen is settled here.

use crate::decimal::{digits, push_digits};
use crate::pokemon::pokemon_indexer::PokemonStatBlock;
use crate::ui::states::lines::lines_of;
use crate::ui::states::main_menu::MainMenuState;
use crate::ui::states::pokedex::PokedexState;
use crate::ui::states::settings::{theme_name, SettingsState};
use crate::ui::states::{App, AppState};
use vstd::prelude::*;
use vstd::string::*;

verus! {

/// The title of a screen.
pub open spec fn title_of(state: AppState) -> Seq<char> {
    match state {
        AppState::MainMenu => "Pokemon Arena - Main Menu"@,
        AppState::Pokedex => "Pokemon Arena - Pokedex"@,
        AppState::Settings => "Pokemon Arena - Settings"@,
        AppState::Help => "Pokemon Arena - Help"@,
    }
}

/// The line under the title of a screen.
pub open spec fn subtitle_of(state: AppState) -> Seq<char> {
    match state {
        AppState::MainMenu => "Use arrow keys to navigate, Enter to select, Esc to quit"@,
        AppState::Pokedex => "Browse Pokemon: Arrow keys to navigate, Enter for details, / to search"@,
        AppState::Settings => "Configure application: Arrow keys to navigate, Enter to modify"@,
        AppState::Help => "Navigation: Arrow keys to browse sections, Enter to go back"@,
    }
}

/// The title of a screen and the line under it.
pub fn header_text(state: AppState) -> (header: (&'static str, &'static str))
    ensures
        header.0@ == title_of(state),
        header.1@ == subtitle_of(state),
{
    match state {
        AppState::MainMenu => (
            "Pokemon Arena - Main Menu",
            "Use arrow keys to navigate, Enter to select, Esc to quit",
        ),
        AppState::Pokedex => (
            "Pokemon Arena - Pokedex",
            "Browse Pokemon: Arrow keys to navigate, Enter for details, / to search",
        ),
        AppState::Settings => (
            "Pokemon Arena - Settings",
            "Configure application: Arrow keys to navigate, Enter to modify",
        ),
        AppState::Help => (
            "Pokemon Arena - Help",
            "Navigation: Arrow keys to browse sections, Enter to go back",
        ),
    }
}

/// The keys that the foot of a screen names.
pub open spec fn footer_keys_of(state: AppState) -> Seq<char> {
    match state {
        AppState::MainMenu => "Use arrow keys to navigate, Enter to select, Esc to quit"@,
        AppState::Pokedex => "Arrow keys: Navigate | +/-: Change Pokemon | Esc: Back"@,
        AppState::Settings => "Arrow keys: Navigate | Enter: Modify | +/-: Adjust values | Esc: Back"@,
        AppState::Help => "Arrow keys: Browse sections | Enter: Go back | Esc: Go back"@,
    }
}

/// The note at the foot of the screen that `app` shows: on the pokedex the
/// number of the entry out of 151, on the help screen the number of the
/// section, counted from one, out of the sections there are.
pub open spec fn footer_note_of(app: &App) -> Seq<char> {
    match app.state_manager.current_state {
        AppState::MainMenu => "Press F1 for help, or select Help from the menu"@,
        AppState::Pokedex => "Viewing: "@ + digits(app.pokedex.pokemon_number as nat) + " of 151"@,
        AppState::Settings => "Changes are applied immediately"@,
        AppState::Help => "Section: "@ + digits((app.help.selected_section + 1) as nat) + " of "@
            + digits(app.help.sections@.len()),
    }
}

/// The two lines at the foot of the screen that `app` shows.
pub fn footer_text(app: &App) -> (footer: (String, String))
    requires
        app.state_manager.current_state == AppState::Help ==> app.help.selected_section
            < usize::MAX,
    ensures
        footer.0@ == footer_keys_of(app.state_manager.current_state),
        footer.1@ == footer_note_of(app),
{
    match app.state_manager.current_state {
        AppState::MainMenu => (
            String::from_str("Use arrow keys to navigate, Enter to select, Esc to quit"),
            String::from_str("Press F1 for help, or select Help from the menu"),
        ),
        AppState::Pokedex => {
            let mut note = String::from_str("Viewing: ");
            push_digits(&mut note, app.pokedex.pokemon_number as u64);
            note.append(" of 151");
            (String::from_str("Arrow keys: Navigate | +/-: Change Pokemon | Esc: Back"), note)
        },
        AppState::Settings => (
            String::from_str(
                "Arrow keys: Navigate | Enter: Modify | +/-: Adjust values | Esc: Back",
            ),
            String::from_str("Changes are applied immediately"),
        ),
        AppState::Help => {
            let count = app.help.sections.len();
            let mut note = String::from_str("Section: ");
            push_digits(&mut note, (app.help.selected_section + 1) as u64);
            note.append(" of ");
            push_digits(&mut note, count as u64);
            (String::from_str("Arrow keys: Browse sections | Enter: Go back | Esc: Go back"), note)
        },
    }
}

/// An entry of a list as it is shown: marked with `> ` where it is the
/// selected one, set in by two blanks where it is not.
pub open spec fn entry_of(text: Seq<char>, selected: bool) -> Seq<char> {
    if selected {
        "> "@ + text
    } else {
        "  "@ + text
    }
}

/// An entry of a list as it is shown.
pub fn entry_text(text: &str, selected: bool) -> (shown: String)
    ensures
        shown@ == entry_of(text@, selected),
{
    let mut shown = if selected {
        String::from_str("> ")
    } else {
        String::from_str("  ")
    };
    shown.append(text);
    shown
}

/// The entries of a list as they are shown, the one at `selected` marked.
pub open spec fn entries_of(items: Seq<Seq<char>>, selected: nat) -> Seq<Seq<char>> {
    Seq::new(items.len(), |i: int| entry_of(items[i], i == selected))
}

/// The entries of a list as they are shown, the one at `selected` marked.
pub fn entry_lines(items: &Vec<String>, selected: usize) -> (shown: Vec<String>)
    ensures
        lines_of(shown@) == entries_of(lines_of(items@), selected as nat),
{
    let mut shown: Vec<String> = Vec::new();
    let mut i: usize = 0;
    while i < items.len()
        invariant
            i <= items.len(),
            shown@.len() == i,
            forall|j: int|
                0 <= j < i ==> (#[trigger] shown@[j])@ == entry_of(items@[j]@, j == selected),
        decreases items.len() - i,
    {
        shown.push(entry_text(items[i].as_str(), i == selected));
        i += 1;
    }
    assert(lines_of(shown@) =~= entries_of(lines_of(items@), selected as nat));
    shown
}

/// The two lines that show the counter and the name that belongs to it.
pub fn counter_text(menu: &MainMenuState) -> (text: (String, String))
    ensures
        text.0@ == "Counter: "@ + digits(menu.counter as nat),
        text.1@ == "Pokemon: "@ + menu.pokemon@,
{
    let mut counter = String::from_str("Counter: ");
    push_digits(&mut counter, menu.counter as u64);
    let mut pokemon = String::from_str("Pokemon: ");
    pokemon.append(menu.pokemon.as_str());
    (counter, pokemon)
}

/// The lines of the box in which the entry of the pokedex is chosen.
pub open spec fn selector_of(dex: &PokedexState) -> Seq<Seq<char>> {
    seq![
        "Pokemon #"@ + digits(dex.pokemon_number as nat),
        "Name: "@ + dex.pokemon_name@,
        "Use +/- or arrow keys"@,
        "to change Pokemon"@,
    ]
}

/// The lines of the box in which the entry of the pokedex is chosen.
pub fn selector_lines(dex: &PokedexState) -> (shown: Vec<String>)
    ensures
        lines_of(shown@) == selector_of(dex),
{
    let mut number = String::from_str("Pokemon #");
    push_digits(&mut number, dex.pokemon_number as u64);
    let mut name = String::from_str("Name: ");
    name.append(dex.pokemon_name.as_str());
    let mut shown: Vec<String> = Vec::new();
    shown.push(number);
    shown.push(name);
    shown.push(String::from_str("Use +/- or arrow keys"));
    shown.push(String::from_str("to change Pokemon"));
    assert(lines_of(shown@) =~= selector_of(dex));
    shown
}

/// The second type as it is shown: nothing for the word "none".
pub open spec fn second_type_of(type2: Seq<char>) -> Seq<char> {
    if type2 == "none"@ {
        Seq::empty()
    } else {
        type2
    }
}

/// One line of figures: the label and the figure.
pub open spec fn labelled(label: Seq<char>, value: Seq<char>) -> Seq<char> {
    label + value
}

/// The lines that show the figures of an entry, or the one line that says
/// that there are none.
pub open spec fn figures_of(
    name: Seq<char>,
    number: u32,
    stats: Option<PokemonStatBlock>,
) -> Seq<Seq<char>> {
    match stats {
        Some(block) => seq![
            "Pokemon: "@ + name + " (#"@ + digits(number as nat) + ")"@,
            "Type: "@ + block.type1@ + " "@ + second_type_of(block.type2@),
            labelled("HP: "@, block.hp@),
            labelled("Attack: "@, block.attack@),
            labelled("Defense: "@, block.defense@),
            labelled("Sp. Attack: "@, block.sp_attack@),
            labelled("Sp. Defense: "@, block.sp_defense@),
            labelled("Speed: "@, block.speed@),
        ],
        None => seq!["Error loading Pokemon stats"@],
    }
}

fn labelled_line(label: &'static str, value: &str) -> (line: String)
    ensures
        line@ == labelled(label@, value@),
{
    let mut line = String::from_str(label);
    line.append(value);
    line
}

/// The lines that show the figures of the entry `name` with the number
/// `number`.
pub fn figure_lines(name: &str, number: u32, stats: &Option<PokemonStatBlock>) -> (shown: Vec<
    String,
>)
    ensures
        lines_of(shown@) == figures_of(name@, number, *stats),
{
    let mut shown: Vec<String> = Vec::new();
    match stats {
        Some(block) => {
            let mut head = String::from_str("Pokemon: ");
            head.append(name);
            head.append(" (#");
            push_digits(&mut head, number as u64);
            head.append(")");
            let mut types = String::from_str("Type: ");
            types.append(block.type1.as_str());
            types.append(" ");
            let none = String::from_str("none");
            if !(block.type2 == none) {
                types.append(block.type2.as_str());
            }
            assert(types@ =~= "Type: "@ + block.type1@ + " "@ + second_type_of(block.type2@));
            shown.push(head);
            shown.push(types);
            shown.push(labelled_line("HP: ", block.hp.as_str()));
            shown.push(labelled_line("Attack: ", block.attack.as_str()));
            shown.push(labelled_line("Defense: ", block.defense.as_str()));
            shown.push(labelled_line("Sp. Attack: ", block.sp_attack.as_str()));
            shown.push(labelled_line("Sp. Defense: ", block.sp_defense.as_str()));
            shown.push(labelled_line("Speed: ", block.speed.as_str()));
        },
        None => {
            shown.push(String::from_str("Error loading Pokemon stats"));
        },
    }
    assert(lines_of(shown@) =~= figures_of(name@, number, *stats));
    shown
}

/// The lines of the box that stands where a picture of the entry will be.
pub open spec fn sprite_text() -> Seq<&'static str> {
    seq![
        "ASCII Sprite",
        "Placeholder",
        "Coming Soon!",
        "",
        "   ___",
        "  /   \\",
        " |     |",
        "  \\___/",
        "",
        "Future ASCII art",
        "will go here",
    ]
}

/// The lines of the box that stands where a picture of the entry will be.
pub fn sprite_lines() -> (shown: Vec<&'static str>)
    ensures
        shown@ == sprite_text(),
{
    let shown = vec![
        "ASCII Sprite",
        "Placeholder",
        "Coming Soon!",
        "",
        "   ___",
        "  /   \\",
        " |     |",
        "  \\___/",
        "",
        "Future ASCII art",
        "will go here",
    ];
    assert(shown@ =~= sprite_text());
    shown
}

/// What stands behind the entry at `index` of the settings menu: the value
/// of the setting, and nothing behind an entry that is no setting.
pub open spec fn setting_value_of(settings: &SettingsState, index: nat) -> Seq<char> {
    if index == 0 {
        ": "@ + theme_name(settings.theme)
    } else if index == 1 {
        if settings.show_animations {
            ": On"@
        } else {
            ": Off"@
        }
    } else if index == 2 {
        ": "@ + digits(settings.refresh_rate as nat) + "ms"@
    } else {
        Seq::empty()
    }
}

/// What stands behind the entry at `index` of the settings menu.
pub fn setting_value(settings: &SettingsState, index: usize) -> (value: String)
    ensures
        value@ == setting_value_of(settings, index as nat),
{
    if index == 0 {
        let mut value = String::from_str(": ");
        value.append(settings.get_theme_name());
        value
    } else if index == 1 {
        if settings.show_animations {
            String::from_str(": On")
        } else {
            String::from_str(": Off")
        }
    } else if index == 2 {
        let mut value = String::from_str(": ");
        push_digits(&mut value, settings.refresh_rate);
        value.append("ms");
        value
    } else {
        String::new()
    }
}

/// The entries of the settings menu as they are shown: each with its value
/// behind it, the selected one marked.
pub open spec fn settings_of(settings: &SettingsState) -> Seq<Seq<char>> {
    Seq::new(
        settings.options@.len(),
        |i: int|
            entry_of(
                settings.options@[i]@ + setting_value_of(settings, i as nat),
                i == settings.selected_option,
            ),
    )
}

/// The entries of the settings menu as they are shown.
pub fn settings_lines(settings: &SettingsState) -> (shown: Vec<String>)
    ensures
        lines_of(shown@) == settings_of(settings),
{
    let mut shown: Vec<String> = Vec::new();
    let mut i: usize = 0;
    while i < settings.options.len()
        invariant
            i <= settings.options.len(),
            shown@.len() == i,
            forall|j: int|
                0 <= j < i ==> (#[trigger] shown@[j])@ == entry_of(
                    settings.options@[j]@ + setting_value_of(settings, j as nat),
                    j == settings.selected_option,
                ),
        decreases settings.options.len() - i,
    {
        let mut text = settings.options[i].clone();
        let value = setting_value(settings, i);
        text.append(value.as_str());
        shown.push(entry_text(text.as_str(), i == settings.selected_option));
        i += 1;
    }
    assert(lines_of(shown@) =~= settings_of(settings));
    shown
}

} // verus!
