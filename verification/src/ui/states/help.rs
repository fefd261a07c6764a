//! The help screen: a list of sections and the text of each.

use crate::ui::states::lines::{labels_of, lines_of, owned_lines};
use crate::session::{wrapped_down, wrapped_up};
use vstd::prelude::*;

verus! {

/// The state of the help screen.
#[derive(Debug)]
pub struct HelpState {
    /// The section the cursor is on.
    pub selected_section: usize,
    /// The titles of the sections.
    pub sections: Vec<String>,
    /// The lines of each section, in the order of the titles.
    pub content: Vec<Vec<String>>,
}

/// The titles of the help sections.
pub open spec fn section_titles() -> Seq<&'static str> {
    seq!["Navigation", "Main Menu", "Pokedex", "Settings", "Keyboard Shortcuts"]
}

pub open spec fn navigation_help() -> Seq<&'static str> {
    seq![
        "Navigation Controls:",
        "",
        "• Arrow Keys: Navigate menus and lists",
        "• Enter: Select current option",
        "• Escape: Go back or quit",
        "• Tab: Switch between different views",
        "",
        "General Navigation:",
        "• Use Up/Down arrows to move selection",
        "• Press Enter to confirm selection",
        "• Press Escape to go back or quit",
    ]
}

pub open spec fn main_menu_help() -> Seq<&'static str> {
    seq![
        "Main Menu Features:",
        "",
        "• Counter: Increment/decrement a counter",
        "• Pokemon Display: Shows Pokemon based on counter",
        "• Menu Options:",
        "  - Increment Counter: Add 1 to counter",
        "  - Decrement Counter: Subtract 1 from counter",
        "  - Reset Counter: Set counter to 0",
        "  - Open Pokedex: View Pokemon database",
        "  - Settings: Configure application",
        "  - Help: Show this help screen",
        "  - Quit: Exit application",
    ]
}

pub open spec fn pokedex_help() -> Seq<&'static str> {
    seq![
        "Pokedex Features:",
        "",
        "• Pokemon List: Browse all 151 Pokemon",
        "• Details View: See Pokemon stats and info",
        "• Search: Find Pokemon by name",
        "",
        "Pokedex Controls:",
        "• Arrow Keys: Navigate Pokemon list",
        "• Enter: View Pokemon details",
        "• Tab: Toggle between list and details view",
        "• /: Start search mode",
        "• Escape: Exit search or go back",
    ]
}

pub open spec fn settings_help() -> Seq<&'static str> {
    seq![
        "Settings Options:",
        "",
        "• Theme: Choose visual theme",
        "  - Default: Standard appearance",
        "  - Dark: Dark color scheme",
        "  - Light: Light color scheme",
        "  - Colorful: Vibrant colors",
        "",
        "• Animations: Enable/disable UI animations",
        "• Refresh Rate: Adjust UI update frequency",
        "",
        "Settings Controls:",
        "• Arrow Keys: Navigate options",
        "• Enter: Modify selected setting",
        "• +/-: Adjust numeric values",
    ]
}

pub open spec fn shortcuts_help() -> Seq<&'static str> {
    seq![
        "Keyboard Shortcuts:",
        "",
        "Global Shortcuts:",
        "• Escape: Go back or quit",
        "• Ctrl+C: Force quit",
        "• F1: Show help",
        "",
        "Navigation Shortcuts:",
        "• Arrow Keys: Navigate",
        "• Enter: Select/Confirm",
        "• Tab: Switch views",
        "• Space: Toggle options",
        "",
        "Special Shortcuts:",
        "• /: Start search (in pokedex)",
        "• +/-: Adjust values (in settings)",
        "• 1-9: Quick navigation (where applicable)",
    ]
}

/// The lines of each help section, in the order of [`section_titles`].
pub open spec fn section_texts() -> Seq<Seq<Seq<char>>> {
    seq![
        labels_of(navigation_help()),
        labels_of(main_menu_help()),
        labels_of(pokedex_help()),
        labels_of(settings_help()),
        labels_of(shortcuts_help()),
    ]
}

impl HelpState {
    /// The lines of every section as character sequences.
    pub open spec fn texts(&self) -> Seq<Seq<Seq<char>>> {
        Seq::new(self.content@.len(), |i: int| lines_of(self.content@[i]@))
    }

    /// There are sections, each has its text, and the selection is on one
    /// of them.
    pub open spec fn wf(&self) -> bool {
        &&& self.selected_section < self.sections.len()
        &&& self.content@.len() == self.sections@.len()
    }

    /// The help screen with its five sections, the first one selected.
    pub fn new() -> (state: Self)
        ensures
            state.wf(),
            state.selected_section == 0,
            lines_of(state.sections@) == labels_of(section_titles()),
            state.texts() == section_texts(),
    {
        let titles = vec!["Navigation", "Main Menu", "Pokedex", "Settings", "Keyboard Shortcuts"];
        let sections = owned_lines(titles);
        let navigation = vec![
            "Navigation Controls:",
            "",
            "• Arrow Keys: Navigate menus and lists",
            "• Enter: Select current option",
            "• Escape: Go back or quit",
            "• Tab: Switch between different views",
            "",
            "General Navigation:",
            "• Use Up/Down arrows to move selection",
            "• Press Enter to confirm selection",
            "• Press Escape to go back or quit",
        ];
        let main_menu = vec![
            "Main Menu Features:",
            "",
            "• Counter: Increment/decrement a counter",
            "• Pokemon Display: Shows Pokemon based on counter",
            "• Menu Options:",
            "  - Increment Counter: Add 1 to counter",
            "  - Decrement Counter: Subtract 1 from counter",
            "  - Reset Counter: Set counter to 0",
            "  - Open Pokedex: View Pokemon database",
            "  - Settings: Configure application",
            "  - Help: Show this help screen",
            "  - Quit: Exit application",
        ];
        let pokedex = vec![
            "Pokedex Features:",
            "",
            "• Pokemon List: Browse all 151 Pokemon",
            "• Details View: See Pokemon stats and info",
            "• Search: Find Pokemon by name",
            "",
            "Pokedex Controls:",
            "• Arrow Keys: Navigate Pokemon list",
            "• Enter: View Pokemon details",
            "• Tab: Toggle between list and details view",
            "• /: Start search mode",
            "• Escape: Exit search or go back",
        ];
        let settings = vec![
            "Settings Options:",
            "",
            "• Theme: Choose visual theme",
            "  - Default: Standard appearance",
            "  - Dark: Dark color scheme",
            "  - Light: Light color scheme",
            "  - Colorful: Vibrant colors",
            "",
            "• Animations: Enable/disable UI animations",
            "• Refresh Rate: Adjust UI update frequency",
            "",
            "Settings Controls:",
            "• Arrow Keys: Navigate options",
            "• Enter: Modify selected setting",
            "• +/-: Adjust numeric values",
        ];
        let shortcuts = vec![
            "Keyboard Shortcuts:",
            "",
            "Global Shortcuts:",
            "• Escape: Go back or quit",
            "• Ctrl+C: Force quit",
            "• F1: Show help",
            "",
            "Navigation Shortcuts:",
            "• Arrow Keys: Navigate",
            "• Enter: Select/Confirm",
            "• Tab: Switch views",
            "• Space: Toggle options",
            "",
            "Special Shortcuts:",
            "• /: Start search (in pokedex)",
            "• +/-: Adjust values (in settings)",
            "• 1-9: Quick navigation (where applicable)",
        ];
        let mut content: Vec<Vec<String>> = Vec::new();
        content.push(owned_lines(navigation));
        content.push(owned_lines(main_menu));
        content.push(owned_lines(pokedex));
        content.push(owned_lines(settings));
        content.push(owned_lines(shortcuts));
        let state = Self { selected_section: 0, sections, content };
        assert(state.sections@.len() == lines_of(state.sections@).len());
        state
    }

    /// Moves the selection up, around the top to the last section.
    pub fn select_up(&mut self)
        requires
            old(self).selected_section > 0 || old(self).sections@.len() > 0,
        ensures
            old(self).wf() ==> final(self).wf(),
            *final(self) == (HelpState {
                selected_section: wrapped_up(
                    old(self).selected_section as nat,
                    old(self).sections@.len(),
                ) as usize,
                ..*old(self)
            }),
    {
        self.selected_section = if self.selected_section == 0 {
            self.sections.len() - 1
        } else {
            self.selected_section - 1
        };
    }

    /// Moves the selection down, around the bottom to the first section.
    pub fn select_down(&mut self)
        requires
            old(self).sections@.len() > 0,
            old(self).selected_section < usize::MAX,
        ensures
            old(self).wf() ==> final(self).wf(),
            *final(self) == (HelpState {
                selected_section: wrapped_down(
                    old(self).selected_section as nat,
                    old(self).sections@.len(),
                ) as usize,
                ..*old(self)
            }),
    {
        let count = self.sections.len();
        self.selected_section = (self.selected_section + 1) % count;
    }

    /// The title of the selected section.
    pub fn get_selected_section(&self) -> (title: &str)
        requires
            self.selected_section < self.sections@.len(),
        ensures
            title@ == self.sections@[self.selected_section as int]@,
    {
        self.sections[self.selected_section].as_str()
    }

    /// The lines of the selected section.
    pub fn get_current_content(&self) -> (lines: &Vec<String>)
        requires
            self.selected_section < self.content@.len(),
        ensures
            *lines == self.content@[self.selected_section as int],
    {
        &self.content[self.selected_section]
    }

    /// The number of sections.
    pub fn section_count(&self) -> (count: usize)
        ensures
            count == self.sections@.len(),
    {
        self.sections.len()
    }
}

} // verus!
