//! The application as a single user runs it on a local console: a handful
//! of screens, each with a state of its own, and the routing of input to
//! the screen that is shown, and the words that each screen says. Here a
//! selection that leaves a menu at one end always comes back in at the
//! other.

pub mod input_handler;
pub mod renderer;
pub mod states;
