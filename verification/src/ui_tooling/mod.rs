//! Reusable pieces of user interface state.

pub mod text_input;
