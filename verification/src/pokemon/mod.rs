//! The table of names that the application shows and makes its
//! verification codes from.

pub mod pokemon_indexer;
