//! The decisions of a theme picker: which themes it lists and in what order,
//! which of them it shows while the user moves through the list, and what it
//! leaves behind when the user confirms or dismisses it.
//!
//! The library touches no window, no settings store and no file. Each operation
//! takes what the host has read and gives back the [`effect::Effect`]s that the
//! host is to carry out, in order.
pub mod appearance;
pub mod delegate;
pub mod effect;
pub mod elements;
pub mod laws;
pub mod list_separator;
pub mod listing;
pub mod matching;
pub mod operations;
pub mod picker_operations;
pub mod selector;
pub mod session;
pub mod settings;
pub mod text;
pub mod theme;
