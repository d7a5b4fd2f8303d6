//! The approval prompt, as far as it decides.

pub mod tui;
