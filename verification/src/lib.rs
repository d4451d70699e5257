//! A color theme system for a desktop GUI application: a closed set of named
//! themes, each mapping to a fixed palette of colors, plus resolution of the
//! automatic theme through the operating system's light/dark preference and a
//! human-readable label for each theme.

pub mod color;
pub mod theme;
