//! A small text-statistics library: it counts the lines, words, bytes and
//! Unicode characters of a piece of text, derives which of those counts a
//! caller asked to see from command-line style flags, and renders the chosen
//! counts as a single output line.

pub mod format;
pub mod selection;
pub mod stats;
