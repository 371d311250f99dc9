//! Terminal UI widgets whose interaction state is modelled and verified: the
//! scroll window that follows a selection, a multi-line text buffer, a
//! filterable list, a menu, a table, a word-wrapped viewport, a ticking
//! indicator, a single-line input, a stopwatch and a timer.

pub mod scroll;
pub mod text;
pub mod error;
pub mod selection;
pub mod text_area;
pub mod list;
pub mod menu;
pub mod table;
pub mod viewport;
pub mod spinner;
pub mod command;
pub mod help;
pub mod input;
pub mod clock;
pub mod stopwatch;
pub mod timer;
