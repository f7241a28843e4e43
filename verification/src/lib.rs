//! The device-independent core of a command-line controller for displays that
//! speak DDC/CI: which displays a filter selects, what each command asks of a
//! display, and how what the display answers is shown.
//!
//! Nothing here talks to a display. Every command is a state machine: it is
//! handed what the display answered and says what to print and what to ask
//! next. The program around this library performs the requests.

pub mod capabilities;
pub mod command;
pub mod detect;
pub mod display;
pub mod enumerate;
pub mod error;
pub mod feature;
pub mod filter;
pub mod getvcp;
pub mod query;
pub mod run;
pub mod save;
pub mod setvcp;
pub mod text;
pub mod util;
pub mod value;

pub use crate::command::DisplayCommand;
pub use crate::enumerate::query_displays;
pub use crate::filter::Config;
pub use crate::run::{CliCommand, DisplaySleep};
