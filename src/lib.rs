//! Time-specification parsing, file-time arithmetic and action planning for
//! a `touch`-like tool that can also scaffold files from templates.

pub mod errors;
pub mod parsedate;
pub mod calendar;
pub mod file_time_util;
pub mod fileaction;
pub mod args;
pub mod template;
pub mod editor;
