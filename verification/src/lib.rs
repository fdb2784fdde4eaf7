//! Host facts rendered for display.
//!
//! Each fact about the machine (processor, disk, memory, battery, packages,
//! uptime, ...) is read from a probe and turned into a short line of text.
//! The rendering rules are stated as spec functions over `Seq<char>` and
//! integers, and every executable function is proved against them.

pub mod battery;
pub mod capacity;
pub mod cpu;
pub mod decimal;
pub mod failure;
pub mod idempotence;
pub mod info;
pub mod packages;
pub mod probe;
pub mod shell;
pub mod text;
pub mod uptime;
