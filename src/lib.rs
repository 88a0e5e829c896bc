//! Serial console for a tunable receiver: a command grammar, a prompt model,
//! a single-slot command queue, a bounded notification bus, and the decision
//! step of the console task that interleaves keystrokes with notifications.

pub mod colors;
pub mod logger;
pub mod events;
pub mod text;
pub mod command;
pub mod queue;
pub mod bus;
pub mod prompt;
pub mod console;
