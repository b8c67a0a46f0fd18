//! A small application on top of the channel: a foreground that spawns one or
//! many daemons, each of which echoes numbers back, and the records it keeps of
//! what it saw.

pub mod args;
pub mod background;
pub mod daemon;
pub mod foreground;
pub mod guard;
pub mod messages;
pub mod preclosed;
pub mod report;
pub mod rounds;
