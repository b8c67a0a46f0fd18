//! The daemon spawn: stage tokens, peer credentials, the claim of the inherited
//! channel, the build-id handshake, and the parent's side of a spawn.

pub mod handshake;
pub mod inherited;
pub mod peercred;
pub mod process;
pub mod token;
