//! Verified core of a library for applications that spawn themselves as a
//! background daemon and keep a typed RPC channel to it.

use vstd::prelude::*;

pub mod app;
pub mod attribute;
pub mod channel;
pub mod echo_app;
pub mod error;
pub mod rpc;
pub mod spawn;
pub mod stdio;
pub mod text;
pub mod time;
pub mod utf8;

verus! {

} // verus!
