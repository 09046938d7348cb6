//! Verified core of the Memoria bootstrapper: launch-argument and launch-URI
//! parsing, client command lines, install layout and server URLs, version
//! decisions, registry plans and rich-presence text.
use vstd::prelude::*;

pub mod text;
pub mod config;
pub mod installer;
pub mod uri;
pub mod launcher;
pub mod rpc;
pub mod registry;
pub mod status;
pub mod pipeline;

verus! {

} // verus!
