//! Persistence layer of a workspace and timer tracker: an embedded store
//! holding workspaces, chronographs and a singleton settings row, its
//! versioned schema migrations, and the startup sequence that brings it up.
use vstd::prelude::*;

pub mod bootstrap;
pub mod chronographs;
pub mod db;
pub mod settings;
pub mod workspaces;

verus! {

} // verus!
