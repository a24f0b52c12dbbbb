//! Names of the status bar's slots.

use vstd::prelude::*;

verus! {

pub const LEFT: &'static str = "left";

pub const CENTER: &'static str = "center";

pub const RIGHT: &'static str = "right";

pub const MODE: &'static str = "mode";

pub const MESSAGE: &'static str = "message";

pub const POSITION: &'static str = "position";

/// Command line input.
pub const COMMAND: &'static str = "command";

} // verus!
