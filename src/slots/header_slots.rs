//! Names of the header's slots.

use vstd::prelude::*;

verus! {

pub const LEFT: &'static str = "left";

pub const CENTER: &'static str = "center";

pub const RIGHT: &'static str = "right";

pub const TITLE: &'static str = "title";

} // verus!
