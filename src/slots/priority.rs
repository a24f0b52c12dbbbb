//! Slot priority levels, highest first.

use vstd::prelude::*;

verus! {

/// Modal overlays, popups.
pub const OVERLAY: u8 = 100;

/// Temporary status messages, notifications.
pub const TEMPORARY: u8 = 75;

/// Plugin UI content.
pub const PLUGIN: u8 = 50;

/// Standard application content (the default).
pub const NORMAL: u8 = 25;

/// Fallback or placeholder content.
pub const DEFAULT: u8 = 0;

} // verus!
