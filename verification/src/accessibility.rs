//! Accessibility preferences that the animations respect.

use vstd::prelude::*;

verus! {

/// The value of the desktop portal's `reduced-motion` setting that asks
/// for reduced motion; 0 states no preference.
pub const REDUCED_MOTION: u32 = 1;

/// Whether the user prefers reduced motion, given what reading the
/// desktop portal's `reduced-motion` setting came to: the value that was
/// read, or nothing where the setting could not be read. Reduced motion
/// is preferred only where the setting says so; a failed reading leaves
/// the animations on.
pub fn detect_prefers_reduced_motion(setting: Option<u32>) -> (r: bool)
    ensures
        r == (setting == Some(REDUCED_MOTION)),
{
    match setting {
        Some(value) => value == REDUCED_MOTION,
        None => false,
    }
}

} // verus!
