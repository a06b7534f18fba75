//! The tiers of the water level. The gauge and both backends judge a level
//! by the same two bounds.

use vstd::prelude::*;

verus! {

/// Highest water level, in percent.
pub const MAX_WATER_LEVEL: u8 = 100;

/// Water level right after boot, in percent.
pub const BOOT_WATER_LEVEL: u8 = 50;

/// Highest level that counts as critical, in percent.
pub const WATER_CRITICAL_MAX: u8 = 10;

/// Highest level that counts as low, in percent.
pub const WATER_LOW_MAX: u8 = 20;

/// Whether a level is critical: at most 10.
pub open spec fn is_critical_level(level: u8) -> bool {
    level <= WATER_CRITICAL_MAX
}

/// Whether a level is low: at most 20. A critical level is low too.
pub open spec fn is_low_level(level: u8) -> bool {
    level <= WATER_LOW_MAX
}

/// Tells whether a level is critical.
pub fn level_is_critical(level: u8) -> (critical: bool)
    ensures
        critical == is_critical_level(level),
{
    level <= WATER_CRITICAL_MAX
}

/// Tells whether a level is low.
pub fn level_is_low(level: u8) -> (low: bool)
    ensures
        low == is_low_level(level),
{
    level <= WATER_LOW_MAX
}

/// A critical level is low; a level below a critical one is critical, and a
/// level below a low one is low; the level right after boot is neither.
pub proof fn lemma_tiers(level: u8, below: u8)
    requires
        below <= level,
    ensures
        is_critical_level(level) ==> is_low_level(level),
        is_critical_level(level) ==> is_critical_level(below),
        is_low_level(level) ==> is_low_level(below),
        is_critical_level(level) <==> level <= 10,
        is_low_level(level) <==> level <= 20,
        !is_low_level(BOOT_WATER_LEVEL),
        BOOT_WATER_LEVEL <= MAX_WATER_LEVEL,
{
}

} // verus!
