use vstd::prelude::*;

use crate::color::RgbColor;

verus! {

/// Which of the two gates a scan applies after collecting matches.
#[derive(Clone, Copy, Debug, PartialEq, Eq, Structural)]
pub struct CheckToggles {
    /// Reject a match set smaller than `minimum_density`.
    pub density: bool,
    /// Reject a centroid at or beyond `check_radius` from the screen centre.
    pub radius: bool,
}

/// Settings of the detector. A scan reads it and never changes it; the
/// dispatch loop keeps one copy and hands each scan a clone.
#[derive(Clone, Debug)]
pub struct ConfigType {
    /// Square of the colour tolerance: a pixel matches when its squared
    /// distance to `target_color` is strictly below this value.
    pub color_range_sq: u32,
    /// Whether a triggered scan writes a log record.
    pub log_hits: bool,
    /// Name of the key that flips scanning on and off.
    pub toggle_key: String,
    /// Run scans as tasks of an async runtime rather than as threads.
    pub use_tokio: bool,
    /// Frames to scan per second while scanning is on.
    pub check_cycles: u32,
    /// Largest distance, in pixels, from the screen centre to the centroid.
    pub check_radius: u32,
    /// Fewest matching pixels that make a cluster.
    pub minimum_density: u32,
    pub checks: CheckToggles,
    pub target_color: RgbColor,
}

} // verus!
