//! Loader-side configuration types. The loaders themselves feed frames
//! from disk or a capture pipeline and live in the platform layer.

use vstd::prelude::*;

verus! {

/// Where a loader reads from and how it behaves at the end.
#[derive(Debug, Clone)]
pub struct LoaderConfig {
    /// The directory or file the frames come from.
    pub path: String,
    /// The frame files' extension.
    pub ext: String,
    /// Whether to wrap around at the last frame.
    pub circular: bool,
}

/// A loader-side video configuration, with an explicit height.
#[derive(Debug, PartialEq, Eq, Clone, Copy, Structural)]
pub struct VideoConfig {
    /// Frame width in pixels.
    pub width: usize,
    /// Frame height in pixels.
    pub height: usize,
    /// Frames skipped per kept frame.
    pub skip: usize,
    /// Quantizer used in encoding.
    pub quantizer: usize,
}

} // verus!
