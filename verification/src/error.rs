use vstd::prelude::*;

verus! {

/// Errors reported by the rendering layer.
#[derive(Clone, Copy, Debug, PartialEq, Eq, Structural)]
pub enum ViuError {
    /// The image has a degenerate (zero) native width or height.
    InvalidImage,
    /// The image bytes could not be decoded.
    Decode,
    /// Re-encoding the pixel buffer into the transport format failed.
    Encode,
}

} // verus!
