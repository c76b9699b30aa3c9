use vstd::prelude::*;

verus! {

/// A terminal graphics protocol the dispatcher can select.
#[derive(Clone, Copy, Debug, PartialEq, Eq, Structural)]
pub enum Protocol {
    /// The inline-blob protocol: one control sequence carrying a base64 payload.
    Iterm,
    /// The degrade-gracefully path used when no graphics capability is detected.
    Fallback,
}

/// The immutable per-invocation configuration.
#[derive(Clone, Copy, Debug, PartialEq, Eq, Structural)]
pub struct Config {
    /// Requested width in cells; absent means unconstrained.
    pub width: Option<u32>,
    /// Requested height in cells; absent means unconstrained.
    pub height: Option<u32>,
    /// Horizontal offset in cells, applied before the payload.
    pub x: u16,
    /// Vertical offset in cells, applied before the payload.
    pub y: u16,
    /// Explicit protocol override; absent means probe the terminal.
    pub protocol: Option<Protocol>,
    /// Whether truecolor escape codes may be used by cell-grid style encoders.
    pub truecolor: bool,
}

impl Config {
    /// Requested dimensions, where present, are positive.
    pub open spec fn wf(self) -> bool {
        &&& (self.width matches Some(w) ==> w >= 1)
        &&& (self.height matches Some(h) ==> h >= 1)
    }
}

} // verus!
