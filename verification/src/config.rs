//! What a caller asks for, and what it is told when it cannot be had.

use vstd::prelude::*;

verus! {

/// The OpenGL profile that a caller asks for.
#[derive(Clone, Copy, Debug, PartialEq, Eq, Structural)]
pub enum Profile {
    Compatibility,
    Core,
}

/// What the window system says of a creation that failed: nothing.
pub type CreationFailedError = ();

/// Why a context could not be created.
#[derive(Clone, Copy, Debug, PartialEq, Eq)]
pub enum GlError {
    /// The parent is not an AppKit view, or is no view at all.
    InvalidWindowHandle,
    /// No profile of the window system offers the version that was asked for.
    VersionNotSupported,
    /// The window system or OpenGL refused one of the objects.
    CreationFailed(CreationFailedError),
}

/// The context that a caller asks for.
#[derive(Clone, Copy, Debug, PartialEq, Eq)]
pub struct GlConfig {
    /// Major and minor version.
    pub version: (u8, u8),
    pub profile: Profile,
    pub red_bits: u8,
    pub blue_bits: u8,
    pub green_bits: u8,
    pub alpha_bits: u8,
    pub depth_bits: u8,
    pub stencil_bits: u8,
    pub samples: Option<u8>,
    pub vsync: bool,
}

impl GlConfig {
    /// The bits of the three colour channels together.
    pub open spec fn color_bits(self) -> int {
        self.red_bits + self.blue_bits + self.green_bits
    }
}

} // verus!
