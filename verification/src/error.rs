//! Error taxonomy: fatal construction failures, per-frame draw failures, and
//! the public wrapper error the owning application sees.

use vstd::prelude::*;

verus! {

/// Fatal failure while constructing the rendering device. Construction stops
/// at the first failure; no partially usable device is ever returned.
#[derive(Debug)]
pub enum InitError {
    /// The API entry point could not be loaded.
    EntryLoadFailed,
    /// A required instance extension or layer is absent; carries its name.
    MissingCapability(Vec<u8>),
    /// No enumerated physical device exposes a graphics-capable queue family.
    NoSuitableDevice,
    /// The chosen physical device exposes no graphics-capable queue family.
    NoGraphicsQueue,
    /// A device-side object (swapchain, pipeline, ...) could not be created.
    ResourceCreationFailed,
}

/// Per-frame failure during the steady-state loop. `Submit` and `Present`
/// are isolated to their frame; `DeviceLost` is fatal and requires teardown.
#[derive(Clone, Copy, PartialEq, Eq, Structural, Debug)]
pub enum DrawError {
    /// Command recording or queue submission failed for this frame.
    Submit,
    /// Presentation failed for a reason other than swapchain staleness.
    Present,
    /// The device itself was reported lost; not recoverable.
    DeviceLost,
}

/// Top-level error reported to the owning application.
#[derive(Debug)]
pub enum GraphicsError {
    /// Device initialization failed; carries a human-readable description.
    DeviceInitializationFailed(String),
}

impl GraphicsError {
    /// The human-readable description this error carries.
    pub fn into_message(self) -> (m: String)
        ensures
            self matches GraphicsError::DeviceInitializationFailed(s) && m == s,
    {
        match self {
            GraphicsError::DeviceInitializationFailed(s) => s,
        }
    }
}

} // verus!
