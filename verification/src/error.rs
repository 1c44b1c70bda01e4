//! The failures the renderer distinguishes, and how each is treated.

use vstd::prelude::*;

verus! {

/// Why start-up could not produce a renderer. None of these can be recovered
/// from: without an adapter, a device, a surface and a pipeline nothing can be
/// drawn.
#[derive(Clone, Copy, Debug, PartialEq, Eq, Structural)]
pub enum StartupError {
    /// No graphics adapter can present to the surface.
    NoAdapter,
    /// The adapter granted no logical device.
    NoDevice,
    /// The window gave no surface, or the surface cannot be configured.
    SurfaceCreationFailed,
    /// The shader source was rejected.
    ShaderCompileFailed,
    /// The pipeline or its vertex buffer could not be built.
    PipelineBuildFailed,
}

/// Why the surface handed out no image for a frame.
#[derive(Clone, Copy, Debug, PartialEq, Eq, Structural)]
pub enum AcquireError {
    /// The image did not arrive in time.
    Timeout,
    /// The surface has changed under the swap chain.
    Outdated,
    /// The swap chain is gone and has to be set up again.
    Lost,
    /// No memory is left for another frame.
    OutOfMemory,
    /// The device itself is gone.
    DeviceLost,
}

/// How far a per-frame failure reaches.
#[derive(Clone, Copy, Debug, PartialEq, Eq, Structural)]
pub enum ErrorClass {
    /// The frame is dropped; reconfiguring the surface and drawing again on
    /// the next redraw is expected to work.
    Transient,
    /// Rendering cannot go on with this context.
    Fatal,
}

impl AcquireError {
    /// Timeouts and a surface that went stale are transient; losing memory or
    /// the device is fatal.
    pub open spec fn class(self) -> ErrorClass {
        match self {
            AcquireError::Timeout | AcquireError::Outdated | AcquireError::Lost => ErrorClass::Transient,
            AcquireError::OutOfMemory | AcquireError::DeviceLost => ErrorClass::Fatal,
        }
    }

    pub open spec fn is_transient(self) -> bool {
        self.class() == ErrorClass::Transient
    }

    pub fn classify(&self) -> (class: ErrorClass)
        ensures
            class == self.class(),
    {
        match self {
            AcquireError::Timeout => ErrorClass::Transient,
            AcquireError::Outdated => ErrorClass::Transient,
            AcquireError::Lost => ErrorClass::Transient,
            AcquireError::OutOfMemory => ErrorClass::Fatal,
            AcquireError::DeviceLost => ErrorClass::Fatal,
        }
    }
}

} // verus!
