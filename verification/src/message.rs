//! Messages that cross the thread boundary, each by transfer of ownership,
//! and the plain values they carry.

use slint::platform::WindowEvent;
use vstd::prelude::*;

verus! {

/// Identifier of the native display connection: its address as an integer.
/// The windowing layer keeps the connection alive for as long as a graphics
/// context built on it exists; the holder of a handle only borrows it.
#[derive(Debug, Clone, Copy, PartialEq, Eq, Structural)]
pub struct DisplayHandle(pub usize);

/// Identifier of the native drawable surface, under the same terms as
/// [`DisplayHandle`].
#[derive(Debug, Clone, Copy, PartialEq, Eq, Structural)]
pub struct SurfaceHandle(pub usize);

impl DisplayHandle {
    /// A handle that names no display.
    pub open spec fn null(self) -> bool {
        self.0 == 0
    }

    pub fn is_null(&self) -> (b: bool)
        ensures
            b == self.null(),
    {
        self.0 == 0
    }
}

impl SurfaceHandle {
    /// A handle that names no surface.
    pub open spec fn null(self) -> bool {
        self.0 == 0
    }

    pub fn is_null(&self) -> (b: bool)
        ensures
            b == self.null(),
    {
        self.0 == 0
    }
}

/// A size in physical pixels, width first, can back a drawable only if
/// neither side is zero.
pub open spec fn size_valid(size: (u32, u32)) -> bool {
    size.0 > 0 && size.1 > 0
}

/// Whether a drawable of this size can exist.
pub fn is_size_valid(size: (u32, u32)) -> (b: bool)
    ensures
        b == size_valid(size),
{
    size.0 > 0 && size.1 > 0
}

/// What the control thread sends to the render thread.
#[derive(Debug, PartialEq)]
pub enum WindowingMessage {
    /// The native surface exists. This is the first message of a session.
    SurfaceReady { display_id: DisplayHandle, surface_id: SurfaceHandle, size: (u32, u32) },
    /// The compositor asked for a new size; `serial` names the request.
    SurfaceResize { size: (u32, u32), serial: u32 },
    /// The compositor has been told that the resize `serial` was honoured.
    SurfaceResizeAcked { serial: u32 },
    /// Input or window state for the rendering window.
    SlintWindowEvent(WindowEvent),
    /// The credential last submitted was rejected.
    UnlockFailed,
}

/// What the render thread sends to the control thread.
#[derive(Debug, PartialEq)]
pub enum RenderMessage {
    /// The resize with this serial has been applied to the drawable.
    AckResize { serial: u32 },
    /// The user submitted a credential; the control thread has it validated.
    UnlockWithPassword { password: String },
}

} // verus!
