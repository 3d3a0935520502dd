//! The unified event representation delivered to the per-iteration handler.

use vstd::prelude::*;

use crate::dpi::{PhysicalPosition, PhysicalSize};

verus! {

/// Identifies a window of the application.
#[derive(Clone, Copy, Debug, PartialEq, Eq, Hash, Structural)]
pub struct WindowId(pub u64);

/// An event concerning one window.
#[derive(Clone, Copy, Debug, PartialEq, Eq, Structural)]
pub enum WindowEvent {
    /// The window has been created.
    Created,
    /// The close button was pressed.
    CloseRequested,
    /// The window has been destroyed.
    Destroyed,
    /// The window was resized to the contained size.
    Resized(PhysicalSize),
    /// The window was moved to the contained position.
    Moved(PhysicalPosition),
    /// The window gained or lost focus.
    Focused(bool),
    /// A key was pressed or released while the window was focused.
    KeyboardInput { scan_code: u32, pressed: bool },
    /// A touch began at the contained position.
    Touch { x: i32, y: i32 },
}

/// A raw event of an input device, not tied to a window.
#[derive(Clone, Copy, Debug, PartialEq, Eq, Structural)]
pub enum DeviceEvent {
    /// Relative mouse motion.
    MouseMotion { dx: i32, dy: i32 },
    /// A key was pressed or released.
    Key { scan_code: u32, pressed: bool },
}

/// The closed set of events the loop delivers: window lifecycle, raw input,
/// the user-defined payload injected through a proxy, and the two loop
/// lifecycle markers.
#[allow(inconsistent_fields)]
pub enum Event<T> {
    /// An event of one window.
    WindowEvent { window_id: WindowId, event: WindowEvent },
    /// A raw device event.
    DeviceEvent { event: DeviceEvent },
    /// A payload sent through an `EventLoopProxy`.
    UserEvent(T),
    /// The idle marker: delivered once per wake, after every event of that
    /// wake and never interleaved with them.
    RedrawEventsCleared,
    /// The final notification before the pump returns; delivered exactly
    /// once, after termination was requested.
    LoopDestroyed,
}

} // verus!
