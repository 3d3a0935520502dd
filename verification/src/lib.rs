//! A platform-independent event-loop core: the `ControlFlow` state machine
//! that decides how the loop idles, a pump that delivers events to a
//! per-iteration handler, a thread-safe proxy for injecting user events,
//! icon pixel-buffer validation, and monitor / video-mode snapshot types.

mod channel;
pub mod dpi;
pub mod event;
pub mod event_loop;
pub mod icon;
pub mod monitor;
pub mod run_return;
pub mod util;
pub mod window;
