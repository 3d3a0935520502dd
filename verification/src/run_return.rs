//! The re-entrant run entry point: unlike `run`, it returns control to the
//! caller once the handler requests termination.

use vstd::prelude::*;

use crate::event_loop::{observed_after, writes_of, ControlFlow, EventHandler, EventLoop};

verus! {

/// Additional methods on `EventLoop` that return control flow to the
/// caller.
pub trait EventLoopExtRunReturn {
    /// The user-event payload type carried by `Event::UserEvent`.
    type UserEvent;

    /// Pumps the loop exactly until the sticky-exit machine observes
    /// `ExitWithCode`, then returns the code. Control flow is reset on
    /// every fresh call — the contract folds only the writes of this call's
    /// own delivery-log entries, from `Poll` — so nothing carries over from
    /// an earlier call. The final delivery of the call is the
    /// loop-destroyed notification; the one other way the call can end is
    /// the pump's wake bound (more deliveries than a 64-bit counter can
    /// hold, unreachable in practice), which yields code 0.
    fn run_return<H: EventHandler<Self::UserEvent>>(&mut self, handler: &mut H) -> (code: i32)
        ensures
            final(handler).delivery_log().len() > old(handler).delivery_log().len(),
            final(handler).delivery_log().take(old(handler).delivery_log().len() as int) == old(
                handler,
            ).delivery_log(),
            ({
                let delta = final(handler).delivery_log().skip(
                    old(handler).delivery_log().len() as int,
                );
                ||| {
                    &&& observed_after(writes_of(delta)) == ControlFlow::ExitWithCode(code)
                    &&& delta.len() >= 2
                    &&& delta.last().0 is LoopDestroyed
                    &&& delta[delta.len() - 2].0 is RedrawEventsCleared
                }
                ||| {
                    &&& code == 0
                    &&& delta.len() >= u64::MAX
                }
            }),
    ;
}

impl<T> EventLoopExtRunReturn for EventLoop<T> {
    type UserEvent = T;

    fn run_return<H: EventHandler<T>>(&mut self, handler: &mut H) -> (code: i32) {
        self.pump_events(handler)
    }
}

} // verus!
